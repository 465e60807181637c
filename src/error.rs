use vstd::prelude::*;

verus! {

/// A file's bytes are not valid UTF-8.
pub struct DecodingError {
    pub filepath: String,
}

impl DecodingError {
    pub fn new(filepath: String) -> (r: Self)
        ensures
            r.filepath@ == filepath@,
    {
        Self { filepath }
    }
}

/// A JSON file could not be turned into the expected records.
pub struct DeserializationError {
    pub filepath: String,
    pub error_object: String,
}

impl DeserializationError {
    pub fn new(filepath: String, error_object: String) -> (r: Self)
        ensures
            r.filepath@ == filepath@,
            r.error_object@ == error_object@,
    {
        Self { filepath, error_object }
    }
}

/// A username could not be resolved to a peer.
pub struct UsernameResolveError {
    pub username: String,
    pub message: String,
}

impl UsernameResolveError {
    pub fn new(username: String, message: String) -> (r: Self)
        ensures
            r.username@ == username@,
            r.message@ == message@,
    {
        Self { username, message }
    }
}

/// An input file has another extension than the one expected.
pub struct FileExtensionError {
    pub expected: String,
    pub found: String,
}

impl FileExtensionError {
    pub fn new(expected: String, found: String) -> (r: Self)
        ensures
            r.expected@ == expected@,
            r.found@ == found@,
    {
        Self { expected, found }
    }
}

/// An input file does not exist.
pub struct FileNotFoundError {
    pub expected_path: String,
}

impl FileNotFoundError {
    pub fn new(expected_path: String) -> (r: Self)
        ensures
            r.expected_path@ == expected_path@,
    {
        Self { expected_path }
    }
}

/// A date could not be read or lies outside the representable range.
pub struct DateTimeParseError {
    pub datestring: String,
    pub error_object: String,
}

impl DateTimeParseError {
    pub fn new(datestring: String, error_object: String) -> (r: Self)
        ensures
            r.datestring@ == datestring@,
            r.error_object@ == error_object@,
    {
        Self { datestring, error_object }
    }
}

/// The REST client could not be set up.
pub struct DiscordClientInitializationError {
    pub message: String,
}

impl DiscordClientInitializationError {
    pub fn new(message: String) -> (r: Self)
        ensures
            r.message@ == message@,
    {
        Self { message }
    }
}

/// Some of the supplied ids are not valid.
pub struct InvalidIDError {
    pub ids: Vec<String>,
}

impl InvalidIDError {
    pub fn new(ids: Vec<String>) -> (r: Self)
        ensures
            r.ids@ == ids@,
    {
        Self { ids }
    }
}

} // verus!
