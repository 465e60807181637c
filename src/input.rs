use vstd::prelude::*;

use crate::error::{DateTimeParseError, DecodingError, FileExtensionError};
use crate::outside::{
    decode_utf8, render_utc_secs, utc_representable, utf8_malformed, utf8_text_of,
    MAX_DECODE_BYTES,
};
use crate::text::{eq_ignore_ascii_case, eq_ignore_ascii_case_spec, lines_of, signed_decimal, signed_decimal_of, split_lines};

verus! {

/// The progress length shown for a crawl without a limit.
pub const UNBOUNDED_PROGRESS: u64 = 100_000_000;

/// Reads a target list: one target per line of UTF-8 text. Malformed UTF-8
/// is refused, naming the file.
pub fn parse_targets(bytes: &Vec<u8>, filepath: String) -> (r: Result<Vec<String>, DecodingError>)
    requires
        bytes@.len() <= MAX_DECODE_BYTES,
    ensures
        r is Err <==> utf8_malformed(bytes@),
        r is Err ==> r->Err_0.filepath@ == filepath@,
        r is Ok ==> r->Ok_0@.len() == lines_of(utf8_text_of(bytes@)).len() && forall|i: int|
            0 <= i < r->Ok_0@.len() ==> #[trigger] r->Ok_0@[i]@ == lines_of(utf8_text_of(bytes@))[i],
{
    let (text, malformed) = decode_utf8(bytes);
    if malformed {
        return Err(DecodingError::new(filepath));
    }
    Ok(split_lines(text.as_str()))
}

/// Reads a whole UTF-8 text. Malformed UTF-8 is refused, naming the file.
pub fn decode_text(bytes: &Vec<u8>, filepath: String) -> (r: Result<String, DecodingError>)
    requires
        bytes@.len() <= MAX_DECODE_BYTES,
    ensures
        r is Err <==> utf8_malformed(bytes@),
        r is Err ==> r->Err_0.filepath@ == filepath@,
        r is Ok ==> r->Ok_0@ == utf8_text_of(bytes@),
{
    let (text, malformed) = decode_utf8(bytes);
    if malformed {
        Err(DecodingError::new(filepath))
    } else {
        Ok(text)
    }
}

/// The extension reported when a path has none.
pub open spec fn unknown_extension() -> Seq<char> {
    "UNKNOWN_EXTENSION"@
}

/// Checks a file's extension against the expected one, ignoring ASCII case.
pub fn check_extension(extension: Option<String>, expected: &str) -> (r: Result<(), FileExtensionError>)
    ensures
        r is Ok <==> extension is Some && eq_ignore_ascii_case_spec(extension->0@, expected@),
        r is Err ==> r->Err_0.expected@ == expected@ && r->Err_0.found@ == match extension {
            Some(e) => e@,
            None => unknown_extension(),
        },
{
    match extension {
        Some(e) => if eq_ignore_ascii_case(e.as_str(), expected) {
            Ok(())
        } else {
            Err(FileExtensionError::new(String::from_str(expected), e))
        },
        None => Err(
            FileExtensionError::new(String::from_str(expected), String::from_str("UNKNOWN_EXTENSION")),
        ),
    }
}

/// Accepts a date point, in seconds since the epoch, that a UTC date-time
/// can hold.
pub fn check_date_point(date_point: i64) -> (r: Result<i64, DateTimeParseError>)
    ensures
        r is Ok <==> utc_representable(date_point as int),
        r is Ok ==> r->Ok_0 == date_point,
        r is Err ==> r->Err_0.datestring@ == signed_decimal_of(date_point as int),
{
    match render_utc_secs(date_point) {
        Some(_) => Ok(date_point),
        None => Err(
            DateTimeParseError::new(
                signed_decimal(date_point),
                String::from_str("NO DATE_POINT FOUND AFTER PARSE"),
            ),
        ),
    }
}

/// Forward (oldest-first) crawling is refused on both platforms.
pub struct UnsupportedDirectionError {
    pub platform: String,
}

/// Crawls run newest first only: a request to reverse the direction is
/// refused, on every platform alike.
pub fn check_direction(platform: String, reverse: bool) -> (r: Result<(), UnsupportedDirectionError>)
    ensures
        r is Ok <==> !reverse,
        r is Err ==> r->Err_0.platform@ == platform@,
{
    if reverse {
        Err(UnsupportedDirectionError { platform })
    } else {
        Ok(())
    }
}

/// The length of a crawl's progress display.
pub fn progress_length(limit: Option<u32>) -> (r: u64)
    ensures
        r == match limit {
            Some(l) => l as u64,
            None => UNBOUNDED_PROGRESS,
        },
{
    match limit {
        Some(l) => l as u64,
        None => UNBOUNDED_PROGRESS,
    }
}

/// The limit a crawl runs with.
pub fn crawl_limit(limit: Option<u32>) -> (r: Option<u64>)
    ensures
        r == match limit {
            Some(l) => Some(l as u64),
            None => None::<u64>,
        },
{
    match limit {
        Some(l) => Some(l as u64),
        None => None,
    }
}

} // verus!
