use vstd::prelude::*;

verus! {

/// The largest input that is decoded in one piece.
pub const MAX_DECODE_BYTES: usize = 0x4000_0000;

/// The text that UTF-8 decoding (with BOM sniffing and replacement of
/// malformed sequences) makes of some bytes.
pub uninterp spec fn utf8_text_of(bytes: Seq<u8>) -> Seq<char>;

/// Whether UTF-8 decoding of some bytes met a malformed sequence.
pub uninterp spec fn utf8_malformed(bytes: Seq<u8>) -> bool;

/// Relies on encoding_rs::Encoding::decode on UTF_8: the decoded text, and
/// whether malformed sequences were replaced. It depends on the bytes alone.
#[verifier::external_body]
pub(crate) fn decode_utf8(bytes: &Vec<u8>) -> (r: (String, bool))
    requires
        bytes@.len() <= MAX_DECODE_BYTES,
    ensures
        r.0@ == utf8_text_of(bytes@),
        r.1 == utf8_malformed(bytes@),
{
    let (text, _, malformed) = encoding_rs::UTF_8.decode(bytes.as_slice());
    (text.into_owned(), malformed)
}

/// Whether a count of seconds since the epoch names an instant that a UTC
/// date-time can hold.
pub uninterp spec fn utc_representable(secs: int) -> bool;

/// The RFC 3339 form, whole seconds and a `Z` suffix, of an instant.
pub uninterp spec fn rfc3339_utc_of(secs: int) -> Seq<char>;

/// Relies on chrono::DateTime::from_timestamp_secs, which returns `None`
/// exactly on out-of-range seconds, and on DateTime::to_rfc3339_opts with
/// SecondsFormat::Secs and `Z` for UTC.
#[verifier::external_body]
pub(crate) fn render_utc_secs(secs: i64) -> (r: Option<String>)
    ensures
        r is Some <==> utc_representable(secs as int),
        r is Some ==> r->0@ == rfc3339_utc_of(secs as int),
{
    match chrono::DateTime::from_timestamp_secs(secs) {
        Some(d) => Some(d.to_rfc3339_opts(chrono::SecondsFormat::Secs, true)),
        None => None,
    }
}

/// The instant, in whole seconds since the epoch, that an RFC 3339 text
/// names; `None` where the text is not RFC 3339.
pub uninterp spec fn rfc3339_seconds_of(s: Seq<char>) -> Option<i64>;

/// Relies on chrono::DateTime::parse_from_rfc3339, read as seconds since the
/// epoch by DateTime::timestamp.
#[verifier::external_body]
pub(crate) fn parse_rfc3339_secs(s: &str) -> (r: Option<i64>)
    ensures
        r == rfc3339_seconds_of(s@),
{
    match chrono::DateTime::parse_from_rfc3339(s) {
        Ok(d) => Some(d.timestamp()),
        Err(_) => None,
    }
}

} // verus!
