//! Wall-clock timestamps in RFC 3339 form.
use vstd::prelude::*;
use time::OffsetDateTime;
use time::error::Format;

verus! {

/// `time::OffsetDateTime`, an opaque instant.
#[verifier::external_type_specification]
#[verifier::external_body]
pub struct ExOffsetDateTime(OffsetDateTime);

/// `time::error::Format`, the opaque error of formatting an instant.
#[verifier::external_type_specification]
#[verifier::external_body]
pub struct ExFormat(Format);

/// `time::OffsetDateTime::now_utc`: the current instant in UTC.  Nothing is
/// stated of it: it depends on the clock.
#[verifier::external_body]
fn now_utc() -> (t: OffsetDateTime) {
    OffsetDateTime::now_utc()
}

/// An ASCII digit.
pub open spec fn is_digit(c: char) -> bool {
    '0' <= c && c <= '9'
}

/// The shape of an RFC 3339 timestamp: `YYYY-MM-DDTHH:MM:SS` in digits and
/// separators, followed by at least the offset (`Z` or `+hh:mm`), with an
/// optional fraction between.
pub open spec fn rfc3339_shaped(s: Seq<char>) -> bool {
    &&& s.len() >= 20
    &&& is_digit(s[0]) && is_digit(s[1]) && is_digit(s[2]) && is_digit(s[3])
    &&& s[4] == '-'
    &&& is_digit(s[5]) && is_digit(s[6])
    &&& s[7] == '-'
    &&& is_digit(s[8]) && is_digit(s[9])
    &&& s[10] == 'T'
    &&& is_digit(s[11]) && is_digit(s[12])
    &&& s[13] == ':'
    &&& is_digit(s[14]) && is_digit(s[15])
    &&& s[16] == ':'
    &&& is_digit(s[17]) && is_digit(s[18])
}

/// `OffsetDateTime::format` with the RFC 3339 description.  Claimed, as the
/// crate's formatter writes it: text that starts with the four-digit year,
/// two-digit month and day, `T`, and two-digit hour, minute and second
/// separated by `:`, and ends with the offset (`Z` or `+hh:mm`), so at
/// least 20 characters.  Which instant it shows is left unstated (it comes
/// from the clock).
#[verifier::external_body]
fn format_rfc3339(t: &OffsetDateTime) -> (r: Result<String, Format>)
    ensures
        r matches Ok(s) ==> rfc3339_shaped(s@),
{
    t.format(&time::format_description::well_known::Rfc3339)
}

/// The current time in RFC 3339 form, or the epoch text when formatting
/// fails; either way an RFC 3339 timestamp.
pub fn timestamp_now() -> (s: String)
    ensures
        rfc3339_shaped(s@),
{
    proof {
        reveal_strlit("1970-01-01T00:00:00Z");
    }
    let t = now_utc();
    match format_rfc3339(&t) {
        Ok(s) => s,
        Err(_) => crate::text::owned("1970-01-01T00:00:00Z"),
    }
}

} // verus!
