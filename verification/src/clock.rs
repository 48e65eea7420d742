//! Time stamps and fresh identifiers, taken from `chrono` and `uuid`.
use vstd::prelude::*;

verus! {

/// A lowercase hexadecimal digit.
pub open spec fn is_lower_hex_digit(c: char) -> bool {
    ('0' <= c && c <= '9') || ('a' <= c && c <= 'f')
}

/// The positions of the hyphens in a hyphenated UUID.
pub open spec fn is_uuid_hyphen_position(i: int) -> bool {
    i == 8 || i == 13 || i == 18 || i == 23
}

/// The hyphenated lowercase text of a version-4 UUID: 36 characters,
/// hyphens at 8, 13, 18 and 23, lowercase hex digits elsewhere, the version
/// digit `4` at 14 and a variant digit of `8`, `9`, `a` or `b` at 19.
pub open spec fn is_uuid_v4_text(s: Seq<char>) -> bool {
    &&& s.len() == 36
    &&& forall|i: int|
        0 <= i < 36 ==> if is_uuid_hyphen_position(i) {
            s[i] == '-'
        } else {
            is_lower_hex_digit(#[trigger] s[i])
        }
    &&& s[14] == '4'
    &&& (s[19] == '8' || s[19] == '9' || s[19] == 'a' || s[19] == 'b')
}

/// An RFC 3339 time stamp in UTC as `DateTime<Utc>::to_rfc3339` writes it:
/// at least `YYYY-MM-DDTHH:MM:SS` and the offset, which is always `+00:00`.
pub open spec fn is_utc_timestamp_text(s: Seq<char>) -> bool {
    let n = s.len() as int;
    &&& n >= 25
    &&& s[n - 6] == '+'
    &&& s[n - 5] == '0'
    &&& s[n - 4] == '0'
    &&& s[n - 3] == ':'
    &&& s[n - 2] == '0'
    &&& s[n - 1] == '0'
}

/// The current UTC time in RFC 3339 form: `chrono::Utc::now()` formatted by
/// `DateTime::to_rfc3339`. Which time it is depends on the clock; what is
/// claimed is the shape that chrono's `write_rfc3339` gives every value of
/// the UTC zone: the offset is written as `+00:00`, after a date and time of
/// at least 19 characters. The digits themselves are not stated.
#[verifier::external_body]
pub fn now_rfc3339() -> (s: String)
    ensures
        is_utc_timestamp_text(s@),
{
    chrono::Utc::now().to_rfc3339()
}

/// A fresh random identifier: `uuid::Uuid::new_v4()` in its hyphenated text
/// form (`Display` writes the lowercase hyphenated encoding). The value is
/// random; what is claimed is the shape every such value has, with the
/// version and variant bits that `new_v4` sets. The digits themselves are
/// not stated.
#[verifier::external_body]
pub fn new_id() -> (s: String)
    ensures
        is_uuid_v4_text(s@),
{
    uuid::Uuid::new_v4().to_string()
}

} // verus!
