//! Fresh identifiers and wall-clock timestamps.

use vstd::prelude::*;

verus! {

/// A lower-case hexadecimal digit.
pub open spec fn is_lower_hex(c: char) -> bool {
    ('0' as u32 <= c as u32 <= '9' as u32) || ('a' as u32 <= c as u32 <= 'f' as u32)
}

/// Whether position `i` of a hyphenated identifier holds a hyphen.
pub open spec fn hyphen_place(i: int) -> bool {
    i == 8 || i == 13 || i == 18 || i == 23
}

/// The hyphenated form of a UUID: 36 characters, lower-case hexadecimal
/// digits in groups of 8, 4, 4, 4 and 12, with a hyphen between groups.
pub open spec fn uuid_shaped(s: Seq<char>) -> bool {
    &&& s.len() == 36
    &&& forall|i: int|
        0 <= i < 36 ==> if hyphen_place(i) {
            #[trigger] s[i] == '-'
        } else {
            is_lower_hex(#[trigger] s[i])
        }
}

/// Calls `uuid::Uuid::new_v4` and writes the result with `to_string`.
///
/// Trusted: the text is the hyphenated lower-case form. Which identifier
/// comes out is up to the operating system's random source, so nothing else
/// is claimed; in particular two calls are not claimed to differ.
#[verifier::external_body]
pub(crate) fn random_uuid_text() -> (id: String)
    ensures
        uuid_shaped(id@),
{
    uuid::Uuid::new_v4().to_string()
}

/// Calls `chrono::Utc::now` and `to_rfc3339`. Trusted: the text is an RFC 3339 timestamp in UTC.
#[verifier::external_body]
pub(crate) fn utc_now_text() -> (time: String)
    ensures
        rfc3339_utc(time@),
{
    chrono::Utc::now().to_rfc3339()
}

/// A fresh opaque identifier.
pub fn fresh_id() -> (id: String)
    ensures
        uuid_shaped(id@),
{
    random_uuid_text()
}

/// The current time in UTC, in RFC 3339 notation.
pub fn now_rfc3339() -> (time: String)
    ensures
        rfc3339_utc(time@),
{
    utc_now_text()
}

/// A decimal digit.
pub open spec fn is_digit(c: char) -> bool {
    '0' as u32 <= c as u32 <= '9' as u32
}

/// Whether `s` holds decimal digits and nothing else.
pub open spec fn all_digits(s: Seq<char>) -> bool {
    forall|i: int| 0 <= i < s.len() ==> is_digit(#[trigger] s[i])
}

/// The year of a timestamp: four digits, or, for a year after 9999, a plus
/// sign and at least five digits.
pub open spec fn year_shaped(s: Seq<char>) -> bool {
    ||| s.len() == 4 && all_digits(s)
    ||| s.len() >= 6 && s[0] == '+' && all_digits(s.subrange(1, s.len() as int))
}

/// `-MM-DDTHH:MM:SS`: month, day, hour, minute and second of a timestamp,
/// two digits each.
pub open spec fn clock_shaped(s: Seq<char>) -> bool {
    &&& s.len() == 15
    &&& s[0] == '-' && is_digit(s[1]) && is_digit(s[2])
    &&& s[3] == '-' && is_digit(s[4]) && is_digit(s[5])
    &&& s[6] == 'T' && is_digit(s[7]) && is_digit(s[8])
    &&& s[9] == ':' && is_digit(s[10]) && is_digit(s[11])
    &&& s[12] == ':' && is_digit(s[13]) && is_digit(s[14])
}

/// The fraction of a second of a timestamp: nothing where it is zero, else a
/// full stop and three, six or nine digits.
pub open spec fn fraction_shaped(s: Seq<char>) -> bool {
    ||| s.len() == 0
    ||| (s.len() == 4 || s.len() == 7 || s.len() == 10) && s[0] == '.' && all_digits(
        s.subrange(1, s.len() as int),
    )
}

/// Whether `s` is a timestamp in RFC 3339 notation whose year takes the
/// first `year_len` characters and whose offset from UTC is `+00:00`.
pub open spec fn rfc3339_utc_at(s: Seq<char>, year_len: int) -> bool {
    &&& 0 <= year_len
    &&& s.len() >= year_len + 21
    &&& year_shaped(s.subrange(0, year_len))
    &&& clock_shaped(s.subrange(year_len, year_len + 15))
    &&& fraction_shaped(s.subrange(year_len + 15, s.len() - 6))
    &&& s.subrange(s.len() - 6, s.len() as int) == "+00:00"@
}

/// A timestamp in RFC 3339 notation, in UTC: the year, then month, day,
/// hour, minute and second, then the fraction of a second where there is
/// one, then the offset `+00:00`. An example is `2024-05-17T08:30:00.250+00:00`.
pub open spec fn rfc3339_utc(s: Seq<char>) -> bool {
    exists|year_len: int| #[trigger] rfc3339_utc_at(s, year_len)
}

} // verus!
