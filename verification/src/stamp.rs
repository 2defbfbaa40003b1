//! Values that differ from call to call: the time and fresh identifiers.
use vstd::prelude::*;

verus! {

/// `chrono::Utc::now().timestamp_millis()`: milliseconds since the Unix epoch by the clock of the
/// machine. Nothing is claimed of the value, which depends on that clock alone.
#[verifier::external_body]
pub(crate) fn now_millis() -> (r: i64) {
    chrono::Utc::now().timestamp_millis()
}

/// A digit of base ten.
pub open spec fn is_digit(c: char) -> bool {
    '0' <= c <= '9'
}

/// Two digits stand at `i`.
pub open spec fn two_digits(s: Seq<char>, i: int) -> bool {
    is_digit(s[i]) && is_digit(s[i + 1])
}

/// The form of a time whose date is followed by a `T` at `t`: year, month and day, then hours,
/// minutes and seconds, these with three, six or nine decimals or none, and the offset of UTC. A year
/// has four digits, or else a sign and more.
pub open spec fn is_time_at(s: Seq<char>, t: int) -> bool {
    let end = s.len() - 6;
    &&& 10 <= t
    &&& t + 9 <= end
    &&& if t == 10 {
        two_digits(s, 0) && two_digits(s, 2)
    } else {
        s[0] == '+' && forall|i: int| 1 <= i < t - 6 ==> is_digit(#[trigger] s[i])
    }
    &&& s[t - 6] == '-' && two_digits(s, t - 5)
    &&& s[t - 3] == '-' && two_digits(s, t - 2)
    &&& s[t] == 'T' && two_digits(s, t + 1)
    &&& s[t + 3] == ':' && two_digits(s, t + 4)
    &&& s[t + 6] == ':' && two_digits(s, t + 7)
    &&& end == t + 9 || ((end == t + 13 || end == t + 16 || end == t + 19) && s[t + 9] == '.'
        && forall|i: int| t + 10 <= i < end ==> is_digit(#[trigger] s[i]))
    &&& s.skip(end) == "+00:00"@
}

/// The form of a time.
pub open spec fn is_time(s: Seq<char>) -> bool {
    exists|t: int| is_time_at(s, t)
}

/// `chrono::Utc::now().to_rfc3339()`: the time by the clock of the machine, in the form of RFC 3339.
/// Which time it is depends on that clock alone.
#[verifier::external_body]
pub(crate) fn now_text() -> (r: String)
    ensures
        is_time(r@),
{
    chrono::Utc::now().to_rfc3339()
}

/// A digit of base sixteen, in lower case.
pub open spec fn is_hex_digit(c: char) -> bool {
    '0' <= c <= '9' || 'a' <= c <= 'f'
}

/// The form of an identifier: thirty-two hexadecimal digits in five groups with hyphens between
/// them.
pub open spec fn is_id(s: Seq<char>) -> bool {
    &&& s.len() == 36
    &&& forall|i: int|
        0 <= i < 36 ==> if i == 8 || i == 13 || i == 18 || i == 23 {
            #[trigger] s[i] == '-'
        } else {
            is_hex_digit(s[i])
        }
}

/// `uuid::Uuid::new_v4().to_string()`: a random identifier in hyphenated form and lower case. Which
/// one it is depends on chance.
#[verifier::external_body]
pub(crate) fn new_id() -> (r: String)
    ensures
        is_id(r@),
{
    uuid::Uuid::new_v4().to_string()
}

} // verus!
