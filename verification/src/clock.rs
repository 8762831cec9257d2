//! The wall clock, read through `nexcore_chrono`.

use vstd::prelude::*;

use nexcore_chrono::DateTime;

verus! {

/// A decimal digit.
pub open spec fn is_digit(c: char) -> bool {
    '0' <= c && c <= '9'
}

/// A year as `{:04}` writes an integer: at least four characters, an
/// optional minus sign, then decimal digits.
pub open spec fn is_year_text(y: Seq<char>) -> bool {
    &&& y.len() >= 4
    &&& (is_digit(y[0]) || y[0] == '-')
    &&& forall|k: int| 1 <= k < y.len() ==> #[trigger] is_digit(y[k])
}

/// "-MM-DDTHH:MM:SS", each field two decimal digits.
pub open spec fn is_clock_tail(t: Seq<char>) -> bool {
    &&& t.len() == 15
    &&& t[0] == '-'
    &&& is_digit(t[1]) && is_digit(t[2])
    &&& t[3] == '-'
    &&& is_digit(t[4]) && is_digit(t[5])
    &&& t[6] == 'T'
    &&& is_digit(t[7]) && is_digit(t[8])
    &&& t[9] == ':'
    &&& is_digit(t[10]) && is_digit(t[11])
    &&& t[12] == ':'
    &&& is_digit(t[13]) && is_digit(t[14])
}

/// RFC 3339 text of a UTC instant: "YYYY-MM-DDTHH:MM:SSZ", or
/// "YYYY-MM-DDTHH:MM:SS.ffffffZ" with six digits of microseconds.
pub open spec fn is_rfc3339_utc(s: Seq<char>) -> bool {
    &&& s.len() > 0
    &&& s.last() == 'Z'
    &&& {
        let b = s.drop_last();
        let n = b.len() as int;
        ||| n >= 19 && is_year_text(b.take(n - 15)) && is_clock_tail(b.skip(n - 15))
        ||| {
            &&& n >= 26
            &&& is_year_text(b.take(n - 22))
            &&& is_clock_tail(b.subrange(n - 22, n - 7))
            &&& b[n - 7] == '.'
            &&& forall|k: int| n - 6 <= k < n ==> #[trigger] is_digit(b[k])
        }
    }
}

/// `nexcore_chrono::DateTime`, a UTC instant; opaque here.
#[verifier::external_type_specification]
#[verifier::external_body]
pub struct ExDateTime(nexcore_chrono::DateTime);

/// Calls `nexcore_chrono::DateTime::now`, which reads the system clock.
/// Nothing is claimed of the instant it returns.
#[verifier::external_body]
fn clock_now() -> (t: DateTime) {
    DateTime::now()
}

/// Calls `nexcore_chrono::DateTime::to_rfc3339`. Claimed: the text has the
/// form of one of the crate's two formats, "{:04}-{:02}-{:02}T{:02}:{:02}:{:02}Z"
/// and the same with ".{:06}" before the `Z`; every field but the year is
/// below 100 (below 10^6 for the microseconds) and so takes exactly its
/// width. Which digits appear, and which format is chosen, is left unsaid.
#[verifier::external_body]
fn rfc3339(t: &DateTime) -> (s: String)
    ensures
        is_rfc3339_utc(s@),
{
    t.to_rfc3339()
}

/// The current UTC time as RFC 3339 text.
pub(crate) fn timestamp_now() -> (s: String)
    ensures
        is_rfc3339_utc(s@),
{
    let t = clock_now();
    rfc3339(&t)
}

} // verus!
