//! Decimal rendering of integers for error messages.
use vstd::prelude::*;

verus! {

/// The ASCII digit of `d` (0 to 9).
pub open spec fn digit_char(d: int) -> char {
    (48 + d) as char
}

/// The decimal digits of `n`, most significant first, without leading zeros.
pub open spec fn nat_digits(n: nat) -> Seq<char>
    decreases n,
{
    if n < 10 {
        seq![digit_char(n as int)]
    } else {
        nat_digits(n / 10).push(digit_char((n % 10) as int))
    }
}

/// The decimal rendering of `v`: a `-` before the digits of a negative value.
pub open spec fn decimal_chars(v: int) -> Seq<char> {
    if v < 0 {
        seq!['-'] + nat_digits((-v) as nat)
    } else {
        nat_digits(v as nat)
    }
}

/// Trusted: std's `ToString` of an `i128`, its `Display` in base 10 (a `-` sign for negative
/// values, no leading zeros).
#[verifier::external_body]
pub(crate) fn decimal_text(v: i128) -> (r: String)
    ensures
        r@ == decimal_chars(v as int),
{
    v.to_string()
}

} // verus!
