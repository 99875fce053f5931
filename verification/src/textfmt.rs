//! Small text-building helpers shared by the modules that render
//! strings: appending single characters and decimal numbers.

use vstd::prelude::*;

verus! {

/// Relies on `String::push`: appends exactly one character.
#[verifier::external_body]
pub(crate) fn push_char(s: &mut String, c: char)
    ensures
        final(s)@ == old(s)@ + seq![c],
{
    s.push(c);
}

/// The decimal digit character for a value below 10.
pub open spec fn spec_decimal_digit(d: nat) -> char {
    if d == 0 { '0' } else if d == 1 { '1' } else if d == 2 { '2' } else if d == 3 { '3' }
    else if d == 4 { '4' } else if d == 5 { '5' } else if d == 6 { '6' } else if d == 7 { '7' }
    else if d == 8 { '8' } else { '9' }
}

/// The decimal rendering of a number, most significant digit first,
/// without leading zeroes (a single `0` for zero).
pub open spec fn spec_decimal(n: nat) -> Seq<char>
    decreases n,
{
    if n < 10 {
        seq![spec_decimal_digit(n)]
    } else {
        spec_decimal((n / 10) as nat) + seq![spec_decimal_digit((n % 10) as nat)]
    }
}

/// The character for a single decimal digit.
fn decimal_digit(d: u16) -> (c: char)
    requires
        d < 10,
    ensures
        c == spec_decimal_digit(d as nat),
{
    if d == 0 { '0' } else if d == 1 { '1' } else if d == 2 { '2' } else if d == 3 { '3' }
    else if d == 4 { '4' } else if d == 5 { '5' } else if d == 6 { '6' } else if d == 7 { '7' }
    else if d == 8 { '8' } else { '9' }
}

/// Appends the decimal rendering of `n`.
pub(crate) fn push_decimal(out: &mut String, n: u16)
    ensures
        final(out)@ == old(out)@ + spec_decimal(n as nat),
    decreases n,
{
    let ghost pre = out@;
    if n < 10 {
        push_char(out, decimal_digit(n));
    } else {
        push_decimal(out, n / 10);
        push_char(out, decimal_digit(n % 10));
        assert(out@ =~= pre + spec_decimal(n as nat));
    }
}

/// The decimal rendering of a number as a string.
pub fn u16_decimal(n: u16) -> (r: String)
    ensures
        r@ == spec_decimal(n as nat),
{
    let mut out = String::new();
    push_decimal(&mut out, n);
    assert(out@ =~= spec_decimal(n as nat));
    out
}

} // verus!
