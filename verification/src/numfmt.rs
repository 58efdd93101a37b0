//! Decimal rendering of integers, and the fixed currency format.
//!
//! Monetary amounts are carried through the library in minor units (pence),
//! so `format_pence` can state exactly which characters come out: a pound
//! sign, the whole part in decimal, a dot, and two fraction digits.

use vstd::prelude::*;

verus! {

/// The character for one decimal digit value.
pub open spec fn digit_char(d: int) -> char {
    if d == 0 {
        '0'
    } else if d == 1 {
        '1'
    } else if d == 2 {
        '2'
    } else if d == 3 {
        '3'
    } else if d == 4 {
        '4'
    } else if d == 5 {
        '5'
    } else if d == 6 {
        '6'
    } else if d == 7 {
        '7'
    } else if d == 8 {
        '8'
    } else {
        '9'
    }
}

/// The usual decimal rendering of `n`, most significant digit first, with
/// no leading zeros (a single zero for 0).
pub open spec fn dec_digits(n: nat) -> Seq<char>
    decreases n,
{
    if n < 10 {
        seq![digit_char(n as int)]
    } else {
        dec_digits(n / 10).push(digit_char((n % 10) as int))
    }
}

/// Appends the decimal rendering of `n` to `out`.
pub fn push_decimal(out: &mut String, n: u64)
    ensures
        final(out)@ == old(out)@ + dec_digits(n as nat),
    decreases n,
{
    if n < 10 {
        out.push(digit_of(n));
        proof {
            assert(final(out)@ =~= old(out)@ + dec_digits(n as nat));
        }
    } else {
        push_decimal(out, n / 10);
        out.push(digit_of(n % 10));
        proof {
            assert(final(out)@ =~= old(out)@ + dec_digits(n as nat));
        }
    }
}

/// The digit character for `d`, which must be a single digit value.
pub fn digit_of(d: u64) -> (c: char)
    requires
        d < 10,
    ensures
        c == digit_char(d as int),
{
    if d == 0 {
        '0'
    } else if d == 1 {
        '1'
    } else if d == 2 {
        '2'
    } else if d == 3 {
        '3'
    } else if d == 4 {
        '4'
    } else if d == 5 {
        '5'
    } else if d == 6 {
        '6'
    } else if d == 7 {
        '7'
    } else if d == 8 {
        '8'
    } else {
        '9'
    }
}

/// The currency rendering of an amount of `pence`: pound sign, whole
/// pounds, and exactly two fraction digits.
pub open spec fn currency_seq(pence: nat) -> Seq<char> {
    seq!['£'] + dec_digits(pence / 100) + seq!['.'] + seq![
        digit_char(((pence / 10) % 10) as int),
        digit_char((pence % 10) as int),
    ]
}

/// Renders an amount held in minor units with the fixed currency symbol and
/// exactly two decimal places: 4498 pence come out as `£44.98`.
pub fn format_pence(pence: u64) -> (r: String)
    ensures
        r@ == currency_seq(pence as nat),
{
    let mut out = String::new();
    out.push('£');
    push_decimal(&mut out, pence / 100);
    out.push('.');
    out.push(digit_of((pence / 10) % 10));
    out.push(digit_of(pence % 10));
    proof {
        assert(out@ =~= currency_seq(pence as nat));
    }
    out
}

} // verus!
