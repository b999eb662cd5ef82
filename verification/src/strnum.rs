//! Rendering unsigned integers as decimal text.
//!
//! Every number this crate prints goes through these functions, so their
//! contracts pin the exact character sequence: `spec_dec` is the usual
//! most-significant-digit-first decimal form without leading zeros, and
//! `spec_dec_pad` is the fixed-width, zero-padded form used for the digits
//! behind a decimal point.

use vstd::prelude::*;

verus! {

/// The character for one decimal digit.
pub open spec fn spec_digit(d: int) -> char {
    if d == 0 {
        '0'
    } else if d == 1 {
        '1'
    } else if d == 2 {
        '2'
    } else if d == 3 {
        '3'
    } else if d == 4 {
        '4'
    } else if d == 5 {
        '5'
    } else if d == 6 {
        '6'
    } else if d == 7 {
        '7'
    } else if d == 8 {
        '8'
    } else {
        '9'
    }
}

/// Decimal representation of `n`, most significant digit first, with no
/// leading zeros (zero itself is the single character `0`).
pub open spec fn spec_dec(n: nat) -> Seq<char>
    decreases n,
{
    if n < 10 {
        seq![spec_digit(n as int)]
    } else {
        spec_dec(n / 10).push(spec_digit((n % 10) as int))
    }
}

/// Decimal representation of `n % 10^width`, zero-padded to exactly `width`
/// characters.
pub open spec fn spec_dec_pad(n: nat, width: nat) -> Seq<char>
    decreases width,
{
    if width == 0 {
        seq![]
    } else {
        spec_dec_pad(n / 10, (width - 1) as nat).push(spec_digit((n % 10) as int))
    }
}

/// Quotient of `num / den` rounded half-up to the nearest integer.
pub open spec fn spec_round_div(num: int, den: int) -> int {
    (num + den / 2) / den
}

/// Relies on `String::push` from std: appends the given character to the end
/// of the string.
#[verifier::external_body]
pub(crate) fn push_char(out: &mut String, c: char)
    ensures
        final(out)@ == old(out)@.push(c),
{
    out.push(c);
}

/// The character for one decimal digit, as executable code.
pub fn digit_char(d: u64) -> (c: char)
    requires
        d < 10,
    ensures
        c == spec_digit(d as int),
{
    match d {
        0 => '0',
        1 => '1',
        2 => '2',
        3 => '3',
        4 => '4',
        5 => '5',
        6 => '6',
        7 => '7',
        8 => '8',
        _ => '9',
    }
}

/// Appends the decimal representation of `n` to `out`.
pub fn push_dec(out: &mut String, n: u64)
    ensures
        final(out)@ == old(out)@ + spec_dec(n as nat),
    decreases n,
{
    if n >= 10 {
        push_dec(out, n / 10);
    }
    push_char(out, digit_char(n % 10));
    assert(out@ =~= old(out)@ + spec_dec(n as nat));
}

/// Appends the decimal representation of `n % 10^width`, zero-padded to
/// exactly `width` characters, to `out`.
pub fn push_dec_pad(out: &mut String, n: u64, width: u64)
    ensures
        final(out)@ == old(out)@ + spec_dec_pad(n as nat, width as nat),
    decreases width,
{
    if width > 0 {
        push_dec_pad(out, n / 10, width - 1);
        push_char(out, digit_char(n % 10));
    }
    assert(out@ =~= old(out)@ + spec_dec_pad(n as nat, width as nat));
}

/// The decimal representation of `n` as a fresh string.
pub fn dec_string(n: u64) -> (r: String)
    ensures
        r@ == spec_dec(n as nat),
{
    let mut out = String::new();
    push_dec(&mut out, n);
    assert(out@ =~= spec_dec(n as nat));
    out
}

/// Quotient of `num / den` rounded half-up, as executable code.
pub fn rounded_div(num: u64, den: u64) -> (r: u64)
    requires
        den > 0,
    ensures
        r as int == spec_round_div(num as int, den as int),
{
    let q: u128 = ((num as u128) + (den as u128) / 2) / (den as u128);
    proof {
        let n = num as int;
        let d = den as int;
        assert((n + d / 2) / d <= n) by (nonlinear_arith)
            requires
                d >= 1,
                n >= 0,
        ;
    }
    q as u64
}

} // verus!
