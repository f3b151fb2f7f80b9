//! Integers in decimal notation.

use vstd::prelude::*;

verus! {

/// The character for a digit below ten.
pub open spec fn digit(d: nat) -> char {
    if d == 0 {
        '0'
    } else if d == 1 {
        '1'
    } else if d == 2 {
        '2'
    } else if d == 3 {
        '3'
    } else if d == 4 {
        '4'
    } else if d == 5 {
        '5'
    } else if d == 6 {
        '6'
    } else if d == 7 {
        '7'
    } else if d == 8 {
        '8'
    } else {
        '9'
    }
}

/// A natural number in decimal notation, without leading zeros.
pub open spec fn decimal(n: nat) -> Seq<char>
    decreases n,
{
    if n < 10 {
        seq![digit(n)]
    } else {
        decimal(n / 10).push(digit(n % 10))
    }
}

/// An integer in decimal notation: a minus sign before a negative number,
/// no sign before another.
pub open spec fn signed_decimal(n: int) -> Seq<char> {
    if n < 0 {
        seq!['-'] + decimal((-n) as nat)
    } else {
        decimal(n as nat)
    }
}

/// The character for the digit `d`.
fn digit_char(d: u8) -> (c: char)
    requires
        d < 10,
    ensures
        c == digit(d as nat),
{
    if d == 0 {
        '0'
    } else if d == 1 {
        '1'
    } else if d == 2 {
        '2'
    } else if d == 3 {
        '3'
    } else if d == 4 {
        '4'
    } else if d == 5 {
        '5'
    } else if d == 6 {
        '6'
    } else if d == 7 {
        '7'
    } else if d == 8 {
        '8'
    } else {
        '9'
    }
}

/// Appends `n` in decimal notation to `sample`.
pub fn push_decimal(sample: &mut String, n: u128)
    ensures
        final(sample)@ == old(sample)@ + decimal(n as nat),
    decreases n,
{
    if n >= 10 {
        push_decimal(sample, n / 10);
    }
    sample.push(digit_char((n % 10) as u8));
    assert(sample@ =~= old(sample)@ + decimal(n as nat));
}

/// `n` in decimal notation.
pub fn unsigned(n: u128) -> (sample: String)
    ensures
        sample@ == decimal(n as nat),
{
    let mut sample = String::new();
    push_decimal(&mut sample, n);
    assert(sample@ =~= decimal(n as nat));
    sample
}

/// `n` in decimal notation, with a minus sign where it is negative.
pub fn signed(n: i128) -> (sample: String)
    ensures
        sample@ == signed_decimal(n as int),
{
    if n < 0 {
        let mut sample = String::new();
        sample.push('-');
        let magnitude: u128 = (-(n + 1)) as u128 + 1;
        push_decimal(&mut sample, magnitude);
        assert(sample@ =~= signed_decimal(n as int));
        sample
    } else {
        unsigned(n as u128)
    }
}

} // verus!
