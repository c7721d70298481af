//! The decimal text of integers, from which the text of every aggregate is
//! put together.

use vstd::prelude::*;

verus! {

/// The character of the decimal digit `d`.
pub open spec fn digit(d: int) -> char {
    if d == 0 {
        '0'
    } else if d == 1 {
        '1'
    } else if d == 2 {
        '2'
    } else if d == 3 {
        '3'
    } else if d == 4 {
        '4'
    } else if d == 5 {
        '5'
    } else if d == 6 {
        '6'
    } else if d == 7 {
        '7'
    } else if d == 8 {
        '8'
    } else {
        '9'
    }
}

/// The decimal digits of `n`, the most significant first, with no zero in
/// front; the one digit `0` for zero.
pub open spec fn digits(n: nat) -> Seq<char>
    decreases n,
{
    if n < 10 {
        seq![digit(n as int)]
    } else {
        digits(n / 10).push(digit((n % 10) as int))
    }
}

/// The decimal text of `v`: a minus sign where `v` is negative, then the
/// digits of its magnitude.
pub open spec fn decimal(v: int) -> Seq<char> {
    if v < 0 {
        seq!['-'] + digits((-v) as nat)
    } else {
        digits(v as nat)
    }
}

/// The decimal text of `v` with its sign always written: a plus sign where
/// `v` is not negative.
pub open spec fn signed(v: int) -> Seq<char> {
    if v < 0 {
        decimal(v)
    } else {
        seq!['+'] + decimal(v)
    }
}

fn digit_of(d: u8) -> (c: char)
    requires
        d < 10,
    ensures
        c == digit(d as int),
{
    if d == 0 {
        '0'
    } else if d == 1 {
        '1'
    } else if d == 2 {
        '2'
    } else if d == 3 {
        '3'
    } else if d == 4 {
        '4'
    } else if d == 5 {
        '5'
    } else if d == 6 {
        '6'
    } else if d == 7 {
        '7'
    } else if d == 8 {
        '8'
    } else {
        '9'
    }
}

fn push_digits(out: &mut Vec<char>, n: u128)
    ensures
        final(out)@ == old(out)@ + digits(n as nat),
    decreases n,
{
    if n >= 10 {
        push_digits(out, n / 10);
    }
    let d: u8 = (n % 10) as u8;
    out.push(digit_of(d));
    assert(out@ =~= old(out)@ + digits(n as nat));
}

/// Appends the decimal text of `v` to `out`.
pub fn push_decimal(out: &mut Vec<char>, v: i128)
    ensures
        final(out)@ == old(out)@ + decimal(v as int),
{
    if v < 0 {
        out.push('-');
        let m: u128 = (-(v + 1)) as u128 + 1;
        push_digits(out, m);
        assert(out@ =~= old(out)@ + decimal(v as int));
    } else {
        push_digits(out, v as u128);
    }
}

/// Appends the decimal text of `v` with its sign always written.
pub fn push_signed(out: &mut Vec<char>, v: i128)
    ensures
        final(out)@ == old(out)@ + signed(v as int),
{
    if v >= 0 {
        out.push('+');
    }
    push_decimal(out, v);
    assert(out@ =~= old(out)@ + signed(v as int));
}

/// The string that holds the characters of `chars`. The body is
/// `String::from_iter` of the standard library. The contract says what its
/// documentation gives: the string is made of the characters that the
/// iterator hands out, in their order. Nothing of this was proved.
#[verifier::external_body]
pub(crate) fn string_of(chars: &Vec<char>) -> (s: String)
    ensures
        s@ == chars@,
{
    String::from_iter(chars)
}

} // verus!
