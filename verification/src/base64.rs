//! Base64 with the standard alphabet and `=` padding, as HTTP Basic
//! authentication uses it.

use vstd::prelude::*;

verus! {

/// Appends one character. `String::push` adds `c` at the end of the string and
/// leaves the rest as it was.
pub assume_specification[ String::push ](s: &mut String, c: char)
    ensures
        final(s)@ == old(s)@.push(c),
;

/// The character that stands for the six-bit value `v`: `A` to `Z`, `a` to
/// `z`, `0` to `9`, then `+` and `/`. Values from 64 on do not occur in an
/// encoding.
pub open spec fn digit(v: int) -> char {
    if v < 26 {
        (65 + v) as u8 as char
    } else if v < 52 {
        (97 + (v - 26)) as u8 as char
    } else if v < 62 {
        (48 + (v - 52)) as u8 as char
    } else if v == 62 {
        '+'
    } else {
        '/'
    }
}

/// The first two characters of a group, which hold the first byte and the
/// upper half of the second.
pub open spec fn head(b0: int, b1: int) -> Seq<char> {
    seq![digit(b0 / 4), digit(b0 % 4 * 16 + b1 / 16)]
}

/// The encoding of `bytes`: every three bytes give four characters, and a
/// last group of one or two bytes is filled up with `=`.
pub open spec fn encoding(bytes: Seq<u8>) -> Seq<char>
    decreases bytes.len(),
{
    if bytes.len() == 0 {
        Seq::empty()
    } else if bytes.len() == 1 {
        head(bytes[0] as int, 0) + seq!['=', '=']
    } else if bytes.len() == 2 {
        head(bytes[0] as int, bytes[1] as int) + seq![digit(bytes[1] as int % 16 * 4), '=']
    } else {
        head(bytes[0] as int, bytes[1] as int) + seq![
            digit(bytes[1] as int % 16 * 4 + bytes[2] as int / 64),
            digit(bytes[2] as int % 64),
        ] + encoding(bytes.skip(3))
    }
}

/// The character for a six-bit value.
pub fn digit_of(v: u8) -> (c: char)
    ensures
        c == digit(v as int),
{
    if v < 26 {
        (65 + v) as char
    } else if v < 52 {
        (97 + (v - 26)) as char
    } else if v < 62 {
        (48 + (v - 52)) as char
    } else if v == 62 {
        '+'
    } else {
        '/'
    }
}

/// Encodes `bytes`.
pub fn encode(bytes: &[u8]) -> (text: String)
    ensures
        text@ == encoding(bytes@),
{
    let mut text = String::new();
    let mut i: usize = 0;
    assert(text@ + encoding(bytes@.skip(0)) =~= encoding(bytes@)) by {
        assert(bytes@.skip(0) =~= bytes@);
    }
    while bytes.len() - i >= 3
        invariant
            i <= bytes.len(),
            text@ + encoding(bytes@.skip(i as int)) == encoding(bytes@),
        decreases bytes.len() - i,
    {
        let b0: u8 = bytes[i];
        let b1: u8 = bytes[i + 1];
        let b2: u8 = bytes[i + 2];
        let ghost before = text@;
        let ghost rest = bytes@.skip(i as int);
        text.push(digit_of(b0 / 4));
        text.push(digit_of(b0 % 4 * 16 + b1 / 16));
        text.push(digit_of(b1 % 16 * 4 + b2 / 64));
        text.push(digit_of(b2 % 64));
        proof {
            assert(rest.skip(3) =~= bytes@.skip(i + 3));
            assert(text@ + encoding(rest.skip(3)) =~= before + encoding(rest));
        }
        i += 3;
    }
    let ghost before = text@;
    let ghost rest = bytes@.skip(i as int);
    if bytes.len() - i == 1 {
        let b0: u8 = bytes[i];
        text.push(digit_of(b0 / 4));
        text.push(digit_of(b0 % 4 * 16));
        text.push('=');
        text.push('=');
    } else if bytes.len() - i == 2 {
        let b0: u8 = bytes[i];
        let b1: u8 = bytes[i + 1];
        text.push(digit_of(b0 / 4));
        text.push(digit_of(b0 % 4 * 16 + b1 / 16));
        text.push(digit_of(b1 % 16 * 4));
        text.push('=');
    }
    assert(text@ =~= before + encoding(rest));
    text
}

} // verus!
