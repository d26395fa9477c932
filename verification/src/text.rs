//! Text building: decimal and hexadecimal renderings of integers.
use vstd::prelude::*;

verus! {

/// The ASCII digit for `d` (0..=9).
pub open spec fn digit(d: nat) -> char
    recommends
        d < 10,
{
    ((48 + d) as u8) as char
}

/// The decimal rendering of `n`, without leading zeros.
pub open spec fn decimal(n: nat) -> Seq<char>
    decreases n,
{
    if n < 10 {
        seq![digit(n)]
    } else {
        decimal(n / 10).push(digit(n % 10))
    }
}

/// The upper-case hexadecimal digit for `d` (0..=15).
pub open spec fn hex_digit(d: nat) -> char
    recommends
        d < 16,
{
    if d < 10 {
        ((48 + d) as u8) as char
    } else {
        ((55 + d) as u8) as char
    }
}

/// The lower-case hexadecimal digit for `d` (0..=15).
pub open spec fn lower_hex_digit(d: nat) -> char
    recommends
        d < 16,
{
    if d < 10 {
        ((48 + d) as u8) as char
    } else {
        ((87 + d) as u8) as char
    }
}

/// The two upper-case hexadecimal digits of a byte.
pub open spec fn hex_byte(b: u8) -> Seq<char> {
    seq![hex_digit((b / 16) as nat), hex_digit((b % 16) as nat)]
}

/// The `width` least significant decimal digits of `n`, zero-padded.
pub open spec fn decimal_padded(n: nat, width: nat) -> Seq<char>
    decreases width,
{
    if width == 0 {
        Seq::empty()
    } else {
        decimal_padded(n / 10, (width - 1) as nat).push(digit(n % 10))
    }
}

/// Whether `c` is an ASCII decimal digit.
pub open spec fn is_ascii_digit(c: char) -> bool {
    '0' <= c <= '9'
}

/// Whether `c` is an ASCII hexadecimal digit in upper case.
pub open spec fn is_upper_hex_digit(c: char) -> bool {
    ('0' <= c <= '9') || ('A' <= c <= 'F')
}

/// Appends one character to a string (std `String::push`).
#[verifier::external_body]
pub(crate) fn string_push(s: &mut String, c: char)
    ensures
        final(s)@ == old(s)@.push(c),
{
    s.push(c);
}

pub fn digit_char(d: u64) -> (c: char)
    requires
        d < 10,
    ensures
        c == digit(d as nat),
        is_ascii_digit(c),
{
    let b: u8 = 48u8 + d as u8;
    b as char
}

pub fn hex_digit_char(d: u8) -> (c: char)
    requires
        d < 16,
    ensures
        c == hex_digit(d as nat),
        is_upper_hex_digit(c),
{
    if d < 10 {
        (48u8 + d) as char
    } else {
        (55u8 + d) as char
    }
}

/// Appends the decimal rendering of `x`.
pub fn push_decimal(s: &mut String, x: u64)
    ensures
        final(s)@ == old(s)@ + decimal(x as nat),
    decreases x,
{
    if x >= 10 {
        push_decimal(s, x / 10);
    }
    string_push(s, digit_char(x % 10));
    assert(s@ =~= old(s)@ + decimal(x as nat));
}

/// Appends the `width` least significant decimal digits of `x`, zero-padded.
pub fn push_decimal_padded(s: &mut String, x: u64, width: u32)
    ensures
        final(s)@ == old(s)@ + decimal_padded(x as nat, width as nat),
    decreases width,
{
    if width > 0 {
        push_decimal_padded(s, x / 10, width - 1);
        string_push(s, digit_char(x % 10));
    }
    assert(s@ =~= old(s)@ + decimal_padded(x as nat, width as nat));
}

/// Appends the two upper-case hexadecimal digits of `b`.
pub fn push_hex_byte(s: &mut String, b: u8)
    ensures
        final(s)@ == old(s)@ + hex_byte(b),
{
    string_push(s, hex_digit_char(b / 16));
    string_push(s, hex_digit_char(b % 16));
    assert(s@ =~= old(s)@ + hex_byte(b));
}

/// Every character of `decimal_padded` is a digit and there are `width` of them.
pub proof fn lemma_decimal_padded_digits(n: nat, width: nat)
    ensures
        decimal_padded(n, width).len() == width,
        forall|i: int|
            0 <= i < width ==> is_ascii_digit(#[trigger] decimal_padded(n, width)[i]),
    decreases width,
{
    if width > 0 {
        lemma_decimal_padded_digits(n / 10, (width - 1) as nat);
    }
}

} // verus!
