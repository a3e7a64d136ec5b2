//! Numerals: how numbers are written on screen and read back from the jump prompt.
//!
//! Offsets and byte values are shown in lowercase hexadecimal, the file size
//! in decimal. The jump prompt accepts lowercase hexadecimal only.

use vstd::prelude::*;

verus! {

/// The character that stands for the digit `d`: `0` to `9`, then `a` to `f`.
pub open spec fn digit_char(d: int) -> char {
    if d < 10 {
        (d + 48) as char
    } else {
        (d + 87) as char
    }
}

/// Whether `c` is one of `0123456789abcdef`.
pub open spec fn is_hex_digit(c: char) -> bool {
    ('0' <= c && c <= '9') || ('a' <= c && c <= 'f')
}

/// The number that the hexadecimal digit `c` stands for.
pub open spec fn digit_value(c: char) -> int {
    if c <= '9' {
        c as int - 48
    } else {
        c as int - 87
    }
}

/// The numeral of `n` in the given radix, most significant digit first,
/// padded with leading zeroes to at least `width` digits. With a width of
/// 0 or 1 this is the shortest numeral; 0 is written as one digit.
pub open spec fn digits(n: nat, radix: nat, width: nat) -> Seq<char>
    decreases n + width,
{
    if radix < 2 || (n < radix && width <= 1) {
        seq![digit_char(n as int)]
    } else {
        proof {
            assert(n / radix <= n) by (nonlinear_arith)
                requires
                    radix >= 2,
            ;
            assert(n >= radix ==> n / radix < n) by (nonlinear_arith)
                requires
                    radix >= 2,
            ;
        }
        digits(
            n / radix,
            radix,
            if width > 0 {
                (width - 1) as nat
            } else {
                0
            },
        ).push(digit_char((n % radix) as int))
    }
}

/// Lowercase hexadecimal numeral of `n`, zero-padded to at least `width` digits.
pub open spec fn hex_padded(n: nat, width: nat) -> Seq<char> {
    digits(n, 16, width)
}

/// Decimal numeral of `n`.
pub open spec fn decimal(n: nat) -> Seq<char> {
    digits(n, 10, 1)
}

/// The number that a sequence of hexadecimal digits denotes, most significant
/// digit first. The empty sequence denotes 0.
pub open spec fn hex_value(text: Seq<char>) -> nat
    decreases text.len(),
{
    if text.len() == 0 {
        0
    } else {
        (16 * hex_value(text.drop_last()) + digit_value(text.last())) as nat
    }
}

/// Whether every character of `text` is a lowercase hexadecimal digit.
pub open spec fn all_hex_digits(text: Seq<char>) -> bool {
    forall|i: int| 0 <= i < text.len() ==> is_hex_digit(#[trigger] text[i])
}

/// Whether `text` is a hexadecimal numeral: at least one digit, and digits only.
pub open spec fn is_hex_numeral(text: Seq<char>) -> bool {
    text.len() > 0 && all_hex_digits(text)
}

/// A hexadecimal numeral is at least as long as the width asked for, and
/// never empty.
pub proof fn lemma_hex_padded_len(n: nat, width: nat)
    ensures
        hex_padded(n, width).len() >= 1,
        hex_padded(n, width).len() >= width,
    decreases n + width,
{
    if !(n < 16 && width <= 1) {
        lemma_hex_padded_len(
            n / 16,
            if width > 0 {
                (width - 1) as nat
            } else {
                0
            },
        );
    }
}

/// A number below `16^6` is written with exactly six digits at width six.
pub proof fn lemma_hex_padded_six(n: nat)
    requires
        n < 0x100_0000,
    ensures
        hex_padded(n, 6).len() == 6,
{
    reveal_with_fuel(digits, 7);
}

/// A byte at width two is written with exactly two digits: the high four
/// bits, then the low four bits.
pub proof fn lemma_hex_pair(byte: u8)
    ensures
        hex_padded(byte as nat, 2) == seq![
            digit_char(byte as int / 16),
            digit_char(byte as int % 16),
        ],
{
    reveal_with_fuel(digits, 3);
}

/// Every character of a hexadecimal numeral is a lowercase hexadecimal digit.
pub proof fn lemma_hex_padded_digits(n: nat, width: nat)
    ensures
        is_hex_numeral(hex_padded(n, width)),
    decreases n + width,
{
    if !(n < 16 && width <= 1) {
        let shorter = if width > 0 {
            (width - 1) as nat
        } else {
            0
        };
        lemma_hex_padded_digits(n / 16, shorter);
    }
}

/// Reading back the hexadecimal numeral of `n` gives `n`, whatever the padding.
pub proof fn lemma_hex_round_trip(n: nat, width: nat)
    ensures
        hex_value(hex_padded(n, width)) == n,
    decreases n + width,
{
    if n < 16 && width <= 1 {
        assert(hex_value(hex_padded(n, width).drop_last()) == 0);
    } else {
        let shorter = if width > 0 {
            (width - 1) as nat
        } else {
            0
        };
        let head = hex_padded(n / 16, shorter);
        let last = digit_char((n % 16) as int);
        lemma_hex_round_trip(n / 16, shorter);
        assert(head.push(last).drop_last() =~= head);
    }
}

/// A digit appended to a numeral multiplies its value by 16 and adds the digit.
pub proof fn lemma_hex_value_push(text: Seq<char>, c: char)
    requires
        is_hex_digit(c),
    ensures
        hex_value(text.push(c)) == 16 * hex_value(text) + digit_value(c),
        hex_value(text.push(c)) >= hex_value(text),
{
    assert(text.push(c).drop_last() =~= text);
}

/// Whether `c` is one of `0123456789abcdef`.
pub fn is_hex_char(c: char) -> (hex: bool)
    ensures
        hex == is_hex_digit(c),
{
    (c >= '0' && c <= '9') || (c >= 'a' && c <= 'f')
}

/// The number that the hexadecimal digit `c` stands for, or `None` where `c`
/// is no lowercase hexadecimal digit.
pub fn hex_char_value(c: char) -> (value: Option<u8>)
    ensures
        value is Some <==> is_hex_digit(c),
        value matches Some(v) ==> v == digit_value(c) && v < 16,
{
    if c >= '0' && c <= '9' {
        Some((c as u32 - 48) as u8)
    } else if c >= 'a' && c <= 'f' {
        Some((c as u32 - 87) as u8)
    } else {
        None
    }
}

/// The character for the low four bits of `d`.
pub fn hex_char(d: u8) -> (c: char)
    ensures
        c == digit_char((d % 16) as int),
        is_hex_digit(c),
        digit_value(c) == d % 16,
{
    let low: u8 = d % 16;
    if low < 10 {
        (low + 48) as char
    } else {
        (low + 87) as char
    }
}

/// Appends to `out` the numeral of `value` in the given radix, padded with
/// leading zeroes to at least `width` digits.
fn push_digits(out: &mut String, value: u128, radix: u8, width: usize)
    requires
        2 <= radix <= 16,
    ensures
        final(out)@ == old(out)@ + digits(value as nat, radix as nat, width as nat),
{
    let ghost target = digits(value as nat, radix as nat, width as nat);
    // Digits come out least significant first; they are appended in reverse afterwards.
    let mut low: Vec<char> = Vec::new();
    let mut rest: u128 = value;
    let mut pad: usize = width;
    loop
        invariant_except_break
            target == digits(rest as nat, radix as nat, pad as nat) + low@.reverse(),
        invariant
            2 <= radix <= 16,
        ensures
            target == low@.reverse(),
        decreases rest + pad,
    {
        let digit: u8 = (rest % (radix as u128)) as u8;
        let done = rest < radix as u128 && pad <= 1;
        let c = hex_char(digit);
        low.push(c);
        if done {
            assert(rest as nat % radix as nat == rest) by (nonlinear_arith)
                requires
                    rest < radix,
            ;
            break ;
        }
        assert(rest / (radix as u128) < rest || pad > 0) by (nonlinear_arith)
            requires
                rest >= radix || pad > 1,
                radix >= 2,
        ;
        assert(rest / (radix as u128) <= rest) by (nonlinear_arith)
            requires
                radix >= 2,
        ;
        rest = rest / (radix as u128);
        pad = if pad > 0 {
            pad - 1
        } else {
            0
        };
    }
    let ghost start = out@;
    let mut left: usize = low.len();
    while left > 0
        invariant
            left <= low.len(),
            out@ == start + low@.reverse().subrange(0, low.len() - left),
        decreases left,
    {
        left = left - 1;
        out.push(low[left]);
    }
}

/// Appends to `out` the lowercase hexadecimal numeral of `value`, zero-padded
/// to at least `width` digits.
pub fn push_hex(out: &mut String, value: u128, width: usize)
    ensures
        final(out)@ == old(out)@ + hex_padded(value as nat, width as nat),
{
    push_digits(out, value, 16, width);
}

/// Appends to `out` the decimal numeral of `value`.
pub fn push_decimal(out: &mut String, value: u64)
    ensures
        final(out)@ == old(out)@ + decimal(value as nat),
{
    push_digits(out, value as u128, 10, 1);
}

} // verus!
