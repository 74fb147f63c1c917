//! Lowercase hexadecimal text as a mathematical notion.
//!
//! Several outside formats that this crate handles are fixed-width lowercase
//! hexadecimal: trace identifiers, digests, token ids. Their contracts are
//! written over the functions below.

use vstd::prelude::*;

verus! {

/// The lowercase hexadecimal digit for `d`, which is meant to be below 16.
pub open spec fn hex_digit(d: nat) -> char {
    if d == 0 {
        '0'
    } else if d == 1 {
        '1'
    } else if d == 2 {
        '2'
    } else if d == 3 {
        '3'
    } else if d == 4 {
        '4'
    } else if d == 5 {
        '5'
    } else if d == 6 {
        '6'
    } else if d == 7 {
        '7'
    } else if d == 8 {
        '8'
    } else if d == 9 {
        '9'
    } else if d == 10 {
        'a'
    } else if d == 11 {
        'b'
    } else if d == 12 {
        'c'
    } else if d == 13 {
        'd'
    } else if d == 14 {
        'e'
    } else {
        'f'
    }
}

/// Whether `c` is one of `0`–`9`, `a`–`f`.
pub open spec fn is_lower_hex_digit(c: char) -> bool {
    ('0' <= c && c <= '9') || ('a' <= c && c <= 'f')
}

/// The number that the lowercase hexadecimal digit `c` stands for.
pub open spec fn digit_value(c: char) -> nat {
    if '0' <= c && c <= '9' {
        (c as nat - '0' as nat) as nat
    } else {
        (c as nat - 'a' as nat + 10) as nat
    }
}

/// Whether every character of `s` is a lowercase hexadecimal digit.
pub open spec fn is_lower_hex(s: Seq<char>) -> bool {
    forall|i: int| 0 <= i < s.len() ==> is_lower_hex_digit(#[trigger] s[i])
}

/// `n` written with exactly `width` lowercase hexadecimal digits, most
/// significant first and padded with zeros. Digits beyond `width` are cut off.
pub open spec fn lower_hex(n: nat, width: nat) -> Seq<char>
    decreases width,
{
    if width == 0 {
        Seq::empty()
    } else {
        lower_hex(n / 16, (width - 1) as nat).push(hex_digit(n % 16))
    }
}

/// The number that the lowercase hexadecimal text `s` stands for.
pub open spec fn hex_value(s: Seq<char>) -> nat
    decreases s.len(),
{
    if s.len() == 0 {
        0
    } else {
        16 * hex_value(s.drop_last()) + digit_value(s.last())
    }
}

/// 16 to the power `width`.
pub open spec fn pow16(width: nat) -> nat
    decreases width,
{
    if width == 0 {
        1
    } else {
        16 * pow16((width - 1) as nat)
    }
}

/// Every hexadecimal digit is a lowercase digit character and stands for its
/// own number.
pub proof fn lemma_hex_digit(d: nat)
    requires
        d < 16,
    ensures
        is_lower_hex_digit(hex_digit(d)),
        digit_value(hex_digit(d)) == d,
{
}

/// `lower_hex` yields `width` lowercase hexadecimal digits.
pub proof fn lemma_lower_hex_shape(n: nat, width: nat)
    ensures
        lower_hex(n, width).len() == width,
        is_lower_hex(lower_hex(n, width)),
    decreases width,
{
    if width > 0 {
        lemma_lower_hex_shape(n / 16, (width - 1) as nat);
        lemma_hex_digit(n % 16);
    }
}

/// Reading back what `lower_hex` wrote gives the number, as long as the
/// number fits into the width.
pub proof fn lemma_hex_round_trip(n: nat, width: nat)
    requires
        n < pow16(width),
    ensures
        hex_value(lower_hex(n, width)) == n,
    decreases width,
{
    if width > 0 {
        let rest = lower_hex(n / 16, (width - 1) as nat);
        lemma_hex_round_trip(n / 16, (width - 1) as nat);
        lemma_hex_digit(n % 16);
        assert(lower_hex(n, width).drop_last() =~= rest);
        assert(lower_hex(n, width).last() == hex_digit(n % 16));
    }
}

/// Sixteen digits hold every `u64`, thirty-two every `u128`.
pub proof fn lemma_pow16_bounds()
    ensures
        pow16(2) == 0x100,
        pow16(16) == 0x1_0000_0000_0000_0000,
        pow16(32) == 0x1_0000_0000_0000_0000_0000_0000_0000_0000,
{
    reveal_with_fuel(pow16, 9);
    assert(pow16(8) == 0x1_0000_0000);
    assert(pow16(16) == 0x1_0000_0000 * pow16(8));
    assert(pow16(24) == 0x1_0000_0000 * pow16(16));
    assert(pow16(32) == 0x1_0000_0000 * pow16(24));
}

} // verus!
