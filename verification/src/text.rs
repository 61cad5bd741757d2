//! Rendering of numbers and byte sequences as text, for messages and for the
//! printed form of trouble codes.

use vstd::prelude::*;

verus! {

/// Whether `whole` begins with `prefix`.
pub open spec fn starts_with<T>(whole: Seq<T>, prefix: Seq<T>) -> bool {
    prefix.len() <= whole.len() && whole.subrange(0, prefix.len() as int) == prefix
}

/// The character that stands for a single digit below sixteen: `0`-`9`, then
/// `A`-`F`.
pub open spec fn digit_char(d: nat) -> char
    recommends
        d < 16,
{
    if d < 10 {
        (48 + d) as u8 as char
    } else {
        (55 + d) as u8 as char
    }
}

/// The decimal numeral of `n`, without leading zeros.
pub open spec fn decimal(n: nat) -> Seq<char>
    decreases n,
{
    if n < 10 {
        seq![digit_char(n)]
    } else {
        decimal(n / 10).push(digit_char(n % 10))
    }
}

/// The upper-case hexadecimal numeral of `n`, padded with zeros to at least
/// three digits.
pub open spec fn hex3(n: nat) -> Seq<char>
    recommends
        n < 0x10000,
{
    let low = seq![
        digit_char((n / 0x100) % 0x10),
        digit_char((n / 0x10) % 0x10),
        digit_char(n % 0x10),
    ];
    if n < 0x1000 {
        low
    } else {
        seq![digit_char(n / 0x1000)] + low
    }
}

/// The number that the decimal digits `digits` spell.
pub open spec fn decimal_value(digits: Seq<char>) -> nat
    decreases digits.len(),
{
    if digits.len() == 0 {
        0
    } else {
        decimal_value(digits.drop_last()) * 10 + (digits.last() as u32 - 48) as nat
    }
}

/// The decimal numeral of `n` is made of the digits `0`-`9`, begins with `0`
/// only where `n` is 0, and spells `n`.
pub proof fn lemma_decimal(n: nat)
    ensures
        decimal(n).len() >= 1,
        forall|i: int| 0 <= i < decimal(n).len() ==> '0' <= #[trigger] decimal(n)[i] <= '9',
        decimal(n)[0] == '0' <==> n == 0,
        decimal_value(decimal(n)) == n,
    decreases n,
{
    let text = decimal(n);
    if n < 10 {
        assert(decimal_value(text.drop_last()) == 0);
    } else {
        lemma_decimal(n / 10);
        assert(text.drop_last() == decimal(n / 10));
        assert(decimal_value(text) == decimal_value(decimal(n / 10)) * 10 + (digit_char(n % 10) as u32
            - 48) as nat);
    }
}

/// Whether `c` is a hexadecimal digit in upper case: `0`-`9` or `A`-`F`.
pub open spec fn is_upper_hex(c: char) -> bool {
    ('0' <= c && c <= '9') || ('A' <= c && c <= 'F')
}

/// The value of the hexadecimal digit `c`.
pub open spec fn hex_value(c: char) -> nat
    recommends
        is_upper_hex(c),
{
    if c <= '9' {
        (c as u32 - 48) as nat
    } else {
        (c as u32 - 55) as nat
    }
}

/// The number that the hexadecimal digits `digits` spell.
pub open spec fn numeral_value(digits: Seq<char>) -> nat
    decreases digits.len(),
{
    if digits.len() == 0 {
        0
    } else {
        numeral_value(digits.drop_last()) * 16 + hex_value(digits.last())
    }
}

/// Every digit below sixteen has an upper-case hexadecimal character, which
/// has the digit as its value.
pub proof fn lemma_digit_char(d: nat)
    requires
        d < 16,
    ensures
        is_upper_hex(digit_char(d)),
        hex_value(digit_char(d)) == d,
{
}

/// The number that three hexadecimal digits spell.
proof fn lemma_numeral_of_three(a: char, b: char, c: char)
    ensures
        numeral_value(seq![a, b, c]) == hex_value(a) * 0x100 + hex_value(b) * 0x10 + hex_value(c),
{
    let s3 = seq![a, b, c];
    let s2 = seq![a, b];
    let s1 = seq![a];
    assert(s3.drop_last() == s2);
    assert(s2.drop_last() == s1);
    assert(numeral_value(s1.drop_last()) == 0);
    assert(numeral_value(s1) == hex_value(a));
    assert(numeral_value(s2) == hex_value(a) * 0x10 + hex_value(b));
}

/// The number that four hexadecimal digits spell.
proof fn lemma_numeral_of_four(a: char, b: char, c: char, d: char)
    ensures
        numeral_value(seq![a, b, c, d]) == hex_value(a) * 0x1000 + hex_value(b) * 0x100 + hex_value(
            c,
        ) * 0x10 + hex_value(d),
{
    let s4 = seq![a, b, c, d];
    assert(s4.drop_last() == seq![a, b, c]);
    lemma_numeral_of_three(a, b, c);
}

/// A 16-bit number is the sum of its four hexadecimal digits, each times its
/// place.
proof fn lemma_hex_places(n: u16)
    ensures
        n / 0x1000 < 16,
        n == (n / 0x1000) * 0x1000 + ((n / 0x100) % 0x10) * 0x100 + ((n / 0x10) % 0x10) * 0x10 + n
            % 0x10,
{
    assert(n / 0x1000 < 16) by (bit_vector);
    assert(n == (n / 0x1000) * 0x1000 + ((n / 0x100) % 0x10) * 0x100 + ((n / 0x10) % 0x10) * 0x10
        + n % 0x10) by (bit_vector);
}

/// The hexadecimal numeral of a 16-bit number has three digits below
/// `0x1000` and four from there on, all of them upper-case hexadecimal, and
/// spells the number.
pub proof fn lemma_hex3(n: u16)
    ensures
        hex3(n as nat).len() == (if n < 0x1000 { 3nat } else { 4nat }),
        forall|i: int| 0 <= i < hex3(n as nat).len() ==> is_upper_hex(#[trigger] hex3(n as nat)[i]),
        numeral_value(hex3(n as nat)) == n,
{
    let m = n as nat;
    let c3 = digit_char(m / 0x1000);
    let c2 = digit_char((m / 0x100) % 0x10);
    let c1 = digit_char((m / 0x10) % 0x10);
    let c0 = digit_char(m % 0x10);
    lemma_hex_places(n);
    lemma_digit_char(m / 0x1000);
    lemma_digit_char((m / 0x100) % 0x10);
    lemma_digit_char((m / 0x10) % 0x10);
    lemma_digit_char(m % 0x10);
    let text = hex3(m);
    if n < 0x1000 {
        lemma_numeral_of_three(c2, c1, c0);
    } else {
        assert(text =~= seq![c3, c2, c1, c0]);
        lemma_numeral_of_four(c3, c2, c1, c0);
    }
}

/// The numerals of `bytes`, in order, with `, ` between neighbours.
pub open spec fn byte_items(bytes: Seq<u8>) -> Seq<char>
    decreases bytes.len(),
{
    if bytes.len() == 0 {
        Seq::empty()
    } else if bytes.len() == 1 {
        decimal(bytes[0] as nat)
    } else {
        byte_items(bytes.drop_last()) + seq![',', ' '] + decimal(bytes.last() as nat)
    }
}

/// A byte sequence written as a bracketed list: `[1, 2, 3]`.
pub open spec fn byte_list(bytes: Seq<u8>) -> Seq<char> {
    seq!['['] + byte_items(bytes) + seq![']']
}

/// `String::push` appends one character to the end of the string and leaves
/// what was there before untouched.
#[verifier::external_body]
fn push_char(s: &mut String, c: char)
    ensures
        final(s)@ == old(s)@.push(c),
{
    s.push(c)
}

/// The digit `d` as a character.
fn digit(d: u8) -> (c: char)
    requires
        d < 16,
    ensures
        c == digit_char(d as nat),
{
    if d < 10 {
        (48 + d) as char
    } else {
        (55 + d) as char
    }
}

/// Appends the decimal numeral of `n` to `out`.
pub fn push_decimal(out: &mut String, n: usize)
    ensures
        final(out)@ == old(out)@ + decimal(n as nat),
    decreases n,
{
    if n >= 10 {
        push_decimal(out, n / 10);
    }
    push_char(out, digit((n % 10) as u8));
}

/// Appends the three- or four-digit hexadecimal numeral of `n` to `out`.
pub fn push_hex3(out: &mut String, n: u16)
    ensures
        final(out)@ == old(out)@ + hex3(n as nat),
{
    if n >= 0x1000 {
        push_char(out, digit((n / 0x1000) as u8));
    }
    push_char(out, digit(((n / 0x100) % 0x10) as u8));
    push_char(out, digit(((n / 0x10) % 0x10) as u8));
    push_char(out, digit((n % 0x10) as u8));
}

/// Appends `bytes` to `out` as a bracketed list of decimal numerals.
pub fn push_byte_list(out: &mut String, bytes: &Vec<u8>)
    ensures
        final(out)@ == old(out)@ + byte_list(bytes@),
{
    push_char(out, '[');
    let mut i: usize = 0;
    while i < bytes.len()
        invariant
            i <= bytes.len(),
            out@ == old(out)@ + seq!['['] + byte_items(bytes@.take(i as int)),
        decreases bytes.len() - i,
    {
        if i > 0 {
            push_char(out, ',');
            push_char(out, ' ');
        }
        push_decimal(out, bytes[i] as usize);
        proof {
            let next = bytes@.take(i + 1);
            assert(next.drop_last() == bytes@.take(i as int));
            assert(next.last() == bytes@[i as int]);
        }
        i = i + 1;
    }
    proof {
        assert(bytes@.take(i as int) == bytes@);
    }
    push_char(out, ']');
}

} // verus!
