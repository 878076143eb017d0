//! Text building blocks: decimal and hexadecimal numerals, lists of bytes, and
//! comparison of strings.

use vstd::prelude::*;

verus! {

/// The numeral of a digit below sixteen, in lower case.
pub open spec fn digit(d: nat) -> char {
    if d < 10 {
        (48 + d) as char
    } else {
        (87 + d) as char
    }
}

/// `n` in decimal, without leading zeros.
pub open spec fn decimal(n: nat) -> Seq<char>
    decreases n,
{
    if n < 10 {
        seq![digit(n)]
    } else {
        decimal(n / 10).push(digit(n % 10))
    }
}

/// The last two decimal digits of `n`.
pub open spec fn two_digits(n: nat) -> Seq<char> {
    seq![digit(n / 10 % 10), digit(n % 10)]
}

/// `n` in decimal, padded on the left with zeros to at least `width` digits.
pub open spec fn zero_padded(n: nat, width: nat) -> Seq<char> {
    let plain = decimal(n);
    if plain.len() >= width {
        plain
    } else {
        Seq::new((width - plain.len()) as nat, |i: int| '0') + plain
    }
}

/// The last `width` hexadecimal digits of `n`.
pub open spec fn hex(n: nat, width: nat) -> Seq<char>
    decreases width,
{
    if width == 0 {
        Seq::empty()
    } else {
        hex(n / 16, (width - 1) as nat).push(digit(n % 16))
    }
}

/// The decimal values of `bytes`, separated by a comma and a space.
pub open spec fn joined_bytes(bytes: Seq<u8>) -> Seq<char>
    decreases bytes.len(),
{
    if bytes.len() == 0 {
        Seq::empty()
    } else if bytes.len() == 1 {
        decimal(bytes[0] as nat)
    } else {
        joined_bytes(bytes.drop_last()) + ", "@ + decimal(bytes.last() as nat)
    }
}

/// ASCII letters and digits.
pub open spec fn is_ascii_alphanumeric(c: char) -> bool {
    ||| '0' <= c <= '9'
    ||| 'A' <= c <= 'Z'
    ||| 'a' <= c <= 'z'
}

/// `c` in upper case where it is an ASCII letter.
pub open spec fn ascii_uppercase(c: char) -> char {
    if 'a' <= c <= 'z' {
        (c as u32 - 32) as char
    } else {
        c
    }
}

/// The number that decimal digits spell.
pub open spec fn decimal_value(digits: Seq<char>) -> nat
    decreases digits.len(),
{
    if digits.len() == 0 {
        0
    } else {
        decimal_value(digits.drop_last()) * 10 + (digits.last() as u32 - 48) as nat
    }
}

/// Whether every character is a decimal digit.
pub open spec fn all_digits(s: Seq<char>) -> bool {
    forall|i: int| 0 <= i < s.len() ==> '0' <= #[trigger] s[i] <= '9'
}

/// The text behind a leading plus sign, if it has one.
pub open spec fn without_plus(text: Seq<char>) -> Seq<char> {
    if text.len() > 0 && text[0] == '+' {
        text.skip(1)
    } else {
        text
    }
}

/// The number that a text spells in decimal, with at most a plus sign before
/// its digits, if it fits in 16 bits.
pub open spec fn number_u16(text: Seq<char>) -> Option<u16> {
    let digits = without_plus(text);
    if digits.len() > 0 && all_digits(digits) && decimal_value(digits) <= 0xffff {
        Some(decimal_value(digits) as u16)
    } else {
        None
    }
}

/// Whether two strings hold the same characters.
pub fn same_text(a: &str, b: &str) -> (same: bool)
    ensures
        same == (a@ == b@),
{
    a.to_owned() == b.to_owned()
}

/// `c` in upper case where it is an ASCII letter.
pub fn uppercase_char(c: char) -> (upper: char)
    ensures
        upper == ascii_uppercase(c),
{
    if 'a' <= c && c <= 'z' {
        let code: u8 = c as u8 - 32;
        code as char
    } else {
        c
    }
}

/// Whether the characters spell `word`.
pub fn spells(chars: &Vec<char>, word: &str) -> (same: bool)
    ensures
        same == (chars@ == word@),
{
    let n: usize = chars.len();
    if n != word.unicode_len() {
        return false;
    }
    let mut i: usize = 0;
    while i < n
        invariant
            0 <= i <= n,
            n == chars@.len(),
            n == word@.len(),
            forall|j: int| 0 <= j < i ==> chars@[j] == word@[j],
        decreases n - i,
    {
        if chars[i] != word.get_char(i) {
            return false;
        }
        i += 1;
    }
    assert(chars@ =~= word@);
    true
}

/// Whether `text` is `word`, whatever the case of its ASCII letters; `word`
/// itself is in upper case.
pub fn same_ignoring_case(text: &str, word: &str) -> (same: bool)
    ensures
        same == (text@.map_values(|c: char| ascii_uppercase(c)) == word@),
{
    let ghost upper = text@.map_values(|c: char| ascii_uppercase(c));
    let n: usize = text.unicode_len();
    if n != word.unicode_len() {
        assert(upper.len() != word@.len());
        return false;
    }
    let mut i: usize = 0;
    while i < n
        invariant
            0 <= i <= n,
            n == text@.len(),
            n == word@.len(),
            upper == text@.map_values(|c: char| ascii_uppercase(c)),
            forall|j: int| 0 <= j < i ==> upper[j] == word@[j],
        decreases n - i,
    {
        if uppercase_char(text.get_char(i)) != word.get_char(i) {
            assert(upper[i as int] != word@[i as int]);
            return false;
        }
        i += 1;
    }
    assert(upper =~= word@);
    true
}

/// Reads a decimal number of 16 bits; a plus sign may stand before it.
pub fn parse_u16(text: &str) -> (number: Option<u16>)
    ensures
        number == number_u16(text@),
{
    let n: usize = text.unicode_len();
    let start: usize = if n > 0 && text.get_char(0) == '+' {
        1
    } else {
        0
    };
    let ghost digits = without_plus(text@);
    assert(digits =~= text@.skip(start as int));
    if start == n {
        return None;
    }
    let mut value: u32 = 0;
    let mut i: usize = start;
    while i < n
        invariant
            start <= i <= n,
            n == text@.len(),
            digits == without_plus(text@),
            digits == text@.skip(start as int),
            forall|j: int| 0 <= j < i - start ==> '0' <= #[trigger] digits[j] <= '9',
            value == (if decimal_value(digits.take(i - start)) <= 0xffff {
                decimal_value(digits.take(i - start))
            } else {
                0x10000
            }),
        decreases n - i,
    {
        let c: char = text.get_char(i);
        assert(digits[i - start] == c);
        if c < '0' || '9' < c {
            return None;
        }
        assert(digits.take(i + 1 - start).drop_last() =~= digits.take(i - start));
        value = value * 10 + (c as u32 - 48);
        if value > 0xffff {
            value = 0x10000;
        }
        i += 1;
    }
    assert(digits.take(n - start) =~= digits);
    if value <= 0xffff {
        Some(value as u16)
    } else {
        None
    }
}

/// Appends the numeral of `d`.
fn push_digit(out: &mut String, d: u8)
    requires
        d < 16,
    ensures
        final(out)@ == old(out)@.push(digit(d as nat)),
{
    let numerals = "0123456789abcdef";
    proof {
        reveal_strlit("0123456789abcdef");
    }
    let from: usize = d as usize;
    let numeral = numerals.substring_ascii(from, from + 1);
    out.append(numeral);
    assert(numeral@ =~= seq![digit(d as nat)]);
}

/// Appends `n` in decimal.
pub fn push_decimal(out: &mut String, n: u64)
    ensures
        final(out)@ == old(out)@ + decimal(n as nat),
    decreases n,
{
    if n >= 10 {
        push_decimal(out, n / 10);
    }
    push_digit(out, (n % 10) as u8);
}

/// Appends the last two decimal digits of `n`.
pub fn push_two_digits(out: &mut String, n: u64)
    ensures
        final(out)@ == old(out)@ + two_digits(n as nat),
{
    push_digit(out, (n / 10 % 10) as u8);
    push_digit(out, (n % 10) as u8);
}

/// Appends the last `width` hexadecimal digits of `n`.
fn push_hex(out: &mut String, n: u32, width: u8)
    ensures
        final(out)@ == old(out)@ + hex(n as nat, width as nat),
    decreases width,
{
    if width > 0 {
        push_hex(out, n / 16, width - 1);
        push_digit(out, (n % 16) as u8);
    }
}

/// Appends `n` as two lower-case hexadecimal digits.
pub fn push_hex2(out: &mut String, n: u8)
    ensures
        final(out)@ == old(out)@ + hex(n as nat, 2),
{
    push_hex(out, n as u32, 2);
}

/// `n` as eight lower-case hexadecimal digits.
pub fn hex8(n: u32) -> (text: String)
    ensures
        text@ == hex(n as nat, 8),
{
    let mut out = String::new();
    push_hex(&mut out, n, 8);
    out
}

/// Appends the decimal values of `bytes[from..]`, separated by a comma and a space.
pub fn push_joined_bytes(out: &mut String, bytes: &[u8], from: usize)
    requires
        from <= bytes@.len(),
    ensures
        final(out)@ == old(out)@ + joined_bytes(bytes@.skip(from as int)),
{
    let ghost start = out@;
    let ghost tail = bytes@.skip(from as int);
    let mut i: usize = from;
    assert(tail.take(0) =~= Seq::empty());
    while i < bytes.len()
        invariant
            from <= i <= bytes@.len(),
            tail == bytes@.skip(from as int),
            out@ =~= start + joined_bytes(tail.take(i - from)),
        decreases bytes@.len() - i,
    {
        let ghost next = tail.take(i + 1 - from);
        assert(next.drop_last() =~= tail.take(i - from));
        assert(next.last() == bytes@[i as int]);
        if i > from {
            out.append(", ");
        } else {
            assert(tail.take(0) =~= Seq::empty());
        }
        push_decimal(out, bytes[i] as u64);
        i += 1;
    }
    assert(tail.take(tail.len() as int) =~= tail);
}

/// The decimal digits of a number spell that number, without a leading zero.
pub proof fn law_decimal_reads_back(n: nat)
    ensures
        decimal(n).len() > 0,
        all_digits(decimal(n)),
        decimal_value(decimal(n)) == n,
        n > 0 ==> decimal(n)[0] != '0',
    decreases n,
{
    let text = decimal(n);
    reveal_with_fuel(decimal_value, 2);
    if n < 10 {
        assert(text.drop_last() =~= Seq::empty());
    } else {
        law_decimal_reads_back(n / 10);
        assert(text.drop_last() =~= decimal(n / 10));
        assert forall|i: int| 0 <= i < text.len() implies '0' <= #[trigger] text[i] <= '9' by {
            if i < text.len() - 1 {
                assert(text[i] == decimal(n / 10)[i]);
            }
        }
    }
}

pub(crate) proof fn lemma_hex_len(n: nat, width: nat)
    ensures
        hex(n, width).len() == width,
    decreases width,
{
    if width > 0 {
        lemma_hex_len(n / 16, (width - 1) as nat);
    }
}

/// Numbers with the same last hexadecimal digits agree up to that many digits.
proof fn lemma_hex_determines(a: nat, b: nat, width: nat)
    requires
        hex(a, width) == hex(b, width),
        a < vstd::arithmetic::power::pow(16, width),
        b < vstd::arithmetic::power::pow(16, width),
    ensures
        a == b,
    decreases width,
{
    if width == 0 {
        vstd::arithmetic::power::lemma_pow0(16);
    } else {
        let w = (width - 1) as nat;
        let (ha, hb) = (hex(a, width), hex(b, width));
        assert(hex(a / 16, w) =~= ha.drop_last());
        assert(hex(b / 16, w) =~= hb.drop_last());
        assert(ha.last() == digit(a % 16) && hb.last() == digit(b % 16));
        assert(vstd::arithmetic::power::pow(16, width) == 16 * vstd::arithmetic::power::pow(16, w))
            by {
            reveal(vstd::arithmetic::power::pow);
        }
        lemma_hex_determines(a / 16, b / 16, w);
    }
}

/// Two 32-bit numbers have the same eight hexadecimal digits only where they are equal.
pub proof fn law_hex8_tells_numbers_apart(a: u32, b: u32)
    requires
        hex(a as nat, 8) == hex(b as nat, 8),
    ensures
        a == b,
{
    assert(vstd::arithmetic::power::pow(16, 8) == 0x1_0000_0000) by {
        reveal_with_fuel(vstd::arithmetic::power::pow, 9);
    }
    lemma_hex_determines(a as nat, b as nat, 8);
}

} // verus!
