//! Building text: hexadecimal and decimal numerals, padding.
//!
//! Text is modelled as `Seq<char>`. Every function that appends to a
//! `String` states the exact characters it appends.

use vstd::prelude::*;
use vstd::string::*;

verus! {

/// The lowercase hexadecimal digit for a value below sixteen.
pub open spec fn hex_char(d: int) -> char {
    if d == 0 { '0' }
    else if d == 1 { '1' }
    else if d == 2 { '2' }
    else if d == 3 { '3' }
    else if d == 4 { '4' }
    else if d == 5 { '5' }
    else if d == 6 { '6' }
    else if d == 7 { '7' }
    else if d == 8 { '8' }
    else if d == 9 { '9' }
    else if d == 10 { 'a' }
    else if d == 11 { 'b' }
    else if d == 12 { 'c' }
    else if d == 13 { 'd' }
    else if d == 14 { 'e' }
    else { 'f' }
}

/// The shortest lowercase hexadecimal numeral of `n`; `"0"` for zero.
pub open spec fn hex_digits(n: nat) -> Seq<char>
    decreases n,
{
    if n < 16 {
        seq![hex_char(n as int)]
    } else {
        hex_digits(n / 16).push(hex_char((n % 16) as int))
    }
}

/// The shortest decimal numeral of `n`; `"0"` for zero.
pub open spec fn dec_digits(n: nat) -> Seq<char>
    decreases n,
{
    if n < 10 {
        seq![hex_char(n as int)]
    } else {
        dec_digits(n / 10).push(hex_char((n % 10) as int))
    }
}

/// `k` copies of the character `c`.
pub open spec fn repeat(c: char, k: nat) -> Seq<char> {
    Seq::new(k, |i: int| c)
}

/// `n` in hexadecimal, with zeros in front up to `width` characters.
pub open spec fn hex_padded(n: nat, width: nat) -> Seq<char> {
    let digits = hex_digits(n);
    if digits.len() >= width {
        digits
    } else {
        repeat('0', (width - digits.len()) as nat) + digits
    }
}

/// `s` followed by spaces up to `width` characters.
pub open spec fn pad_right(s: Seq<char>, width: nat) -> Seq<char> {
    if s.len() >= width {
        s
    } else {
        s + repeat(' ', (width - s.len()) as nat)
    }
}

/// Every byte as two hexadecimal digits, with nothing between them.
pub open spec fn hex_bytes(bytes: Seq<u8>) -> Seq<char>
    decreases bytes.len(),
{
    if bytes.len() == 0 {
        Seq::empty()
    } else {
        hex_bytes(bytes.drop_last()) + hex_padded(bytes.last() as nat, 2)
    }
}

/// The number of digits of the hexadecimal numeral of `n`.
pub proof fn lemma_hex_digits_len(n: nat)
    ensures
        hex_digits(n).len() >= 1,
        n < 0x10 ==> hex_digits(n).len() == 1,
        0x10 <= n < 0x100 ==> hex_digits(n).len() == 2,
        0x100 <= n < 0x1000 ==> hex_digits(n).len() == 3,
        0x1000 <= n < 0x10000 ==> hex_digits(n).len() == 4,
    decreases n,
{
    if n >= 16 {
        lemma_hex_digits_len(n / 16);
    }
}

/// A byte in two-digit hexadecimal is exactly two characters long.
pub proof fn lemma_hex_byte_len(b: u8)
    ensures
        hex_padded(b as nat, 2).len() == 2,
{
    lemma_hex_digits_len(b as nat);
}

/// The hexadecimal rendering of `n` bytes is `2 * n` characters long.
pub proof fn lemma_hex_bytes_len(bytes: Seq<u8>)
    ensures
        hex_bytes(bytes).len() == 2 * bytes.len(),
    decreases bytes.len(),
{
    if bytes.len() > 0 {
        lemma_hex_bytes_len(bytes.drop_last());
        lemma_hex_byte_len(bytes.last());
    }
}

/// Appends one hexadecimal digit.
pub fn push_hex_digit(out: &mut String, d: u8)
    requires
        d < 16,
    ensures
        final(out)@ == old(out)@.push(hex_char(d as int)),
{
    proof {
        reveal_strlit("0");
        reveal_strlit("1");
        reveal_strlit("2");
        reveal_strlit("3");
        reveal_strlit("4");
        reveal_strlit("5");
        reveal_strlit("6");
        reveal_strlit("7");
        reveal_strlit("8");
        reveal_strlit("9");
        reveal_strlit("a");
        reveal_strlit("b");
        reveal_strlit("c");
        reveal_strlit("d");
        reveal_strlit("e");
        reveal_strlit("f");
    }
    let digit: &str = match d {
        0 => "0",
        1 => "1",
        2 => "2",
        3 => "3",
        4 => "4",
        5 => "5",
        6 => "6",
        7 => "7",
        8 => "8",
        9 => "9",
        10 => "a",
        11 => "b",
        12 => "c",
        13 => "d",
        14 => "e",
        _ => "f",
    };
    assert(digit@ =~= seq![hex_char(d as int)]);
    out.append(digit);
    assert(out@ =~= old(out)@.push(hex_char(d as int)));
}

/// Appends the shortest hexadecimal numeral of `value`.
pub fn push_hex_digits(out: &mut String, value: u64)
    ensures
        final(out)@ == old(out)@ + hex_digits(value as nat),
    decreases value,
{
    if value >= 16 {
        push_hex_digits(out, value / 16);
    }
    push_hex_digit(out, (value % 16) as u8);
    assert(out@ =~= old(out)@ + hex_digits(value as nat));
}

/// Appends the shortest decimal numeral of `value`.
pub fn push_dec(out: &mut String, value: u64)
    ensures
        final(out)@ == old(out)@ + dec_digits(value as nat),
    decreases value,
{
    if value >= 10 {
        push_dec(out, value / 10);
    }
    push_hex_digit(out, (value % 10) as u8);
    assert(out@ =~= old(out)@ + dec_digits(value as nat));
}

/// Appends `count` copies of the one-character string `unit`.
fn push_repeated(out: &mut String, unit: &str, c: char, count: usize)
    requires
        unit@ == seq![c],
    ensures
        final(out)@ == old(out)@ + repeat(c, count as nat),
{
    let mut i: usize = 0;
    assert(out@ =~= old(out)@ + repeat(c, 0));
    while i < count
        invariant
            i <= count,
            unit@ == seq![c],
            out@ == old(out)@ + repeat(c, i as nat),
        decreases count - i,
    {
        out.append(unit);
        i = i + 1;
        assert(out@ =~= old(out)@ + repeat(c, i as nat));
    }
}

/// Appends `count` spaces.
pub fn push_spaces(out: &mut String, count: usize)
    ensures
        final(out)@ == old(out)@ + repeat(' ', count as nat),
{
    proof {
        reveal_strlit(" ");
    }
    assert(" "@ =~= seq![' ']);
    push_repeated(out, " ", ' ', count);
}

/// Appends `value` in hexadecimal, with zeros in front up to `width` characters.
pub fn push_hex(out: &mut String, value: u64, width: usize)
    ensures
        final(out)@ == old(out)@ + hex_padded(value as nat, width as nat),
{
    let mut digits = String::new();
    push_hex_digits(&mut digits, value);
    let len = digits.as_str().unicode_len();
    if len < width {
        proof {
            reveal_strlit("0");
        }
        assert("0"@ =~= seq!['0']);
        push_repeated(out, "0", '0', width - len);
    }
    out.append(digits.as_str());
    assert(out@ =~= old(out)@ + hex_padded(value as nat, width as nat));
}

/// Appends `s`, then spaces up to `width` characters.
pub fn push_padded(out: &mut String, s: &str, width: usize)
    ensures
        final(out)@ == old(out)@ + pad_right(s@, width as nat),
{
    let len = s.unicode_len();
    out.append(s);
    if len < width {
        push_spaces(out, width - len);
    }
    assert(out@ =~= old(out)@ + pad_right(s@, width as nat));
}

/// Appends every byte as two hexadecimal digits.
pub fn push_hex_bytes(out: &mut String, bytes: &[u8])
    ensures
        final(out)@ == old(out)@ + hex_bytes(bytes@),
{
    let mut i: usize = 0;
    assert(bytes@.subrange(0, 0) =~= Seq::<u8>::empty());
    assert(out@ =~= old(out)@ + hex_bytes(bytes@.subrange(0, 0)));
    while i < bytes.len()
        invariant
            i <= bytes.len(),
            out@ == old(out)@ + hex_bytes(bytes@.subrange(0, i as int)),
        decreases bytes.len() - i,
    {
        push_hex(out, bytes[i] as u64, 2);
        proof {
            let next = bytes@.subrange(0, i + 1);
            assert(next.drop_last() =~= bytes@.subrange(0, i as int));
            assert(next.last() == bytes@[i as int]);
        }
        i = i + 1;
        assert(out@ =~= old(out)@ + hex_bytes(bytes@.subrange(0, i as int)));
    }
    assert(bytes@.subrange(0, i as int) =~= bytes@);
}

} // verus!
