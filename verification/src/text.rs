//! Text building blocks: decimal numbers, padding, string comparison and
//! UTF-16 encoding, each stated over the characters it produces.

use vstd::prelude::*;

verus! {

/// std's `String::push`, which appends one character: the contract claims
/// that the string's characters afterwards are the old ones followed by `ch`,
/// as its documentation states.
pub assume_specification[ String::push ](s: &mut String, ch: char)
    ensures
        final(s)@ == old(s)@.push(ch),
;

/// The ASCII digit for `d` in `0..10`.
pub open spec fn digit_char(d: int) -> char {
    (48 + d) as char
}

/// The decimal digits of `n`, most significant first, with no leading zeros
/// (zero is the single digit `0`).
pub open spec fn decimal(n: nat) -> Seq<char>
    decreases n,
{
    if n < 10 {
        seq![digit_char(n as int)]
    } else {
        decimal(n / 10).push(digit_char((n % 10) as int))
    }
}

/// `v` in decimal, with a leading `-` when negative.
pub open spec fn signed_decimal(v: int) -> Seq<char> {
    if v < 0 {
        seq!['-'] + decimal((-v) as nat)
    } else {
        decimal(v as nat)
    }
}

/// The number that a string of decimal digits reads as (most significant
/// first).
pub open spec fn digits_value(s: Seq<char>) -> int
    decreases s.len(),
{
    if s.len() == 0 {
        0
    } else {
        digits_value(s.drop_last()) * 10 + (s.last() as int - 48)
    }
}

/// A character is an ASCII decimal digit.
pub open spec fn is_digit(c: char) -> bool {
    '0' <= c <= '9'
}

/// `decimal(n)` is a string of digits that reads as `n`, with no leading
/// zero unless `n` is zero.
pub proof fn lemma_decimal_reads_back(n: nat)
    ensures
        digits_value(decimal(n)) == n,
        decimal(n).len() >= 1,
        forall|i: int| 0 <= i < decimal(n).len() ==> is_digit(#[trigger] decimal(n)[i]),
        decimal(n)[0] == '0' ==> n == 0,
    decreases n,
{
    let last = (n % 10) as int;
    assert(digit_char(last) as int == 48 + last);
    if n >= 10 {
        lemma_decimal_reads_back(n / 10);
        let d = decimal(n / 10);
        assert(decimal(n).drop_last() =~= d);
        assert(forall|i: int| 0 <= i < d.len() ==> decimal(n)[i] == d[i]);
        assert(n == (n / 10) * 10 + n % 10);
        assert(decimal(n).last() == digit_char(last));
        assert(digits_value(decimal(n)) == digits_value(d) * 10 + (digit_char(last) as int - 48));
        assert(digits_value(decimal(n)) == (n / 10) * 10 + last);
    } else {
        assert(decimal(n).drop_last() =~= Seq::<char>::empty());
        assert(n % 10 == n);
        assert(digits_value(Seq::<char>::empty()) == 0);
        assert(decimal(n).last() == digit_char(last));
        assert(digits_value(decimal(n)) == 0 * 10 + (digit_char(last) as int - 48));
    }
}

/// `signed_decimal(v)` is an optional `-` followed by the digits of `|v|`.
pub proof fn lemma_signed_decimal_reads_back(v: int)
    ensures
        v < 0 ==> signed_decimal(v)[0] == '-' && digits_value(signed_decimal(v).drop_first()) == -v,
        v >= 0 ==> digits_value(signed_decimal(v)) == v && is_digit(signed_decimal(v)[0]),
        signed_decimal(v).len() >= 1,
{
    if v < 0 {
        lemma_decimal_reads_back((-v) as nat);
        assert(signed_decimal(v).drop_first() =~= decimal((-v) as nat));
    } else {
        lemma_decimal_reads_back(v as nat);
    }
}

/// `n` spaces.
pub open spec fn spaces(n: nat) -> Seq<char> {
    Seq::new(n, |i: int| ' ')
}

/// `s` right-aligned in a field of `width` characters: spaces in front when
/// it is shorter, `s` unchanged when it is not.
pub open spec fn pad_left(s: Seq<char>, width: nat) -> Seq<char> {
    if s.len() < width {
        spaces((width - s.len()) as nat) + s
    } else {
        s
    }
}

/// Padding only adds spaces in front: the result is at least `width` long,
/// ends with `s`, and everything before `s` is a space.
pub proof fn lemma_pad_left_shape(s: Seq<char>, width: nat)
    ensures
        pad_left(s, width).len() == if s.len() < width {
            width as int
        } else {
            s.len() as int
        },
        pad_left(s, width).subrange(pad_left(s, width).len() - s.len(), pad_left(s, width).len() as int)
            == s,
        forall|i: int|
            0 <= i < pad_left(s, width).len() - s.len() ==> #[trigger] pad_left(s, width)[i] == ' ',
{
    let p = pad_left(s, width);
    assert(p.subrange(p.len() - s.len(), p.len() as int) =~= s);
}

/// The UTF-16 code units of one character: one unit inside the basic
/// multilingual plane, a surrogate pair above it.
pub open spec fn char_utf16(c: char) -> Seq<u16> {
    let v = c as int;
    if v < 0x10000 {
        seq![v as u16]
    } else {
        let u = v - 0x10000;
        seq![(0xD800 + u / 0x400) as u16, (0xDC00 + u % 0x400) as u16]
    }
}

/// The UTF-16 encoding of a character sequence.
pub open spec fn utf16_of(s: Seq<char>) -> Seq<u16>
    decreases s.len(),
{
    if s.len() == 0 {
        Seq::empty()
    } else {
        utf16_of(s.drop_last()) + char_utf16(s.last())
    }
}

/// The little-endian bytes of a sequence of 16-bit units.
pub open spec fn le_bytes(units: Seq<u16>) -> Seq<u8>
    decreases units.len(),
{
    if units.len() == 0 {
        Seq::empty()
    } else {
        le_bytes(units.drop_last()) + seq![
            (units.last() % 256) as u8,
            (units.last() / 256) as u8,
        ]
    }
}

fn digit(d: u128) -> (c: char)
    requires
        d < 10,
    ensures
        c == digit_char(d as int),
{
    let b: u8 = 48u8 + (d as u8);
    b as char
}

/// Append the decimal digits of `n` to `s`.
pub fn push_decimal(s: &mut String, n: u128)
    ensures
        final(s)@ == old(s)@ + decimal(n as nat),
    decreases n,
{
    if n >= 10 {
        push_decimal(s, n / 10);
    }
    let c = digit(n % 10);
    s.push(c);
    assert(s@ =~= old(s)@ + decimal(n as nat));
}

/// Append `v` in decimal, with a leading `-` when negative.
pub fn push_signed_decimal(s: &mut String, v: i32)
    ensures
        final(s)@ == old(s)@ + signed_decimal(v as int),
{
    if v < 0 {
        s.push('-');
        let m: i64 = -(v as i64);
        push_decimal(s, m as u128);
        proof {
            assert(s@ =~= old(s)@ + signed_decimal(v as int));
        }
    } else {
        push_decimal(s, v as u128);
    }
}

/// `n` in decimal, right-aligned in a field of `width` characters.
pub fn decimal_padded(n: u128, width: usize) -> (r: String)
    ensures
        r@ == pad_left(decimal(n as nat), width as nat),
{
    let mut digits = String::new();
    push_decimal(&mut digits, n);
    assert(digits@ =~= decimal(n as nat));
    let len = digits.as_str().unicode_len();
    let mut r = String::new();
    let mut i: usize = len;
    while i < width
        invariant
            len <= i <= width || (i == len && width < len),
            r@ =~= spaces((i - len) as nat),
        decreases width - i,
    {
        r.push(' ');
        i = i + 1;
    }
    r.append(digits.as_str());
    assert(r@ =~= pad_left(decimal(n as nat), width as nat));
    r
}

/// Whether two strings hold the same characters.
pub fn str_eq(a: &str, b: &str) -> (r: bool)
    ensures
        r == (a@ == b@),
{
    let n = a.unicode_len();
    if n != b.unicode_len() {
        return false;
    }
    let mut i: usize = 0;
    while i < n
        invariant
            n == a@.len(),
            n == b@.len(),
            i <= n,
            forall|j: int| 0 <= j < i ==> a@[j] == b@[j],
        decreases n - i,
    {
        if a.get_char(i) != b.get_char(i) {
            return false;
        }
        i = i + 1;
    }
    assert(a@ =~= b@);
    true
}

fn push_char_utf16(out: &mut Vec<u16>, c: char)
    ensures
        final(out)@ == old(out)@ + char_utf16(c),
{
    let v: u32 = c as u32;
    if v < 0x10000 {
        out.push(v as u16);
    } else {
        let u: u32 = v - 0x10000;
        out.push((0xD800 + u / 0x400) as u16);
        out.push((0xDC00 + u % 0x400) as u16);
    }
    assert(out@ =~= old(out)@ + char_utf16(c));
}

/// The UTF-16 code units of `s`.
pub fn encode_utf16(s: &str) -> (r: Vec<u16>)
    ensures
        r@ == utf16_of(s@),
{
    let n = s.unicode_len();
    let mut out: Vec<u16> = Vec::new();
    let mut i: usize = 0;
    while i < n
        invariant
            n == s@.len(),
            i <= n,
            out@ == utf16_of(s@.subrange(0, i as int)),
        decreases n - i,
    {
        let c = s.get_char(i);
        push_char_utf16(&mut out, c);
        proof {
            let t = s@.subrange(0, i + 1);
            assert(t.drop_last() =~= s@.subrange(0, i as int));
            assert(t.last() == c);
        }
        i = i + 1;
    }
    assert(s@.subrange(0, n as int) =~= s@);
    out
}

/// The little-endian bytes of `units`, two per unit, low byte first.
pub fn le_bytes_of(units: &[u16]) -> (r: Vec<u8>)
    ensures
        r@ == le_bytes(units@),
        r@.len() == 2 * units@.len(),
{
    let mut out: Vec<u8> = Vec::new();
    let mut i: usize = 0;
    while i < units.len()
        invariant
            i <= units@.len(),
            out@ == le_bytes(units@.subrange(0, i as int)),
            out@.len() == 2 * i,
        decreases units@.len() - i,
    {
        let u = units[i];
        out.push((u % 256) as u8);
        out.push((u / 256) as u8);
        proof {
            let t = units@.subrange(0, i + 1);
            assert(t.drop_last() =~= units@.subrange(0, i as int));
            assert(t.last() == u);
            assert(out@ =~= le_bytes(t));
        }
        i = i + 1;
    }
    assert(units@.subrange(0, units@.len() as int) =~= units@);
    out
}

} // verus!
