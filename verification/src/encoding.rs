//! Text encodings of numbers and bytes: lower-case hex, and decimal as `u16::from_str` reads it.

use vstd::prelude::*;

verus! {

/// The value of a hex digit, in either case.
pub open spec fn hex_digit_value(c: u8) -> Option<nat> {
    if 0x30 <= c <= 0x39 {
        Some((c - 0x30) as nat)
    } else if 0x61 <= c <= 0x66 {
        Some((c - 0x61 + 10) as nat)
    } else if 0x41 <= c <= 0x46 {
        Some((c - 0x41 + 10) as nat)
    } else {
        None
    }
}

/// The lower-case hex digit of a value below 16.
pub open spec fn lower_hex_digit(v: nat) -> u8 {
    if v < 10 { (0x30 + v) as u8 } else { (0x61 + v - 10) as u8 }
}

/// The lower-case hex encoding of bytes, two digits per byte, high nibble first.
pub open spec fn hex_encode(bytes: Seq<u8>) -> Seq<u8> {
    Seq::new(2 * bytes.len(), |i: int| if i % 2 == 0 {
        lower_hex_digit((bytes[i / 2] / 16) as nat)
    } else {
        lower_hex_digit((bytes[i / 2] % 16) as nat)
    })
}

/// The bytes that a hex string of even length, all digits of either case, stands for.
pub open spec fn hex_decode(s: Seq<u8>) -> Option<Seq<u8>> {
    if s.len() % 2 == 0 && forall|i: int| 0 <= i < s.len() ==> #[trigger] hex_digit_value(s[i]) is Some {
        Some(Seq::new(s.len() / 2, |i: int|
            (hex_digit_value(s[2 * i]).unwrap() * 16 + hex_digit_value(s[2 * i + 1]).unwrap()) as u8))
    } else {
        None
    }
}

/// Decoding undoes the lower-case encoding.
pub proof fn lemma_hex_decode_encode(bytes: Seq<u8>)
    ensures
        hex_decode(hex_encode(bytes)) == Some(bytes),
{
    let e = hex_encode(bytes);
    assert forall|i: int| 0 <= i < e.len() implies #[trigger] hex_digit_value(e[i]) is Some by {
        let v: nat = if i % 2 == 0 { (bytes[i / 2] / 16) as nat } else { (bytes[i / 2] % 16) as nat };
        assert(v < 16);
        assert(e[i] == lower_hex_digit(v));
    }
    let d = hex_decode(e).unwrap();
    assert forall|i: int| 0 <= i < bytes.len() implies d[i] == bytes[i] by {
        let hi: nat = (bytes[i] / 16) as nat;
        let lo: nat = (bytes[i] % 16) as nat;
        assert((2 * i) / 2 == i);
        assert((2 * i + 1) / 2 == i);
        assert((2 * i) % 2 == 0);
        assert((2 * i + 1) % 2 == 1);
        assert(e[2 * i] == lower_hex_digit(hi));
        assert(e[2 * i + 1] == lower_hex_digit(lo));
        assert(hex_digit_value(e[2 * i]).unwrap() == hi);
        assert(hex_digit_value(e[2 * i + 1]).unwrap() == lo);
        assert(hi * 16 + lo == bytes[i]);
    }
    assert(d =~= bytes);
}

/// Whether a byte is an ASCII decimal digit.
pub open spec fn is_decimal_digit(c: u8) -> bool {
    0x30 <= c <= 0x39
}

/// The number that a string of decimal digits stands for, most significant digit first.
pub open spec fn decimal_value(s: Seq<u8>) -> nat
    decreases s.len(),
{
    if s.len() == 0 {
        0
    } else {
        decimal_value(s.drop_last()) * 10 + (s.last() - 0x30) as nat
    }
}

/// The decimal digits of `n`, without leading zeros ("0" for zero).
pub open spec fn decimal_digits(n: nat) -> Seq<u8>
    decreases n,
{
    if n < 10 {
        seq![(0x30 + n) as u8]
    } else {
        decimal_digits(n / 10).push((0x30 + n % 10) as u8)
    }
}

/// Whether every byte is an ASCII decimal digit.
pub open spec fn all_decimal_digits(s: Seq<u8>) -> bool {
    forall|i: int| 0 <= i < s.len() ==> #[trigger] is_decimal_digit(s[i])
}

/// The digits of an unsigned number's text: what follows a leading `+`, if any.
pub open spec fn unsigned_digits(s: Seq<u8>) -> Seq<u8> {
    if s.len() > 0 && s[0] == 0x2b { s.drop_first() } else { s }
}

/// What `u16::from_str` accepts: an optional `+`, then one or more decimal digits whose value
/// fits in a `u16`.
pub open spec fn parse_u16_spec(s: Seq<u8>) -> Option<u16> {
    let digits = unsigned_digits(s);
    if digits.len() > 0 && all_decimal_digits(digits) && decimal_value(digits) <= u16::MAX {
        Some(decimal_value(digits) as u16)
    } else {
        None
    }
}

/// The decimal digits of a number are digits, the first of them not a `+`, and they stand for
/// the number.
pub proof fn lemma_decimal_digits_are_digits(n: nat)
    ensures
        decimal_digits(n).len() > 0,
        decimal_digits(n)[0] != 0x2b,
        forall|i: int| 0 <= i < decimal_digits(n).len() ==> #[trigger] is_decimal_digit(decimal_digits(n)[i]),
        decimal_value(decimal_digits(n)) == n,
    decreases n,
{
    if n >= 10 {
        lemma_decimal_digits_are_digits(n / 10);
        let d = decimal_digits(n);
        assert(d.drop_last() =~= decimal_digits(n / 10));
        assert(d[0] == decimal_digits(n / 10)[0]);
        assert(d.last() == (0x30 + n % 10) as u8);
        assert(decimal_value(d) == decimal_value(decimal_digits(n / 10)) * 10 + n % 10);
        assert(n == (n / 10) * 10 + n % 10);
    } else {
        assert(decimal_digits(n).drop_last() =~= Seq::<u8>::empty());
        assert(decimal_value(Seq::<u8>::empty()) == 0);
        assert(decimal_value(decimal_digits(n)) == decimal_value(decimal_digits(n).drop_last()) * 10 + (decimal_digits(n).last() - 0x30) as nat);
    }
}

/// Reading back the decimal digits of a `u16` gives it.
pub proof fn lemma_parse_u16_decimal(n: u16)
    ensures
        parse_u16_spec(decimal_digits(n as nat)) == Some(n),
{
    lemma_decimal_digits_are_digits(n as nat);
}

proof fn lemma_decimal_value_grows(s: Seq<u8>, c: u8)
    requires
        is_decimal_digit(c),
    ensures
        decimal_value(s.push(c)) == decimal_value(s) * 10 + (c - 0x30) as nat,
        decimal_value(s.push(c)) >= decimal_value(s),
{
    assert(s.push(c).drop_last() =~= s);
}

proof fn lemma_decimal_value_prefix(s: Seq<u8>, i: int)
    requires
        0 <= i <= s.len(),
        forall|j: int| 0 <= j < s.len() ==> #[trigger] is_decimal_digit(s[j]),
    ensures
        decimal_value(s) >= decimal_value(s.subrange(0, i)),
    decreases s.len() - i,
{
    if i < s.len() {
        lemma_decimal_value_prefix(s, i + 1);
        assert(s.subrange(0, i + 1) =~= s.subrange(0, i).push(s[i]));
        lemma_decimal_value_grows(s.subrange(0, i), s[i]);
    } else {
        assert(s.subrange(0, i) =~= s);
    }
}

/// Parses a `u16` as `u16::from_str` does.
pub fn parse_u16(s: &[u8]) -> (parsed: Option<u16>)
    ensures
        parsed == parse_u16_spec(s@),
{
    let mut start: usize = 0;
    if s.len() > 0 && s[0] == 0x2b {
        start = 1;
    }
    let ghost digits = unsigned_digits(s@);
    assert(digits =~= s@.subrange(start as int, s@.len() as int));
    if start == s.len() {
        return None;
    }
    let mut value: u32 = 0;
    let mut i: usize = start;
    while i < s.len()
        invariant
            start <= i <= s.len(),
            digits == unsigned_digits(s@),
            digits =~= s@.subrange(start as int, s@.len() as int),
            forall|j: int| start <= j < i ==> #[trigger] is_decimal_digit(s@[j]),
            value == decimal_value(s@.subrange(start as int, i as int)),
            value <= u16::MAX,
        decreases s.len() - i,
    {
        let c = s[i];
        if c < 0x30 || c > 0x39 {
            proof {
                assert(digits[i - start] == s@[i as int]);
                assert(!is_decimal_digit(digits[i - start]));
                assert(!all_decimal_digits(digits));
                assert(parse_u16_spec(s@) is None);
            }
            return None;
        }
        proof {
            assert(s@.subrange(start as int, i + 1) =~= s@.subrange(start as int, i as int).push(c));
            lemma_decimal_value_grows(s@.subrange(start as int, i as int), c);
        }
        let next: u32 = value * 10 + (c - 0x30) as u32;
        if next > 0xffff {
            proof {
                assert(digits.subrange(0, i + 1 - start) =~= s@.subrange(start as int, i + 1));
                if all_decimal_digits(digits) {
                    lemma_decimal_value_prefix(digits, i + 1 - start);
                    assert(decimal_value(digits) > u16::MAX);
                }
                assert(parse_u16_spec(s@) is None);
            }
            return None;
        }
        value = next;
        i += 1;
    }
    proof {
        assert(s@.subrange(start as int, s@.len() as int) =~= digits);
    }
    Some(value as u16)
}

/// The decimal digits of `n`, as bytes.
pub fn decimal_digits_of(n: u64) -> (digits: Vec<u8>)
    ensures
        digits@ == decimal_digits(n as nat),
{
    let mut rev: Vec<u8> = Vec::new();
    let mut m: u64 = n;
    loop
        invariant_except_break
            m <= n,
            decimal_digits(n as nat) =~= decimal_digits(m as nat) + rev@.reverse(),
        ensures
            decimal_digits(n as nat) =~= rev@.reverse(),
        decreases m,
    {
        if m < 10 {
            rev.push(0x30 + m as u8);
            proof {
                assert(decimal_digits(m as nat) == seq![(0x30 + m) as u8]);
                assert(rev@.reverse() =~= seq![(0x30 + m) as u8] + rev@.drop_last().reverse());
            }
            break;
        }
        rev.push(0x30 + (m % 10) as u8);
        proof {
            assert(decimal_digits(m as nat) == decimal_digits((m / 10) as nat).push((0x30 + m % 10) as u8));
            assert(rev@.reverse() =~= seq![(0x30 + m % 10) as u8] + rev@.drop_last().reverse());
        }
        m = m / 10;
    }
    let mut digits: Vec<u8> = Vec::new();
    let mut i: usize = rev.len();
    while i > 0
        invariant
            i <= rev.len(),
            digits@ =~= rev@.subrange(i as int, rev@.len() as int).reverse(),
        decreases i,
    {
        i -= 1;
        digits.push(rev[i]);
        proof {
            assert(rev@.subrange(i as int, rev@.len() as int).reverse()
                =~= rev@.subrange(i + 1, rev@.len() as int).reverse().push(rev@[i as int]));
        }
    }
    proof {
        assert(rev@.subrange(0, rev@.len() as int) =~= rev@);
    }
    digits
}

/// The characters of a string of ASCII bytes.
pub open spec fn ascii_chars(bytes: Seq<u8>) -> Seq<char> {
    bytes.map_values(|b: u8| b as char)
}

/// Calls `String::from_utf8` on bytes that are all ASCII, which it accepts: the string holds
/// those bytes as characters.
#[verifier::external_body]
pub(crate) fn ascii_string(bytes: Vec<u8>) -> (s: String)
    requires
        forall|i: int| 0 <= i < bytes@.len() ==> #[trigger] bytes@[i] < 0x80,
    ensures
        s@ == ascii_chars(bytes@),
{
    String::from_utf8(bytes).unwrap()
}

} // verus!
