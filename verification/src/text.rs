//! Writing ASCII text and decimal numbers into a byte buffer.

use crate::json::escaped_char;
use crate::json::escaped_text;
use crate::json::json_string_text;
use vstd::prelude::*;
use vstd::utf8::is_ascii_chars;
use vstd::utf8::is_ascii_chars_encode_utf8;

verus! {

/// The bytes of a sequence of ASCII characters, one byte for each.
pub open spec fn ascii_bytes(s: Seq<char>) -> Seq<u8> {
    Seq::new(s.len(), |i: int| s[i] as u8)
}

/// The byte of the decimal digit `d`.
pub open spec fn digit_byte(d: nat) -> u8
    recommends
        d < 10,
{
    (0x30 + d) as u8
}

/// `n` in decimal, most significant digit first, without leading zeros.
pub open spec fn decimal_text(n: nat) -> Seq<u8>
    decreases n,
{
    if n < 10 {
        seq![digit_byte(n)]
    } else {
        decimal_text(n / 10).push(digit_byte(n % 10))
    }
}

/// Every byte of `s` differs from `b`.
pub open spec fn free_of(s: Seq<u8>, b: u8) -> bool {
    forall|i: int| 0 <= i < s.len() ==> s[i] != b
}

/// A decimal number is made of digits only.
pub proof fn lemma_decimal_digits(n: nat)
    ensures
        decimal_text(n).len() >= 1,
        forall|i: int| 0 <= i < decimal_text(n).len() ==> 0x30 <= #[trigger] decimal_text(n)[i] <= 0x39,
    decreases n,
{
    if n >= 10 {
        lemma_decimal_digits(n / 10);
    }
}

/// A character that JSON writes as it is and in one byte: an ASCII character
/// from the space on, but for the quote and the backslash.
pub open spec fn is_unescaped_ascii(c: char) -> bool {
    ' ' <= c <= '\u{7f}' && c != '"' && c != '\\'
}

/// A text that JSON writes as it is, one byte for each character.
pub open spec fn is_unescaped_text(s: Seq<char>) -> bool {
    forall|i: int| 0 <= i < s.len() ==> is_unescaped_ascii(#[trigger] s[i])
}

/// The JSON writer writes a text that needs no escape as it is, between
/// quotes.
pub proof fn lemma_unescaped_text(s: Seq<char>)
    requires
        is_unescaped_text(s),
    ensures
        escaped_text(s) == ascii_bytes(s),
        json_string_text(s) == seq![0x22u8] + ascii_bytes(s) + seq![0x22u8],
    decreases s.len(),
{
    if s.len() > 0 {
        let c = s[0];
        assert(is_unescaped_ascii(c));
        assert(escaped_char(c) == seq![c as u8]) by {
            assert(is_ascii_chars(seq![c]));
            is_ascii_chars_encode_utf8(seq![c]);
            assert(seq![c][0] == c);
        }
        assert(is_unescaped_text(s.drop_first())) by {
            assert forall|i: int| 0 <= i < s.drop_first().len() implies is_unescaped_ascii(
                #[trigger] s.drop_first()[i],
            ) by {
                assert(s.drop_first()[i] == s[i + 1]);
            }
        }
        lemma_unescaped_text(s.drop_first());
        assert(escaped_text(s) == ascii_bytes(s));
    } else {
        assert(escaped_text(s) == ascii_bytes(s));
    }
}

/// Appends `bytes` to `buf`.
pub fn push_bytes(buf: &mut Vec<u8>, bytes: &[u8])
    ensures
        final(buf)@ == old(buf)@ + bytes@,
{
    let mut i: usize = 0;
    while i < bytes.len()
        invariant
            i <= bytes.len(),
            buf@ == old(buf)@ + bytes@.subrange(0, i as int),
        decreases bytes.len() - i,
    {
        buf.push(bytes[i]);
        i += 1;
    }
    assert(bytes@.subrange(0, i as int) == bytes@);
}

/// Appends the ASCII string `s` to `buf`, one byte for each character.
pub(crate) fn push_ascii(buf: &mut Vec<u8>, s: &str)
    requires
        is_ascii_chars(s@),
    ensures
        final(buf)@ == old(buf)@ + ascii_bytes(s@),
{
    let bytes = s.as_bytes();
    proof {
        is_ascii_chars_encode_utf8(s@);
        assert(bytes@ == ascii_bytes(s@));
    }
    push_bytes(buf, bytes);
}

/// Appends `n` in decimal to `buf`.
pub fn push_decimal(buf: &mut Vec<u8>, n: usize)
    ensures
        final(buf)@ == old(buf)@ + decimal_text(n as nat),
    decreases n,
{
    if n >= 10 {
        push_decimal(buf, n / 10);
    }
    let d: usize = n % 10;
    buf.push(0x30u8 + d as u8);
}

} // verus!
