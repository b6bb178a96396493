//! Percent-encoding of parameter names and values.
//!
//! A text is encoded byte by byte over its UTF-8 form: the unreserved bytes
//! of RFC 3986 (letters, digits, `-`, `.`, `_`, `~`) stand for themselves,
//! every other byte becomes `%` followed by two upper-case hexadecimal digits.
//! Decoding is the inverse and accepts hexadecimal digits of either case.

use vstd::prelude::*;
use vstd::utf8::*;
use crate::text::{chars_of, string_of};

verus! {

/// The bytes that percent-encoding leaves as they are.
pub open spec fn is_unreserved(b: u8) -> bool {
    (0x30 <= b <= 0x39) || (0x41 <= b <= 0x5A) || (0x61 <= b <= 0x7A) || b == 0x2D || b == 0x2E
        || b == 0x5F || b == 0x7E
}

/// The upper-case hexadecimal digit for `n < 16`.
pub open spec fn hex_upper(n: u8) -> char {
    if n < 10 {
        ((0x30 + n) as u8) as char
    } else {
        ((0x37 + n) as u8) as char
    }
}

/// The encoded form of one byte: one character or three.
pub open spec fn encode_byte(b: u8) -> Seq<char> {
    if is_unreserved(b) {
        seq![b as char]
    } else {
        seq!['%', hex_upper(b / 16), hex_upper(b % 16)]
    }
}

/// The encoded forms of the bytes, one after the other.
pub open spec fn encode_bytes(bytes: Seq<u8>) -> Seq<char>
    decreases bytes.len(),
{
    if bytes.len() == 0 {
        Seq::empty()
    } else {
        encode_bytes(bytes.drop_last()) + encode_byte(bytes.last())
    }
}

/// The percent-encoded form of a text.
pub open spec fn percent_encoded(s: Seq<char>) -> Seq<char> {
    encode_bytes(encode_utf8(s))
}

/// The value of a hexadecimal digit of either case, if `c` is one.
pub open spec fn hex_value(c: char) -> Option<u8> {
    if '0' <= c && c <= '9' {
        Some(((c as u8) - 0x30) as u8)
    } else if 'A' <= c && c <= 'F' {
        Some(((c as u8) - 0x37) as u8)
    } else if 'a' <= c && c <= 'f' {
        Some(((c as u8) - 0x57) as u8)
    } else {
        None
    }
}

/// The bytes that an encoded text stands for. There are none where a `%` is
/// not followed by two hexadecimal digits, or where a character lies outside
/// ASCII.
pub open spec fn decode_chars(s: Seq<char>) -> Option<Seq<u8>>
    decreases s.len(),
{
    if s.len() == 0 {
        Some(Seq::empty())
    } else if s[0] == '%' {
        if s.len() >= 3 && hex_value(s[1]) is Some && hex_value(s[2]) is Some {
            match decode_chars(s.skip(3)) {
                Some(rest) => Some(
                    seq![((hex_value(s[1])->0) * 16 + (hex_value(s[2])->0)) as u8] + rest,
                ),
                None => None,
            }
        } else {
            None
        }
    } else if s[0] <= '\u{7f}' {
        match decode_chars(s.skip(1)) {
            Some(rest) => Some(seq![s[0] as u8] + rest),
            None => None,
        }
    } else {
        None
    }
}

/// The text that an encoded text stands for, if it stands for one: its bytes
/// must decode and must be UTF-8.
pub open spec fn percent_decoded(s: Seq<char>) -> Option<Seq<char>> {
    match decode_chars(s) {
        Some(bytes) => if valid_utf8(bytes) {
            Some(decode_utf8(bytes))
        } else {
            None
        },
        None => None,
    }
}

/// The characters an encoded text is made of: unreserved ASCII, `%`, and
/// upper-case hexadecimal digits. In particular neither `&` nor `=`, nor a
/// quote, a comma or a blank.
pub open spec fn is_encoded_char(c: char) -> bool {
    c <= '\u{7f}' && (is_unreserved(c as u8) || c == '%')
}

/// Every character of `s` may occur in an encoded text.
pub open spec fn is_encoded_text(s: Seq<char>) -> bool {
    forall|i: int| 0 <= i < s.len() ==> is_encoded_char(#[trigger] s[i])
}

/// A character of an encoded text is a visible ASCII character, and none of
/// the characters that separate or quote.
pub proof fn lemma_encoded_char(c: char)
    requires
        is_encoded_char(c),
    ensures
        ' ' < c && c <= '~',
        c != '&' && c != '=' && c != '"' && c != ',',
{
    assert((c as u8) as u32 == c as u32);
}

/// Encoding distributes over concatenation of the bytes.
pub proof fn lemma_encode_bytes_concat(a: Seq<u8>, b: Seq<u8>)
    ensures
        encode_bytes(a + b) == encode_bytes(a) + encode_bytes(b),
    decreases b.len(),
{
    if b.len() == 0 {
        assert(a + b == a);
    } else {
        assert((a + b).drop_last() == a + b.drop_last());
        assert((a + b).last() == b.last());
        lemma_encode_bytes_concat(a, b.drop_last());
    }
}

/// Encoding a sequence that starts with `b` starts with the form of `b`.
pub proof fn lemma_encode_bytes_first(bytes: Seq<u8>)
    requires
        bytes.len() > 0,
    ensures
        encode_bytes(bytes) == encode_byte(bytes[0]) + encode_bytes(bytes.drop_first()),
{
    let head = seq![bytes[0]];
    assert(bytes == head + bytes.drop_first());
    lemma_encode_bytes_concat(head, bytes.drop_first());
    assert(head.drop_last() == Seq::<u8>::empty());
    assert(encode_bytes(head) == encode_bytes(head.drop_last()) + encode_byte(head.last()));
    assert(encode_bytes(head) == encode_byte(bytes[0]));
}

/// The two hexadecimal digits written for a byte read back as that byte.
pub proof fn lemma_hex_round_trip(b: u8)
    ensures
        hex_value(hex_upper(b / 16)) == Some((b / 16) as u8),
        hex_value(hex_upper(b % 16)) == Some((b % 16) as u8),
        hex_upper(b / 16) <= '\u{7f}',
        hex_upper(b % 16) <= '\u{7f}',
        is_unreserved(hex_upper(b / 16) as u8),
        is_unreserved(hex_upper(b % 16) as u8),
{
}

/// An encoded text holds only the characters of encoded texts.
pub proof fn lemma_encoded_text(bytes: Seq<u8>)
    ensures
        is_encoded_text(encode_bytes(bytes)),
    decreases bytes.len(),
{
    if bytes.len() > 0 {
        lemma_encoded_text(bytes.drop_last());
        lemma_hex_round_trip(bytes.last());
        let head = encode_bytes(bytes.drop_last());
        let tail = encode_byte(bytes.last());
        assert forall|i: int| 0 <= i < (head + tail).len() implies is_encoded_char(
            #[trigger] (head + tail)[i],
        ) by {
            if i < head.len() {
                assert((head + tail)[i] == head[i]);
            } else {
                assert((head + tail)[i] == tail[i - head.len()]);
            }
        }
    }
}

/// Decoding the encoded form of some bytes gives those bytes back.
pub proof fn lemma_decode_encode_bytes(bytes: Seq<u8>)
    ensures
        decode_chars(encode_bytes(bytes)) == Some(bytes),
    decreases bytes.len(),
{
    if bytes.len() > 0 {
        let b = bytes[0];
        let rest = bytes.drop_first();
        lemma_encode_bytes_first(bytes);
        lemma_decode_encode_bytes(rest);
        lemma_hex_round_trip(b);
        let s = encode_bytes(bytes);
        if is_unreserved(b) {
            assert(s.skip(1) == encode_bytes(rest));
            assert(s[0] == b as char);
            assert(s[0] as u8 == b);
        } else {
            assert(s.skip(3) == encode_bytes(rest));
            assert(s[0] == '%');
            assert(s[1] == hex_upper(b / 16));
            assert(s[2] == hex_upper(b % 16));
            assert(((b / 16) * 16 + (b % 16)) as u8 == b);
        }
        assert(seq![b] + rest == bytes);
    }
}

/// Decoding what was encoded gives the text back.
pub proof fn lemma_percent_round_trip(s: Seq<char>)
    ensures
        percent_decoded(percent_encoded(s)) == Some(s),
{
    lemma_decode_encode_bytes(encode_utf8(s));
    encode_utf8_valid_utf8(s);
    encode_utf8_decode_utf8(s);
}

/// A text made of unreserved characters alone is its own encoded form.
pub proof fn lemma_plain_text_encodes_to_itself(s: Seq<char>)
    requires
        forall|i: int| 0 <= i < s.len() ==> is_encoded_char(#[trigger] s[i]) && s[i] != '%',
    ensures
        percent_encoded(s) == s,
{
    assert(is_ascii_chars(s)) by {
        assert forall|i: int| 0 <= i < s.len() implies '\0' <= #[trigger] s[i] && s[i]
            <= '\u{7f}' by {
            lemma_encoded_char(s[i]);
        }
    }
    is_ascii_chars_encode_utf8(s);
    let bytes = encode_utf8(s);
    assert forall|i: int| 0 <= i < bytes.len() implies is_unreserved(#[trigger] bytes[i])
        && bytes[i] as char == s[i] by {
        assert(is_encoded_char(s[i]));
        assert(s[i] as u8 == bytes[i]);
        assert((s[i] as u8) as u32 == s[i] as u32);
    }
    lemma_unreserved_bytes_encode_to_themselves(bytes);
    assert(encode_bytes(bytes) =~= s);
}

/// Unreserved bytes are encoded one character each, the character with the
/// byte's code.
proof fn lemma_unreserved_bytes_encode_to_themselves(bytes: Seq<u8>)
    requires
        forall|i: int| 0 <= i < bytes.len() ==> is_unreserved(#[trigger] bytes[i]),
    ensures
        encode_bytes(bytes) == Seq::new(bytes.len(), |i: int| bytes[i] as char),
    decreases bytes.len(),
{
    if bytes.len() > 0 {
        let front = bytes.drop_last();
        assert forall|i: int| 0 <= i < front.len() implies is_unreserved(#[trigger] front[i]) by {
            assert(front[i] == bytes[i]);
        }
        lemma_unreserved_bytes_encode_to_themselves(front);
        assert(is_unreserved(bytes.last()));
        assert(encode_bytes(bytes) =~= Seq::new(bytes.len(), |i: int| bytes[i] as char));
    } else {
        assert(encode_bytes(bytes) =~= Seq::new(bytes.len(), |i: int| bytes[i] as char));
    }
}

/// Two texts with the same encoded form are the same text.
pub proof fn lemma_percent_encoded_injective(a: Seq<char>, b: Seq<char>)
    requires
        percent_encoded(a) == percent_encoded(b),
    ensures
        a == b,
{
    lemma_percent_round_trip(a);
    lemma_percent_round_trip(b);
}

/// Whether `b` is an unreserved byte.
pub fn unreserved(b: u8) -> (r: bool)
    ensures
        r == is_unreserved(b),
{
    (0x30 <= b && b <= 0x39) || (0x41 <= b && b <= 0x5A) || (0x61 <= b && b <= 0x7A) || b == 0x2D
        || b == 0x2E || b == 0x5F || b == 0x7E
}

/// The upper-case hexadecimal digit for `n`.
pub(crate) fn hex_digit(n: u8) -> (c: char)
    requires
        n < 16,
    ensures
        c == hex_upper(n),
{
    if n < 10 {
        (0x30 + n) as char
    } else {
        (0x37 + n) as char
    }
}

/// Appends the encoded form of `s` to `out`.
pub fn percent_encode_into(out: &mut Vec<char>, s: &str)
    ensures
        final(out)@ == old(out)@ + percent_encoded(s@),
{
    let bytes = s.as_bytes();
    let mut i: usize = 0;
    while i < bytes.len()
        invariant
            i <= bytes.len(),
            bytes@ == encode_utf8(s@),
            out@ == old(out)@ + encode_bytes(bytes@.take(i as int)),
        decreases bytes.len() - i,
    {
        let b = bytes[i];
        proof {
            assert(bytes@.take(i + 1).drop_last() == bytes@.take(i as int));
            assert(bytes@.take(i + 1).last() == b);
        }
        if unreserved(b) {
            out.push(b as char);
        } else {
            out.push('%');
            out.push(hex_digit(b / 16));
            out.push(hex_digit(b % 16));
        }
        i += 1;
    }
    assert(bytes@.take(bytes.len() as int) == bytes@);
}

/// The encoded form of `s`, as characters.
pub fn percent_encode_chars(s: &str) -> (r: Vec<char>)
    ensures
        r@ == percent_encoded(s@),
{
    let mut out: Vec<char> = Vec::new();
    percent_encode_into(&mut out, s);
    out
}

/// Percent-encodes `s`.
pub fn percent_encode(s: &str) -> (r: String)
    ensures
        r@ == percent_encoded(s@),
{
    let out = percent_encode_chars(s);
    string_of(&out)
}

/// `String::from_utf8` turns bytes into the text they encode and fails on
/// bytes that are not UTF-8.
#[verifier::external_body]
fn string_from_utf8(bytes: Vec<u8>) -> (r: Option<String>)
    ensures
        r is Some <==> valid_utf8(bytes@),
        r matches Some(s) ==> s@ == decode_utf8(bytes@),
{
    match String::from_utf8(bytes) {
        Ok(text) => Some(text),
        Err(_) => None,
    }
}

/// The value of the hexadecimal digit `c`, if it is one.
pub fn hex_digit_value(c: char) -> (r: Option<u8>)
    ensures
        r == hex_value(c),
{
    if '0' <= c && c <= '9' {
        Some((c as u8) - 0x30)
    } else if 'A' <= c && c <= 'F' {
        Some((c as u8) - 0x37)
    } else if 'a' <= c && c <= 'f' {
        Some((c as u8) - 0x57)
    } else {
        None
    }
}

/// What `decode_chars` gives for `s`, given what it gives for the part of `s`
/// from `i` on and the bytes `done` that the part before `i` stands for.
spec fn decode_with(done: Seq<u8>, rest: Option<Seq<u8>>) -> Option<Seq<u8>> {
    match rest {
        Some(r) => Some(done + r),
        None => None,
    }
}

/// The bytes that the encoded text `v` stands for.
pub fn percent_decode_bytes(v: &Vec<char>) -> (r: Option<Vec<u8>>)
    ensures
        r is Some <==> decode_chars(v@) is Some,
        r matches Some(bytes) ==> decode_chars(v@) == Some(bytes@),
{
    let mut out: Vec<u8> = Vec::new();
    let mut i: usize = 0;
    assert(v@.skip(0) == v@);
    while i < v.len()
        invariant
            i <= v.len(),
            decode_chars(v@) == decode_with(out@, decode_chars(v@.skip(i as int))),
        decreases v.len() - i,
    {
        let c = v[i];
        let ghost tail = v@.skip(i as int);
        assert(tail[0] == c);
        if c == '%' {
            if v.len() - i < 3 {
                return None;
            }
            assert(tail[1] == v@[i + 1]);
            assert(tail[2] == v@[i + 2]);
            match (hex_digit_value(v[i + 1]), hex_digit_value(v[i + 2])) {
                (Some(hi), Some(lo)) => {
                    let b: u8 = hi * 16 + lo;
                    proof {
                        assert(tail.skip(3) == v@.skip(i + 3));
                        let rest = decode_chars(v@.skip(i + 3));
                        if rest is Some {
                            assert(out@.push(b) + rest->0 == out@ + (seq![b] + rest->0));
                        }
                    }
                    out.push(b);
                    i += 3;
                },
                _ => {
                    return None;
                },
            }
        } else if c <= '\u{7f}' {
            proof {
                assert(tail.skip(1) == v@.skip(i + 1));
                let rest = decode_chars(v@.skip(i + 1));
                if rest is Some {
                    assert(out@.push(c as u8) + rest->0 == out@ + (seq![c as u8] + rest->0));
                }
            }
            out.push(c as u8);
            i += 1;
        } else {
            return None;
        }
    }
    assert(v@.skip(v.len() as int) == Seq::<char>::empty());
    assert(out@ + Seq::<u8>::empty() == out@);
    Some(out)
}

/// Decodes the percent-encoded characters `v`.
pub fn percent_decode_chars(v: &Vec<char>) -> (r: Option<String>)
    ensures
        r is Some <==> percent_decoded(v@) is Some,
        r matches Some(t) ==> percent_decoded(v@) == Some(t@),
{
    match percent_decode_bytes(v) {
        Some(bytes) => string_from_utf8(bytes),
        None => None,
    }
}

/// Decodes a percent-encoded text. There is a result exactly when every `%`
/// is followed by two hexadecimal digits, no character lies outside ASCII and
/// the decoded bytes are UTF-8.
pub fn percent_decode(s: &str) -> (r: Option<String>)
    ensures
        r is Some <==> percent_decoded(s@) is Some,
        r matches Some(t) ==> percent_decoded(s@) == Some(t@),
{
    percent_decode_chars(&chars_of(s))
}

} // verus!
