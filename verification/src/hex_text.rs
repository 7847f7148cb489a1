//! Hexadecimal text.

use vstd::prelude::*;

use crate::text::{ascii_lower, same_ignoring_case};

verus! {

/// The lower-case digit of a value below 16.
pub open spec fn hex_digit(value: int) -> char {
    if value < 10 {
        ('0' as u32 + value) as char
    } else {
        ('a' as u32 + (value - 10)) as char
    }
}

/// The value of a digit of either case.
pub open spec fn hex_value(c: char) -> Option<int> {
    if '0' <= c <= '9' {
        Some(c as u32 - '0' as u32)
    } else if 'a' <= c <= 'f' {
        Some(c as u32 - 'a' as u32 + 10)
    } else if 'A' <= c <= 'F' {
        Some(c as u32 - 'A' as u32 + 10)
    } else {
        None
    }
}

/// Text made of hexadecimal digits alone.
pub open spec fn is_hex(s: Seq<char>) -> bool {
    forall|i: int| 0 <= i < s.len() ==> hex_value(#[trigger] s[i]) is Some
}

/// Two lower-case digits for each byte, the high half first.
pub open spec fn hex_encode(bytes: Seq<u8>) -> Seq<char> {
    Seq::new(
        2 * bytes.len(),
        |i: int| hex_digit(if i % 2 == 0 { bytes[i / 2] as int / 16 } else { bytes[i / 2] as int % 16 }),
    )
}

/// The bytes whose digits `s` lists.
pub open spec fn hex_decode(s: Seq<char>) -> Seq<u8> {
    Seq::new(
        s.len() / 2,
        |i: int| (16 * hex_value(s[2 * i])->0 + hex_value(s[2 * i + 1])->0) as u8,
    )
}

/// The 32 bytes that 64 hexadecimal digits of either case denote.
pub open spec fn hex_32(s: Seq<char>) -> Option<Seq<u8>> {
    if s.len() == 64 && is_hex(s) {
        Some(hex_decode(s))
    } else {
        None
    }
}

/// `hex::encode`: two lower-case digits for each byte, the high half first.
#[verifier::external_body]
fn encode_bytes(bytes: &[u8]) -> (text: String)
    ensures
        text@ == hex_encode(bytes@),
{
    hex::encode(bytes)
}

/// The lower-case digits of the bytes.
pub fn hex_text(bytes: &[u8]) -> (text: String)
    ensures
        text@ == hex_encode(bytes@),
{
    encode_bytes(bytes)
}

/// A digit denotes the value that it was written for.
pub proof fn lemma_digit_value(value: int)
    requires
        0 <= value < 16,
    ensures
        hex_value(hex_digit(value)) == Some(value),
{
}

/// Encoded bytes are digits and decode to themselves.
pub proof fn lemma_encode_decode(bytes: Seq<u8>)
    ensures
        hex_encode(bytes).len() == 2 * bytes.len(),
        is_hex(hex_encode(bytes)),
        hex_decode(hex_encode(bytes)) == bytes,
{
    let s = hex_encode(bytes);
    assert forall|i: int| 0 <= i < s.len() implies hex_value(#[trigger] s[i]) is Some by {
        let b = bytes[i / 2] as int;
        lemma_digit_value(b / 16);
        lemma_digit_value(b % 16);
    }
    assert forall|i: int| 0 <= i < bytes.len() implies #[trigger] hex_decode(s)[i] == bytes[i] by {
        let b = bytes[i] as int;
        lemma_digit_value(b / 16);
        lemma_digit_value(b % 16);
        assert((2 * i) / 2 == i && (2 * i + 1) / 2 == i);
        assert(s[2 * i] == hex_digit(b / 16));
        assert(s[2 * i + 1] == hex_digit(b % 16));
    }
    assert(hex_decode(s) =~= bytes);
}

/// The case of its digits does not change what hexadecimal text denotes.
pub proof fn lemma_hex_ignores_case(a: Seq<char>, b: Seq<char>)
    requires
        same_ignoring_case(a, b),
    ensures
        is_hex(a) == is_hex(b),
        hex_32(a) == hex_32(b),
{
    assert forall|i: int| 0 <= i < a.len() implies hex_value(#[trigger] a[i]) == hex_value(b[i]) by {
        lemma_value_ignores_case(a[i]);
        lemma_value_ignores_case(b[i]);
    }
    assert forall|i: int| is_hex(a) && 0 <= i < b.len() implies hex_value(#[trigger] b[i])
        is Some by {
        assert(hex_value(a[i]) is Some);
    }
    assert forall|i: int| is_hex(b) && 0 <= i < a.len() implies hex_value(#[trigger] a[i])
        is Some by {
        assert(hex_value(b[i]) is Some);
    }
    assert(hex_decode(a) =~= hex_decode(b));
}

proof fn lemma_value_ignores_case(c: char)
    ensures
        hex_value(ascii_lower(c)) == hex_value(c),
{
}

} // verus!
