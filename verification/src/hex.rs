//! Hexadecimal text for byte strings.
//!
//! All binary values on the wire (keys, hashes, preimages, seed material) are
//! written as lowercase hexadecimal text. This module says what that text is,
//! and holds the calls into `hex_conservative` that produce and read it.

use hex_conservative::DisplayHex;
use hex_conservative::FromHex;
use vstd::prelude::*;

verus! {

/// The lowercase digit that stands for a value from 0 to 15.
pub open spec fn digit(v: int) -> char {
    if v < 10 {
        ('0' as int + v) as char
    } else {
        ('a' as int + (v - 10)) as char
    }
}

/// The value of a hexadecimal digit of either case; `None` for any other
/// character.
pub open spec fn digit_value(c: char) -> Option<int> {
    if '0' <= c && c <= '9' {
        Some(c as int - '0' as int)
    } else if 'a' <= c && c <= 'f' {
        Some(c as int - 'a' as int + 10)
    } else if 'A' <= c && c <= 'F' {
        Some(c as int - 'A' as int + 10)
    } else {
        None
    }
}

/// The lowercase hexadecimal text of `bytes`: two digits for each byte, the
/// high half first.
pub open spec fn encoded(bytes: Seq<u8>) -> Seq<char> {
    Seq::new(
        2 * bytes.len(),
        |i: int|
            if i % 2 == 0 {
                digit(bytes[i / 2] as int / 16)
            } else {
                digit(bytes[i / 2] as int % 16)
            },
    )
}

/// Whether every character of `text` is a hexadecimal digit.
pub open spec fn all_digits(text: Seq<char>) -> bool {
    forall|i: int| 0 <= i < text.len() ==> (#[trigger] digit_value(text[i])) is Some
}

/// The byte that the two digits at `2 * i` and `2 * i + 1` of `text` stand for.
pub open spec fn byte_at(text: Seq<char>, i: int) -> u8 {
    (16 * digit_value(text[2 * i]).unwrap() + digit_value(text[2 * i + 1]).unwrap()) as u8
}

/// The bytes that `text` stands for, if it is exactly `2 * n` hexadecimal
/// digits; `None` for a text of another length or with another character.
pub open spec fn decoded(text: Seq<char>, n: nat) -> Option<Seq<u8>> {
    if text.len() == 2 * n && all_digits(text) {
        Some(Seq::new(n, |i: int| byte_at(text, i)))
    } else {
        None
    }
}

/// `DisplayHex::to_lower_hex_string` of `hex_conservative`, on a byte slice:
/// the text holds, for each byte in order, the digit of its high half and the
/// digit of its low half, both from the lowercase table.
#[verifier::external_body]
fn lower_hex_string(bytes: &[u8]) -> (text: String)
    ensures
        text@ == encoded(bytes@),
{
    bytes.to_lower_hex_string()
}

/// `FromHex::from_hex` of `hex_conservative`, for an array of `N` bytes: it
/// fails unless the text is `2 * N` bytes long and each of them is a
/// hexadecimal digit of either case; else each pair of digits gives one byte,
/// the high half first.
#[verifier::external_body]
fn array_from_hex<const N: usize>(text: &str) -> (r: Option<[u8; N]>)
    requires
        2 * N <= usize::MAX,
    ensures
        r matches Some(a) ==> decoded(text@, N as nat) == Some(a@),
        r is None ==> decoded(text@, N as nat) is None,
{
    match <[u8; N]>::from_hex(text) {
        Ok(a) => Some(a),
        Err(_) => None,
    }
}

/// Writes `bytes` as lowercase hexadecimal text.
pub fn encode(bytes: &[u8]) -> (text: String)
    ensures
        text@ == encoded(bytes@),
{
    lower_hex_string(bytes)
}

/// Reads the 32 bytes that 64 hexadecimal digits stand for.
pub fn decode_32(text: &str) -> (r: Option<[u8; 32]>)
    ensures
        r matches Some(a) ==> decoded(text@, 32) == Some(a@),
        r is None ==> decoded(text@, 32) is None,
{
    array_from_hex::<32>(text)
}

/// Reads the 64 bytes that 128 hexadecimal digits stand for.
pub fn decode_64(text: &str) -> (r: Option<[u8; 64]>)
    ensures
        r matches Some(a) ==> decoded(text@, 64) == Some(a@),
        r is None ==> decoded(text@, 64) is None,
{
    array_from_hex::<64>(text)
}

/// Each digit stands for the value it was chosen for.
pub proof fn lemma_digit_value(v: int)
    requires
        0 <= v < 16,
    ensures
        digit_value(digit(v)) == Some(v),
{
}

/// Encoded text is twice as long as the bytes and holds digits only.
pub proof fn lemma_encoded_is_hex(bytes: Seq<u8>)
    ensures
        encoded(bytes).len() == 2 * bytes.len(),
        all_digits(encoded(bytes)),
{
    let text = encoded(bytes);
    assert forall|i: int| 0 <= i < text.len() implies (#[trigger] digit_value(text[i])) is Some by {
        let b = bytes[i / 2] as int;
        lemma_digit_value(b / 16);
        lemma_digit_value(b % 16);
    }
}

/// Decoding what was encoded gives the bytes back.
pub proof fn lemma_decode_encoded(bytes: Seq<u8>)
    ensures
        decoded(encoded(bytes), bytes.len()) == Some(bytes),
{
    let text = encoded(bytes);
    lemma_encoded_is_hex(bytes);
    let back = Seq::new(bytes.len(), |i: int| byte_at(text, i));
    assert forall|i: int| 0 <= i < bytes.len() implies back[i] == bytes[i] by {
        let b = bytes[i] as int;
        lemma_digit_value(b / 16);
        lemma_digit_value(b % 16);
        assert(text[2 * i] == digit(b / 16));
        assert(text[2 * i + 1] == digit(b % 16));
    }
    assert(back =~= bytes);
}

/// Different byte strings have different text.
pub proof fn lemma_encoded_injective(a: Seq<u8>, b: Seq<u8>)
    requires
        encoded(a) == encoded(b),
    ensures
        a == b,
{
    lemma_decode_encoded(a);
    lemma_decode_encoded(b);
    lemma_encoded_is_hex(a);
    lemma_encoded_is_hex(b);
}

} // verus!
