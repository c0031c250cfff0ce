//! Lowercase hexadecimal encoding and decoding of byte strings, as the
//! server stores salts, password hashes and session tokens.

use vstd::prelude::*;
use vstd::utf8::{encode_utf8, is_ascii_chars, is_ascii_chars_encode_utf8};

verus! {

/// Why a hex string could not be decoded.
#[derive(Debug, Clone, Copy, PartialEq, Eq)]
pub enum HexError {
    /// A byte that is not `0-9`, `a-f` or `A-F`, with its position.
    InvalidHexCharacter { c: char, index: usize },
    /// The input has an odd number of bytes.
    OddLength,
    /// The output length does not fit the input (fixed-size decoding only).
    InvalidStringLength,
}

/// The lowercase hex digit of a value below 16.
pub open spec fn hex_digit(n: int) -> char
    recommends
        0 <= n < 16,
{
    if n < 10 {
        (n + 48) as char
    } else {
        (n + 87) as char
    }
}

/// Lowercase hex encoding: each byte becomes its high nibble's digit followed
/// by its low nibble's digit.
pub open spec fn hex_encode_spec(data: Seq<u8>) -> Seq<char> {
    Seq::new(
        2 * data.len(),
        |i: int|
            if i % 2 == 0 {
                hex_digit(data[i / 2] as int / 16)
            } else {
                hex_digit(data[i / 2] as int % 16)
            },
    )
}

/// The value of a hex digit byte (either case), or `None`.
pub open spec fn hex_value(b: u8) -> Option<u8> {
    if 48 <= b <= 57 {
        Some((b - 48) as u8)
    } else if 97 <= b <= 102 {
        Some((b - 87) as u8)
    } else if 65 <= b <= 70 {
        Some((b - 55) as u8)
    } else {
        None
    }
}

/// Whether byte `i` of `data` is not a hex digit.
pub open spec fn is_invalid_at(data: Seq<u8>, i: int) -> bool {
    0 <= i < data.len() && hex_value(data[i]) is None
}

/// The position of the first byte of `data` that is not a hex digit.
pub open spec fn first_invalid(data: Seq<u8>) -> int {
    choose|k: int| is_invalid_at(data, k) && forall|j: int| 0 <= j < k ==> !is_invalid_at(data, j)
}

/// The bytes that an even-length, all-hex-digit input stands for.
pub open spec fn hex_pairs_value(data: Seq<u8>) -> Seq<u8> {
    Seq::new(
        data.len() / 2,
        |i: int| (hex_value(data[2 * i])->0 * 16 + hex_value(data[2 * i + 1])->0) as u8,
    )
}

/// Hex decoding of a byte string: an odd length is refused first, then the
/// first byte that is not a hex digit (either case), else the decoded bytes.
pub open spec fn hex_decode_spec(data: Seq<u8>) -> Result<Seq<u8>, HexError> {
    if data.len() % 2 != 0 {
        Err(HexError::OddLength)
    } else if exists|k: int| is_invalid_at(data, k) {
        let k = first_invalid(data);
        Err(HexError::InvalidHexCharacter { c: data[k] as char, index: k as usize })
    } else {
        Ok(hex_pairs_value(data))
    }
}

/// A decoding result taken by the view of its bytes.
pub open spec fn decoded_view(r: Result<Vec<u8>, HexError>) -> Result<Seq<u8>, HexError> {
    match r {
        Ok(v) => Ok(v@),
        Err(e) => Err(e),
    }
}

/// Whether every character is a lowercase hex digit.
pub open spec fn is_lower_hex(s: Seq<char>) -> bool {
    forall|i: int| 0 <= i < s.len() ==> ('0' <= #[trigger] s[i] <= '9' || 'a' <= s[i] <= 'f')
}

/// Encodes bytes as lowercase hex.
///
/// Calls `hex::encode`, which maps each byte to two characters of the table
/// `0123456789abcdef` (high nibble first); the contract states that result.
#[verifier::external_body]
pub(crate) fn encode_hex(data: &[u8]) -> (res: String)
    ensures
        res@ == hex_encode_spec(data@),
{
    hex::encode(data)
}

/// Decodes hex (either case) into bytes.
///
/// Calls `hex::decode`, which refuses an odd length with `OddLength`, then
/// reads the input two bytes at a time and stops at the first byte that is not
/// a hex digit, reporting it (as the `char` of that byte value) with its
/// position; the contract states that outcome exactly, the error mapped
/// variant for variant onto `HexError`.
#[verifier::external_body]
pub(crate) fn decode_hex(data: &[u8]) -> (res: Result<Vec<u8>, HexError>)
    ensures
        decoded_view(res) == hex_decode_spec(data@),
{
    match hex::decode(data) {
        Ok(v) => Ok(v),
        Err(hex::FromHexError::InvalidHexCharacter { c, index }) => Err(
            HexError::InvalidHexCharacter { c, index },
        ),
        Err(hex::FromHexError::OddLength) => Err(HexError::OddLength),
        Err(hex::FromHexError::InvalidStringLength) => Err(HexError::InvalidStringLength),
    }
}

/// Each hex digit, read back as a byte, has the value it was written for.
pub proof fn lemma_hex_digit_value(n: int)
    requires
        0 <= n < 16,
    ensures
        (hex_digit(n) as u8) < 128,
        hex_value(hex_digit(n) as u8) == Some(n as u8),
        '0' <= hex_digit(n) <= '9' || 'a' <= hex_digit(n) <= 'f',
{
}

/// Encoding writes lowercase hex digits only, two per byte.
pub proof fn lemma_encode_is_lower_hex(data: Seq<u8>)
    ensures
        hex_encode_spec(data).len() == 2 * data.len(),
        is_lower_hex(hex_encode_spec(data)),
        is_ascii_chars(hex_encode_spec(data)),
{
    let s = hex_encode_spec(data);
    assert forall|i: int| 0 <= i < s.len() implies ('0' <= #[trigger] s[i] <= '9' || 'a' <= s[i]
        <= 'f') && '\0' <= s[i] <= '\u{7f}' by {
        if i % 2 == 0 {
            lemma_hex_digit_value(data[i / 2] as int / 16);
        } else {
            lemma_hex_digit_value(data[i / 2] as int % 16);
        }
    }
}

/// The UTF-8 bytes of a hex encoding are its characters, one byte each.
pub proof fn lemma_encode_bytes(data: Seq<u8>)
    ensures
        encode_utf8(hex_encode_spec(data)).len() == 2 * data.len(),
        forall|i: int|
            0 <= i < 2 * data.len() ==> #[trigger] encode_utf8(hex_encode_spec(data))[i]
                == hex_encode_spec(data)[i] as u8,
{
    lemma_encode_is_lower_hex(data);
    is_ascii_chars_encode_utf8(hex_encode_spec(data));
}

/// Different bytes have different encodings.
pub proof fn lemma_encode_injective(a: Seq<u8>, b: Seq<u8>)
    ensures
        hex_encode_spec(a) == hex_encode_spec(b) ==> a == b,
{
    lemma_decode_encode(a);
    lemma_decode_encode(b);
}

/// Decoding the bytes of an encoding gives back the encoded data.
pub proof fn lemma_decode_encode(data: Seq<u8>)
    ensures
        hex_decode_spec(encode_utf8(hex_encode_spec(data))) == Ok::<Seq<u8>, HexError>(data),
{
    let s = hex_encode_spec(data);
    let b = encode_utf8(s);
    lemma_encode_bytes(data);
    assert forall|i: int| 0 <= i < b.len() implies hex_value(#[trigger] b[i])
        == Some((if i % 2 == 0 { data[i / 2] as int / 16 } else { data[i / 2] as int % 16 }) as u8) by {
        if i % 2 == 0 {
            lemma_hex_digit_value(data[i / 2] as int / 16);
        } else {
            lemma_hex_digit_value(data[i / 2] as int % 16);
        }
    }
    assert(!exists|k: int| is_invalid_at(b, k));
    assert forall|i: int| 0 <= i < data.len() implies #[trigger] hex_pairs_value(b)[i] == data[i] by {
        assert(b[2 * i] == s[2 * i] as u8);
        assert(b[2 * i + 1] == s[2 * i + 1] as u8);
        assert((2 * i) / 2 == i);
        assert((2 * i + 1) / 2 == i);
        assert((2 * i) % 2 == 0);
        assert((2 * i + 1) % 2 == 1);
        assert(hex_value(b[2 * i]) == Some((data[i] as int / 16) as u8));
        assert(hex_value(b[2 * i + 1]) == Some((data[i] as int % 16) as u8));
    }
    assert(hex_pairs_value(b) =~= data);
}

} // verus!
