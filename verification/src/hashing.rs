use vstd::prelude::*;
use vstd::string::*;

verus! {

/// The 32-byte digest that SHA-256 assigns to a byte string. The digest is
/// a function of the input bytes alone; nothing further is assumed of it.
pub uninterp spec fn sha256_of(bytes: Seq<u8>) -> Seq<u8>;

/// Relies on sha2::Sha256::digest: the digest depends on the input bytes
/// alone and is always exactly 32 bytes long.
#[verifier::external_body]
pub(crate) fn sha256(data: &[u8]) -> (r: Vec<u8>)
    ensures
        r@ == sha256_of(data@),
        r@.len() == 32,
{
    <sha2::Sha256 as sha2::Digest>::digest(data).to_vec()
}

/// Why decoding a hex text failed, mirroring the cases of
/// `hex::FromHexError`.
#[derive(Clone, Copy, Debug, PartialEq, Eq)]
pub enum HexError {
    /// A digit outside `0..9`, `a..f`, `A..F`, at the given byte index.
    InvalidHexCharacter { c: char, index: usize },
    /// The text has an odd number of digits.
    OddLength,
    /// The text's digit count does not fit the fixed output size.
    InvalidStringLength,
}

pub open spec fn is_hex_digit(b: u8) -> bool {
    (48 <= b && b <= 57) || (97 <= b && b <= 102) || (65 <= b && b <= 70)
}

/// The numeric value of a hex digit (lower or upper case).
pub open spec fn hex_digit_value(b: u8) -> u8 {
    if 48 <= b && b <= 57 {
        (b - 48) as u8
    } else if 97 <= b && b <= 102 {
        (b - 97 + 10) as u8
    } else {
        (b - 65 + 10) as u8
    }
}

pub open spec fn all_hex_digits(text: Seq<u8>) -> bool {
    forall|i: int| 0 <= i < text.len() ==> is_hex_digit(text[i])
}

/// The byte string that a well-formed hex text denotes: each pair of
/// digits, high digit first, gives one byte.
pub open spec fn hex_bytes_of(text: Seq<u8>) -> Seq<u8> {
    Seq::new(
        (text.len() / 2) as nat,
        |i: int| (hex_digit_value(text[2 * i]) * 16 + hex_digit_value(text[2 * i + 1])) as u8,
    )
}

/// The index of the first byte that is not a hex digit (the text's length
/// if every byte is one).
pub open spec fn first_non_hex(text: Seq<u8>) -> int
    decreases text.len(),
{
    if text.len() == 0 {
        0
    } else if !is_hex_digit(text[0]) {
        0
    } else {
        1 + first_non_hex(text.drop_first())
    }
}

/// The outcome of decoding a hex text into a 32-byte buffer: the length
/// checks come first, then the digits are read in order, so a malformed
/// digit is reported at the first offending index.
pub open spec fn hex32_error(text: Seq<u8>) -> Option<HexError> {
    if text.len() % 2 != 0 {
        Some(HexError::OddLength)
    } else if text.len() != 64 {
        Some(HexError::InvalidStringLength)
    } else if !all_hex_digits(text) {
        Some(
            HexError::InvalidHexCharacter {
                c: text[first_non_hex(text)] as char,
                index: first_non_hex(text) as usize,
            },
        )
    } else {
        None
    }
}

/// Relies on hex::decode_to_slice: decodes a 64-digit hex text into 32
/// bytes; rejects a text of the wrong length, or one with a byte that is
/// no hex digit, naming the first such byte.
#[verifier::external_body]
pub(crate) fn hex_decode_32(text: &str) -> (r: Result<Vec<u8>, HexError>)
    ensures
        match r {
            Ok(v) => hex32_error(text.spec_bytes()) is None && v@ == hex_bytes_of(
                text.spec_bytes(),
            ),
            Err(e) => Some(e) == hex32_error(text.spec_bytes()),
        },
{
    let mut buf = [0u8; 32];
    match hex::decode_to_slice(text, &mut buf) {
        Ok(()) => Ok(buf.to_vec()),
        Err(hex::FromHexError::InvalidHexCharacter { c, index }) => {
            Err(HexError::InvalidHexCharacter { c, index })
        },
        Err(hex::FromHexError::OddLength) => Err(HexError::OddLength),
        Err(hex::FromHexError::InvalidStringLength) => Err(HexError::InvalidStringLength),
    }
}

/// A well-formed hex text for a 32-byte value: 64 digits, all valid.
pub open spec fn valid_hex_32(text: Seq<u8>) -> bool {
    text.len() == 64 && all_hex_digits(text)
}

} // verus!
