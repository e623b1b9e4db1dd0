//! Hexadecimal text, as the bytes of its characters, and the bytes it spells.

use vstd::prelude::*;

verus! {

/// Why a text is no hexadecimal spelling of a byte string.
#[derive(Debug, Clone, Copy, PartialEq, Eq, Structural)]
pub enum HexError {
    /// The text has an odd number of bytes.
    OddLength,
    /// The byte at `index`, shown as the character `c` with that code, is
    /// no hexadecimal digit, and every byte before it is one.
    InvalidCharacter { c: char, index: usize },
    /// The decoded bytes do not fill a container of fixed size.
    InvalidStringLength,
}

/// Whether `b` is the ASCII code of `0`-`9`, `a`-`f` or `A`-`F`.
pub open spec fn is_hex_digit(b: u8) -> bool {
    ||| 0x30 <= b <= 0x39
    ||| 0x41 <= b <= 0x46
    ||| 0x61 <= b <= 0x66
}

/// The number from 0 to 15 that the digit `b` stands for.
pub open spec fn hex_digit_value(b: u8) -> nat
    recommends
        is_hex_digit(b),
{
    if b <= 0x39 {
        (b - 0x30) as nat
    } else if b <= 0x46 {
        (b - 0x41 + 10) as nat
    } else {
        (b - 0x61 + 10) as nat
    }
}

/// Whether every byte of `text` is a hexadecimal digit.
pub open spec fn all_hex_digits(text: Seq<u8>) -> bool {
    forall|i: int| 0 <= i < text.len() ==> is_hex_digit(#[trigger] text[i])
}

/// Whether `text` spells a byte string: an even number of digits.
pub open spec fn is_hex(text: Seq<u8>) -> bool {
    text.len() % 2 == 0 && all_hex_digits(text)
}

/// The bytes that `text` spells, two digits to the byte, high digit first.
pub open spec fn hex_bytes(text: Seq<u8>) -> Seq<u8>
    recommends
        is_hex(text),
{
    Seq::new(
        text.len() / 2,
        |i: int| (16 * hex_digit_value(text[2 * i]) + hex_digit_value(text[2 * i + 1])) as u8,
    )
}

/// Whether `e` is the reason for which `text` spells no byte string. An odd
/// length is found before a bad digit, and the first bad digit is the one
/// reported.
pub open spec fn hex_failure(text: Seq<u8>, e: HexError) -> bool {
    match e {
        HexError::OddLength => text.len() % 2 == 1,
        HexError::InvalidCharacter { c, index } => {
            &&& text.len() % 2 == 0
            &&& index < text.len()
            &&& !is_hex_digit(text[index as int])
            &&& c == text[index as int] as char
            &&& all_hex_digits(text.take(index as int))
        },
        HexError::InvalidStringLength => false,
    }
}

/// The lower-case digit for a number below 16.
pub open spec fn hex_digit_char(n: nat) -> char
    recommends
        n < 16,
{
    if n < 10 {
        (0x30 + n) as u8 as char
    } else {
        (0x61 + n - 10) as u8 as char
    }
}

/// The lower-case hexadecimal spelling of `bytes`, two digits to the byte,
/// high digit first.
pub open spec fn hex_string(bytes: Seq<u8>) -> Seq<char> {
    Seq::new(
        2 * bytes.len(),
        |i: int|
            if i % 2 == 0 {
                hex_digit_char((bytes[i / 2] / 16) as nat)
            } else {
                hex_digit_char((bytes[i / 2] % 16) as nat)
            },
    )
}

/// Decodes hexadecimal text with `hex::decode`.
///
/// The contract restates that function: a text of odd length is refused first;
/// else the first byte that is no digit of either case is refused, with its
/// position; else the bytes come back, one for each pair of digits.
#[verifier::external_body]
pub(crate) fn hex_decode(text: &[u8]) -> (r: Result<Vec<u8>, HexError>)
    ensures
        r is Ok <==> is_hex(text@),
        r matches Ok(bytes) ==> bytes@ == hex_bytes(text@),
        r matches Err(e) ==> hex_failure(text@, e),
{
    match hex::decode(text) {
        Ok(bytes) => Ok(bytes),
        Err(hex::FromHexError::OddLength) => Err(HexError::OddLength),
        Err(hex::FromHexError::InvalidHexCharacter { c, index }) => Err(
            HexError::InvalidCharacter { c, index },
        ),
        Err(hex::FromHexError::InvalidStringLength) => Err(HexError::InvalidStringLength),
    }
}

/// Spells bytes in hexadecimal with `hex::encode`: lower-case digits, two to
/// the byte, the high one first.
#[verifier::external_body]
pub(crate) fn hex_encode(bytes: &[u8]) -> (s: String)
    ensures
        s@ == hex_string(bytes@),
{
    hex::encode(bytes)
}

/// What the `Display` of `hex::FromHexError` writes for a byte that is no
/// digit: the words `Invalid character`, the character `c` as `Debug` shows
/// it, the words `at position`, and `index` in decimal.
pub uninterp spec fn invalid_character_account(c: char, index: nat) -> Seq<char>;

/// The account of a failure, in the words of the `hex` crate.
pub open spec fn hex_error_text(e: HexError) -> Seq<char> {
    match e {
        HexError::OddLength => "Odd number of digits"@,
        HexError::InvalidCharacter { c, index } => invalid_character_account(c, index as nat),
        HexError::InvalidStringLength => "Invalid string length"@,
    }
}

/// Writes the account of a failure with the `Display` of `hex::FromHexError`.
///
/// The failure is put back into the crate's own type and formatted. For the
/// two failures without fields the text is a fixed one; for a bad character
/// it is named, since it goes through the `Debug` of `char`.
#[verifier::external_body]
pub(crate) fn hex_error_account(e: HexError) -> (s: String)
    ensures
        e is OddLength ==> s@ == "Odd number of digits"@,
        e is InvalidStringLength ==> s@ == "Invalid string length"@,
        e matches HexError::InvalidCharacter { c, index } ==> s@ == invalid_character_account(
            c,
            index as nat,
        ),
{
    let outside = match e {
        HexError::OddLength => hex::FromHexError::OddLength,
        HexError::InvalidCharacter { c, index } => hex::FromHexError::InvalidHexCharacter {
            c,
            index,
        },
        HexError::InvalidStringLength => hex::FromHexError::InvalidStringLength,
    };
    outside.to_string()
}

/// The digits of a lower-case spelling, as bytes.
pub open spec fn hex_string_bytes(bytes: Seq<u8>) -> Seq<u8> {
    Seq::new(2 * bytes.len(), |i: int| hex_string(bytes)[i] as u8)
}

/// Spelling bytes and reading the spelling gives the bytes back.
pub proof fn lemma_hex_round_trip(bytes: Seq<u8>)
    ensures
        is_hex(hex_string_bytes(bytes)),
        hex_bytes(hex_string_bytes(bytes)) == bytes,
{
    let text = hex_string_bytes(bytes);
    assert forall|i: int| 0 <= i < text.len() implies is_hex_digit(#[trigger] text[i]) by {
        let b = bytes[i / 2];
        lemma_digit_char_round_trip((b / 16) as nat);
        lemma_digit_char_round_trip((b % 16) as nat);
    }
    assert forall|k: int| 0 <= k < bytes.len() implies hex_bytes(text)[k] == bytes[k] by {
        let b = bytes[k];
        lemma_digit_char_round_trip((b / 16) as nat);
        lemma_digit_char_round_trip((b % 16) as nat);
        assert((2 * k) / 2 == k && (2 * k) % 2 == 0);
        assert((2 * k + 1) / 2 == k && (2 * k + 1) % 2 == 1);
        assert(text[2 * k] == hex_digit_char((b / 16) as nat) as u8);
        assert(text[2 * k + 1] == hex_digit_char((b % 16) as nat) as u8);
    }
    assert(hex_bytes(text) =~= bytes);
}

/// A digit character, as a byte, is a digit that stands for its number, and
/// it is an ASCII character.
pub proof fn lemma_digit_char_round_trip(n: nat)
    requires
        n < 16,
    ensures
        is_hex_digit(hex_digit_char(n) as u8),
        hex_digit_value(hex_digit_char(n) as u8) == n,
        (hex_digit_char(n) as u32) < 128,
{
}

} // verus!
