//! Elements of the scalar field of BN254, and their hexadecimal spelling.

use crate::hexadecimal::{
    hex_bytes, hex_decode, hex_encode, hex_failure, hex_string, is_hex, HexError,
};
use crate::radix::{
    be_digits, be_value, lemma_be_digits_of_value, lemma_be_value_injective,
    lemma_be_value_zero_iff, zeros,
};
use ark_ff::BigInteger;
use ark_ff::PrimeField;
use vstd::prelude::*;
use vstd::slice::slice_to_vec;
use vstd::string::*;

verus! {

/// The number of bytes in the canonical spelling of a field element.
pub const FIELD_BYTES: usize = 32;

/// The order of the field: the prime `r` of BN254.
pub open spec fn fr_modulus() -> nat {
    21888242871839275222246405745257275088548364400416034343698204186575808495617nat
}

/// An element of the field, held as the 32 big-endian bytes of the one number
/// below the modulus that stands for it.
#[derive(Debug, Clone, Copy, PartialEq, Eq)]
pub struct FieldElement {
    pub(crate) bytes: [u8; 32],
}

impl View for FieldElement {
    type V = nat;

    /// The number below the modulus that stands for the element.
    closed spec fn view(&self) -> nat {
        be_value(self.bytes@)
    }
}

/// Reduces a big-endian number into the field with
/// `ark_ff::PrimeField::from_be_bytes_mod_order`, and spells the element with
/// `into_bigint` and `to_bytes_be`.
///
/// The first reads the bytes as a big-endian integer and reduces it by the
/// modulus; the second gives the integer from 0 to `r - 1` that stands for
/// the element; the third spells its four limbs in 32 big-endian bytes.
#[verifier::external_body]
fn reduce_be(bytes: &[u8]) -> (out: [u8; 32])
    ensures
        be_value(out@) == be_value(bytes@) % fr_modulus(),
{
    let spelled = ark_bn254::Fr::from_be_bytes_mod_order(bytes).into_bigint().to_bytes_be();
    let mut out = [0u8; 32];
    out.copy_from_slice(&spelled);
    out
}

impl FieldElement {
    #[verifier::type_invariant]
    spec fn canonical(self) -> bool {
        be_value(self.bytes@) < fr_modulus()
    }

    /// An element is known by its number: two elements with one number are
    /// the same element.
    pub proof fn lemma_number_tells_element(self, other: FieldElement)
        requires
            self@ == other@,
        ensures
            self == other,
    {
        lemma_be_value_injective(self.bytes@, other.bytes@);
        assert(self.bytes == other.bytes);
    }

    /// The element of the big-endian number `bytes`, reduced by the modulus.
    pub fn from_be_bytes_mod_order(bytes: &[u8]) -> (f: FieldElement)
        ensures
            f@ == be_value(bytes@) % fr_modulus(),
    {
        FieldElement { bytes: reduce_be(bytes) }
    }

    /// The 32 big-endian bytes of the element's number.
    pub fn to_be_bytes(&self) -> (out: [u8; 32])
        ensures
            out@ == be_digits(self@, 32),
            self@ < fr_modulus(),
    {
        proof {
            use_type_invariant(self);
            lemma_be_digits_of_value(self.bytes@);
        }
        self.bytes
    }

    /// Whether the element is the zero of the field.
    pub fn is_zero(&self) -> (zero: bool)
        ensures
            zero == (self@ == 0),
    {
        let mut i: usize = 0;
        while i < FIELD_BYTES
            invariant
                i <= FIELD_BYTES,
                forall|j: int| 0 <= j < i ==> self.bytes@[j] == 0,
            decreases FIELD_BYTES - i,
        {
            if self.bytes[i] != 0 {
                proof {
                    lemma_be_value_zero_iff(self.bytes@);
                    assert(zeros(32)[i as int] == 0);
                }
                return false;
            }
            i += 1;
        }
        proof {
            lemma_be_value_zero_iff(self.bytes@);
            assert(self.bytes@ =~= zeros(32));
        }
        true
    }
}

/// `text` without one leading `0x`, if it has one.
pub open spec fn strip_prefix(text: Seq<u8>) -> Seq<u8> {
    if text.len() >= 2 && text[0] == 0x30 && text[1] == 0x78 {
        text.skip(2)
    } else {
        text
    }
}

/// `bytes` in 32 bytes: zero bytes in front of fewer, the last 32 of more.
pub open spec fn low_order_32(bytes: Seq<u8>) -> Seq<u8> {
    if bytes.len() < 32 {
        zeros((32 - bytes.len()) as nat) + bytes
    } else {
        bytes.skip(bytes.len() - 32)
    }
}

/// The number of the field element that the hexadecimal `text` spells, if it
/// spells one: an optional `0x`, then an even number of digits, read as a
/// big-endian number of which the low-order 32 bytes count, reduced by the
/// modulus.
pub open spec fn hex_field(text: Seq<u8>) -> Option<nat> {
    let digits = strip_prefix(text);
    if is_hex(digits) {
        Some(be_value(low_order_32(hex_bytes(digits))) % fr_modulus())
    } else {
        None
    }
}

/// The spelling of the element with number `value`: `0x` and the 64
/// lower-case digits of its 32 big-endian bytes.
pub open spec fn field_hex(value: nat) -> Seq<char> {
    seq!['0', 'x'] + hex_string(be_digits(value, 32))
}

fn without_prefix(text: &[u8]) -> (digits: &[u8])
    ensures
        digits@ == strip_prefix(text@),
{
    let n: usize = text.len();
    if n >= 2 && text[0] == 0x30 && text[1] == 0x78 {
        let rest = &text[2..n];
        assert(rest@ =~= text@.skip(2));
        rest
    } else {
        text
    }
}

/// Brings a byte string to the width of a field element, keeping its
/// low-order end.
pub fn normalize_width(bytes: &[u8]) -> (out: Vec<u8>)
    ensures
        out@ == low_order_32(bytes@),
{
    let n: usize = bytes.len();
    if n < FIELD_BYTES {
        let pad: usize = FIELD_BYTES - n;
        let mut out: Vec<u8> = vec![0u8; pad];
        out.extend_from_slice(bytes);
        assert(out@ =~= low_order_32(bytes@));
        out
    } else {
        let tail = &bytes[n - FIELD_BYTES..n];
        assert(tail@ =~= low_order_32(bytes@));
        slice_to_vec(tail)
    }
}

/// Reads a field element from hexadecimal text.
///
/// One leading `0x` is optional. Text that is no even number of digits is
/// refused with the reason. A spelling of fewer than 32 bytes is padded with
/// zero bytes in front; of a longer one only the last 32 bytes count. The
/// number is reduced by the modulus, so no spelling is out of range.
pub fn fr_from_hex(hex_str: &str) -> (r: Result<FieldElement, HexError>)
    ensures
        r is Ok <==> hex_field(hex_str.spec_bytes()) is Some,
        r matches Ok(f) ==> hex_field(hex_str.spec_bytes()) == Some(f@),
        r matches Err(e) ==> hex_failure(strip_prefix(hex_str.spec_bytes()), e),
{
    let digits = without_prefix(hex_str.as_bytes());
    match hex_decode(digits) {
        Ok(bytes) => {
            let word = normalize_width(bytes.as_slice());
            Ok(FieldElement::from_be_bytes_mod_order(word.as_slice()))
        },
        Err(e) => Err(e),
    }
}

/// Spells a field element: `0x` and 64 lower-case hexadecimal digits, the
/// most significant byte first.
pub fn fr_to_hex(fr: &FieldElement) -> (s: String)
    ensures
        s@ == field_hex(fr@),
        fr@ < fr_modulus(),
{
    let digits = hex_encode(fr.bytes.as_slice());
    let mut s = String::from_str("0x");
    s.append(digits.as_str());
    proof {
        use_type_invariant(fr);
        reveal_strlit("0x");
        lemma_be_digits_of_value(fr.bytes@);
        assert(s@ =~= field_hex(fr@));
    }
    s
}

} // verus!
