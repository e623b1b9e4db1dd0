//! Proofs and proof values, and the buffers that they are read from.

use crate::error::{
    BridgeError, ProofDecodeError, ProofDecodeFailure, ProofDecodeKind, Request,
};
use crate::field::{fr_modulus, FieldElement};
use crate::radix::le_value;
use ark_bn254::{Bn254, Fr};
use ark_ff::{BigInteger, PrimeField};
use ark_serialize::{CanonicalDeserialize, SerializationError};
use std::io::Cursor;
use vstd::prelude::*;
use vstd::slice::slice_to_vec;

verus! {

/// The length of a Groth16 proof over BN254 in compressed form: a point of
/// G1 in 32 bytes, a point of G2 in 64, a point of G1 in 32.
pub const PROOF_BYTES: usize = 128;

/// The length of five field elements, 32 bytes each.
pub const PROOF_VALUES_BYTES: usize = 160;

/// A Groth16 proof, held as the 128 bytes of its compressed form that the
/// decoder accepted.
#[derive(Debug, PartialEq, Eq)]
pub struct Proof {
    pub(crate) encoded: Vec<u8>,
}

impl View for Proof {
    type V = Seq<u8>;

    closed spec fn view(&self) -> Seq<u8> {
        self.encoded@
    }
}

/// Whether `bytes` are a proof and nothing more: the decoder reads a proof
/// from them and takes them all.
pub open spec fn is_proof(bytes: Seq<u8>) -> bool {
    bytes.len() == PROOF_BYTES && proof_decoding(bytes) == Ok::<nat, ProofDecodeFailure>(
        PROOF_BYTES as nat,
    )
}

impl Proof {
    #[verifier::type_invariant]
    spec fn accepted(self) -> bool {
        is_proof(self.encoded@)
    }

    /// The bytes of the proof.
    pub fn as_bytes(&self) -> (bytes: &[u8])
        ensures
            bytes@ == self@,
            is_proof(bytes@),
    {
        proof {
            use_type_invariant(self);
        }
        self.encoded.as_slice()
    }
}

/// The public values that an RLN proof speaks of.
#[derive(Debug, Clone, Copy, PartialEq, Eq)]
pub struct ProofValues {
    /// The first coordinate of the share.
    pub x: FieldElement,
    /// The second coordinate of the share.
    pub y: FieldElement,
    /// The epoch that the proof was made for.
    pub external_nullifier: FieldElement,
    /// The root of the membership tree.
    pub root: FieldElement,
    /// The tag that tells a second proof in one epoch.
    pub nullifier: FieldElement,
}

/// The numbers of five proof values.
pub struct ProofValuesView {
    pub x: nat,
    pub y: nat,
    pub external_nullifier: nat,
    pub root: nat,
    pub nullifier: nat,
}

impl View for ProofValues {
    type V = ProofValuesView;

    open spec fn view(&self) -> ProofValuesView {
        ProofValuesView {
            x: self.x@,
            y: self.y@,
            external_nullifier: self.external_nullifier@,
            root: self.root@,
            nullifier: self.nullifier@,
        }
    }
}

/// What `ark_groth16::Proof::<Bn254>::deserialize_compressed` makes of a
/// buffer: the number of bytes that it read where it found a proof at the
/// front, and the failure, with the account that its `Display` gives, where
/// it found none.
pub uninterp spec fn proof_decoding(bytes: Seq<u8>) -> Result<nat, ProofDecodeFailure>;

/// The outcome of a run of the decoder, with the count as a number and the
/// account as text.
pub open spec fn decoding_of(r: Result<usize, ProofDecodeError>) -> Result<
    nat,
    ProofDecodeFailure,
> {
    match r {
        Ok(n) => Ok(n as nat),
        Err(e) => Err(e@),
    }
}

/// The account of a failure of a kind that has one account only.
pub open spec fn fixed_account(kind: ProofDecodeKind) -> Option<Seq<char>> {
    match kind {
        ProofDecodeKind::NotEnoughSpace => Some(
            "the last byte does not have enough space to encode the extra info bits"@,
        ),
        ProofDecodeKind::InvalidData => Some("the input buffer contained invalid data"@),
        ProofDecodeKind::UnexpectedFlags => Some("the call expects empty flags"@),
        ProofDecodeKind::Io => None,
    }
}

/// Reads a proof from the front of a buffer with
/// `ark_groth16::Proof::<Bn254>::deserialize_compressed`, and says how far it
/// read; a failure comes with the text of its `Display`.
///
/// The decoder reads two points of G1 and one of G2, each coordinate in 32
/// bytes, checks each point, and stops: where it succeeds it has read 128
/// bytes, so the buffer holds that many, and it has looked at no byte behind
/// them, so it reads the same proof from those 128 bytes alone. Three of the
/// four kinds of failure have a fixed account; the account of the fourth is
/// that of the reader's own error.
#[verifier::external_body]
fn groth16_decode(bytes: &[u8]) -> (r: Result<usize, ProofDecodeError>)
    ensures
        proof_decoding(bytes@) == decoding_of(r),
        r matches Ok(n) ==> n == PROOF_BYTES && n <= bytes@.len(),
        r matches Ok(n) ==> proof_decoding(bytes@.take(n as int)) == decoding_of(r),
        r matches Err(e) ==> (fixed_account(e.kind) matches Some(text) ==> e.account@ == text),
{
    let mut cursor = Cursor::new(bytes);
    match ark_groth16::Proof::<Bn254>::deserialize_compressed(&mut cursor) {
        Ok(_) => Ok(cursor.position() as usize),
        Err(e) => {
            let account = e.to_string();
            let kind = match e {
                SerializationError::NotEnoughSpace => ProofDecodeKind::NotEnoughSpace,
                SerializationError::InvalidData => ProofDecodeKind::InvalidData,
                SerializationError::UnexpectedFlags => ProofDecodeKind::UnexpectedFlags,
                SerializationError::IoError(_) => ProofDecodeKind::Io,
            };
            Err(ProofDecodeError { kind, account })
        },
    }
}

/// The field element at place `k` of a buffer of 32-byte little-endian
/// numbers: the number, reduced by the modulus.
pub open spec fn le_field_at(bytes: Seq<u8>, k: int) -> nat {
    le_value(bytes.subrange(32 * k, 32 * k + 32)) % fr_modulus()
}

/// The proof values at the front of a buffer of at least 160 bytes: the root,
/// the epoch, the share's two coordinates and the nullifier, in this order.
pub open spec fn proof_values_of(bytes: Seq<u8>) -> ProofValuesView {
    ProofValuesView {
        root: le_field_at(bytes, 0),
        external_nullifier: le_field_at(bytes, 1),
        x: le_field_at(bytes, 2),
        y: le_field_at(bytes, 3),
        nullifier: le_field_at(bytes, 4),
    }
}

/// Reads five field elements with `rln::protocol::deserialize_proof_values`.
///
/// That function takes 32 bytes at a time from the front of the buffer, reads
/// each as a little-endian number reduced by the modulus, and names them
/// root, epoch, `x`, `y` and nullifier; it reports the 160 bytes as read. On a
/// shorter buffer it does not return. Each element is handed on as the 32
/// big-endian bytes of the integer below the modulus that stands for it
/// (`into_bigint`, `to_bytes_be`).
#[verifier::external_body]
fn rln_proof_values(bytes: &[u8]) -> (out: (ProofValues, usize))
    requires
        bytes@.len() >= PROOF_VALUES_BYTES,
    ensures
        out.0@ == proof_values_of(bytes@),
        out.1 == PROOF_VALUES_BYTES,
{
    let (v, read) = rln::protocol::deserialize_proof_values(bytes);
    let plain = |f: Fr| FieldElement { bytes: f.into_bigint().to_bytes_be().try_into().unwrap() };
    let values = ProofValues {
        x: plain(v.x),
        y: plain(v.y),
        external_nullifier: plain(v.external_nullifier),
        root: plain(v.root),
        nullifier: plain(v.nullifier),
    };
    (values, read)
}

/// Whether `e` is the failure with which the decoder refuses `bytes`.
pub open spec fn decode_failure(bytes: Seq<u8>, e: ProofDecodeError) -> bool {
    &&& proof_decoding(bytes) == Err::<nat, ProofDecodeFailure>(e@)
    &&& fixed_account(e.kind) matches Some(text) ==> e.account@ == text
}

/// Reads a proof from the front of `bytes` and reports the number of bytes
/// that it takes. What follows the proof is not looked at.
pub fn deserialize_proof(bytes: &[u8]) -> (r: Result<(Proof, usize), ProofDecodeError>)
    ensures
        match proof_decoding(bytes@) {
            Ok(n) => r matches Ok((proof, read)) && read == n && n == PROOF_BYTES && n
                <= bytes@.len() && proof@ == bytes@.take(n as int) && is_proof(proof@),
            Err(_) => r matches Err(e) && decode_failure(bytes@, e),
        },
{
    match groth16_decode(bytes) {
        Ok(read) => {
            let encoded = slice_to_vec(&bytes[0..read]);
            Ok((Proof { encoded }, read))
        },
        Err(e) => Err(e),
    }
}

/// Reads the five proof values from the front of `bytes` and reports the
/// number of bytes that they take. Bytes that follow are ignored; a buffer of
/// fewer than 160 bytes is refused.
pub fn deserialize_proof_values(bytes: &[u8]) -> (r: Result<(ProofValues, usize), BridgeError>)
    ensures
        bytes@.len() >= PROOF_VALUES_BYTES ==> (r matches Ok((values, read)) && values@
            == proof_values_of(bytes@) && read == PROOF_VALUES_BYTES),
        bytes@.len() < PROOF_VALUES_BYTES ==> r == Err::<(ProofValues, usize), BridgeError>(
            BridgeError::ProofValuesTruncated { available: bytes@.len() as usize },
        ),
{
    if bytes.len() < PROOF_VALUES_BYTES {
        return Err(BridgeError::ProofValuesTruncated { available: bytes.len() });
    }
    Ok(rln_proof_values(bytes))
}

/// What a combined buffer holds, if it holds it: a proof at its front and
/// the proof values right behind it.
pub open spec fn combined_parts(buf: Seq<u8>) -> Option<(Seq<u8>, ProofValuesView)> {
    match proof_decoding(buf) {
        Ok(n) => if buf.len() - n >= PROOF_VALUES_BYTES {
            Some((buf.take(n as int), proof_values_of(buf.skip(n as int))))
        } else {
            None
        },
        Err(_) => None,
    }
}

/// Whether `e` is the failure for which a combined buffer cannot be taken
/// apart: the decoder's, or that too few bytes follow the proof.
pub open spec fn combined_failure(buf: Seq<u8>, e: BridgeError) -> bool {
    match proof_decoding(buf) {
        Ok(n) => buf.len() - n < PROOF_VALUES_BYTES && e == (BridgeError::ProofValuesTruncated {
            available: (buf.len() - n) as usize,
        }),
        Err(_) => e matches BridgeError::ProofDecode { request, reason } && request
            == Request::Combined && decode_failure(buf, reason),
    }
}

/// Takes a combined buffer apart: the proof at its front, and the proof
/// values that start at the byte where the proof ends. No length is written
/// between the two, so the place of the values is where the decoder of the
/// proof stopped.
pub fn split_combined(buf: &[u8]) -> (r: Result<(Proof, ProofValues), BridgeError>)
    ensures
        match combined_parts(buf@) {
            Some((encoded, numbers)) => r matches Ok((proof, values)) && proof@ == encoded
                && values@ == numbers,
            None => r matches Err(e) && combined_failure(buf@, e),
        },
{
    let (proof, position) = match deserialize_proof(buf) {
        Ok(found) => found,
        Err(reason) => {
            return Err(BridgeError::ProofDecode { request: Request::Combined, reason });
        },
    };
    let rest = &buf[position..buf.len()];
    assert(rest@ =~= buf@.skip(position as int));
    match deserialize_proof_values(rest) {
        Ok((values, _)) => Ok((proof, values)),
        Err(e) => Err(e),
    }
}

} // verus!
