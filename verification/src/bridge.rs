//! The two requests that the host can make: a verdict on a proof and five
//! public inputs, and a reading and a verdict of a combined buffer.

use crate::codec::{
    combined_failure, combined_parts, decode_failure, deserialize_proof, proof_decoding,
    split_combined, ProofValues, ProofValuesView, PROOF_BYTES,
};
use crate::error::{BridgeError, Request};
use crate::field::{fr_from_hex, hex_field, strip_prefix, FieldElement};
use crate::hexadecimal::hex_failure;
use crate::invoker::{reply_outcome, verdict_on, verdict_outcome, verify, verify_with_values};
use vstd::prelude::*;
use vstd::utf8::encode_utf8;

verus! {

/// The number of public inputs of the circuit.
pub const PUBLIC_INPUTS: usize = 5;

/// Refuses a number of public inputs other than five. The number is taken as
/// the host counts, so that a failure names it as the host gave it.
pub fn check_public_input_count(count: i128) -> (r: Result<(), BridgeError>)
    ensures
        count == PUBLIC_INPUTS ==> r == Ok::<(), BridgeError>(()),
        count != PUBLIC_INPUTS ==> r == Err::<(), BridgeError>(
            BridgeError::InputShape { got: count },
        ),
{
    if count == PUBLIC_INPUTS as i128 {
        Ok(())
    } else {
        Err(BridgeError::InputShape { got: count })
    }
}

/// The number of the field element that the input at place `i` spells, if it
/// spells one.
pub open spec fn input_field(inputs: Seq<String>, i: int) -> Option<nat> {
    hex_field(encode_utf8(inputs[i]@))
}

/// The place of the first of five inputs that spells no field element.
pub open spec fn first_malformed(inputs: Seq<String>) -> Option<int> {
    if input_field(inputs, 0) is None {
        Some(0)
    } else if input_field(inputs, 1) is None {
        Some(1)
    } else if input_field(inputs, 2) is None {
        Some(2)
    } else if input_field(inputs, 3) is None {
        Some(3)
    } else if input_field(inputs, 4) is None {
        Some(4)
    } else {
        None
    }
}

/// The proof values that five well-formed inputs spell, in the order `x`,
/// `y`, epoch, root, nullifier.
pub open spec fn input_values(inputs: Seq<String>) -> ProofValuesView {
    ProofValuesView {
        x: input_field(inputs, 0).unwrap(),
        y: input_field(inputs, 1).unwrap(),
        external_nullifier: input_field(inputs, 2).unwrap(),
        root: input_field(inputs, 3).unwrap(),
        nullifier: input_field(inputs, 4).unwrap(),
    }
}

/// Whether `r` is what a request for a verdict on `proof` and `inputs` ends
/// in. The number of inputs is looked at first, then the proof, then the
/// inputs in their order; only then is the verifier asked.
pub open spec fn direct_result(
    proof: Seq<u8>,
    inputs: Seq<String>,
    r: Result<bool, BridgeError>,
) -> bool {
    if inputs.len() != PUBLIC_INPUTS {
        r == Err::<bool, BridgeError>(BridgeError::InputShape { got: inputs.len() as i128 })
    } else {
        match proof_decoding(proof) {
            Err(_) => r matches Err(BridgeError::ProofDecode { request, reason }) && request
                == Request::Verdict && decode_failure(proof, reason),
            Ok(n) => match first_malformed(inputs) {
                Some(i) => r matches Err(BridgeError::MalformedHex(e)) && hex_failure(
                    strip_prefix(encode_utf8(inputs[i]@)),
                    e,
                ),
                None => verdict_outcome(
                    verdict_on(proof.take(PROOF_BYTES as int), input_values(inputs)),
                    r,
                ),
            },
        }
    }
}

fn input_at(inputs: &Vec<String>, i: usize) -> (r: Result<FieldElement, BridgeError>)
    requires
        i < inputs@.len(),
    ensures
        r is Ok <==> input_field(inputs@, i as int) is Some,
        r matches Ok(f) ==> input_field(inputs@, i as int) == Some(f@),
        r matches Err(e) ==> (e matches BridgeError::MalformedHex(h) && hex_failure(
            strip_prefix(encode_utf8(inputs@[i as int]@)),
            h,
        )),
{
    match fr_from_hex(inputs[i].as_str()) {
        Ok(f) => Ok(f),
        Err(e) => Err(BridgeError::MalformedHex(e)),
    }
}

/// Answers whether `proof` is a valid RLN proof for the five public inputs
/// `x`, `y`, epoch, root and nullifier, each spelled in hexadecimal.
///
/// `_verifying_key` is taken for the sake of the host's interface and has no
/// part in the answer: the key is the built-in one. An invalid proof is
/// answered with `false`; a failure is reserved for inputs that are not five,
/// a buffer that holds no proof, an input that is no hexadecimal text, and a
/// failure of the verifier itself.
pub fn verify_rln_proof(_verifying_key: &[u8], proof: &[u8], public_inputs: &Vec<String>) -> (r:
    Result<bool, BridgeError>)
    ensures
        direct_result(proof@, public_inputs@, r),
{
    match check_public_input_count(public_inputs.len() as i128) {
        Ok(()) => {},
        Err(e) => {
            return Err(e);
        },
    }
    let (parsed, _) = match deserialize_proof(proof) {
        Ok(found) => found,
        Err(reason) => {
            return Err(BridgeError::ProofDecode { request: Request::Verdict, reason });
        },
    };
    let x = match input_at(public_inputs, 0) {
        Ok(f) => f,
        Err(e) => {
            return Err(e);
        },
    };
    let y = match input_at(public_inputs, 1) {
        Ok(f) => f,
        Err(e) => {
            return Err(e);
        },
    };
    let external_nullifier = match input_at(public_inputs, 2) {
        Ok(f) => f,
        Err(e) => {
            return Err(e);
        },
    };
    let root = match input_at(public_inputs, 3) {
        Ok(f) => f,
        Err(e) => {
            return Err(e);
        },
    };
    let nullifier = match input_at(public_inputs, 4) {
        Ok(f) => f,
        Err(e) => {
            return Err(e);
        },
    };
    let values = ProofValues { x, y, external_nullifier, root, nullifier };
    verify(&parsed, &values)
}

/// Whether `r` is what a request on the combined buffer `buf` ends in. The
/// proof is read first, then the values behind it; an epoch of zero is
/// refused before the verifier is asked.
pub open spec fn embedded_result(buf: Seq<u8>, r: Result<Vec<String>, BridgeError>) -> bool {
    match combined_parts(buf) {
        None => r matches Err(e) && combined_failure(buf, e),
        Some((encoded, values)) => if values.external_nullifier == 0 {
            r == Err::<Vec<String>, BridgeError>(BridgeError::InvalidEpoch)
        } else {
            reply_outcome(values, verdict_on(encoded, values), r)
        },
    }
}

/// Reads a proof and its public values from a combined buffer, checks the
/// proof, and answers with the values.
///
/// The answer to a valid proof is six strings: the hexadecimal spellings of
/// `x`, `y`, the epoch, the root and the nullifier, and the word `true`.
/// `_verifying_key` has no part in the answer, and neither has
/// `_current_epoch`: the epoch that counts is the one that the buffer
/// carries, and whether it is the current one is for the caller to judge.
/// Only an epoch of zero is refused here.
pub fn parse_and_verify_rln_proof(
    _verifying_key: &[u8],
    combined_proof: &[u8],
    _current_epoch: &str,
) -> (r: Result<Vec<String>, BridgeError>)
    ensures
        embedded_result(combined_proof@, r),
{
    let (proof, values) = match split_combined(combined_proof) {
        Ok(parts) => parts,
        Err(e) => {
            return Err(e);
        },
    };
    if values.external_nullifier.is_zero() {
        return Err(BridgeError::InvalidEpoch);
    }
    verify_with_values(&proof, &values)
}

} // verus!
