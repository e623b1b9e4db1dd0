//! The verdict of the RLN circuit's Groth16 verifier on a proof and its
//! public values.

use crate::codec::{Proof, ProofValues, ProofValuesView};
use crate::error::BridgeError;
use crate::field::{field_hex, fr_to_hex, FieldElement};
use ark_bn254::{Bn254, Fr};
use ark_ff::PrimeField;
use ark_serialize::CanonicalDeserialize;
use rln::circuit::zkey_from_folder;
use rln::protocol::{verify_proof, RLNProofValues};
use vstd::prelude::*;
use vstd::string::*;

verus! {

/// What `rln::protocol::verify_proof` answers, under the verifying key that
/// the `rln` crate carries for trees of height 20, on the proof with the
/// compressed form `proof` and on five public values: whether the proof is
/// valid for them, or the verifier's account of why it could not tell.
pub uninterp spec fn groth16_verdict(
    proof: Seq<u8>,
    x: nat,
    y: nat,
    external_nullifier: nat,
    root: nat,
    nullifier: nat,
) -> Result<bool, Seq<char>>;

/// The verifier's answer, with its account as text.
pub open spec fn verdict_text(answer: Result<bool, String>) -> Result<bool, Seq<char>> {
    match answer {
        Ok(valid) => Ok(valid),
        Err(account) => Err(account@),
    }
}

/// The verdict on a proof and its values.
pub open spec fn verdict_on(proof: Seq<u8>, values: ProofValuesView) -> Result<bool, Seq<char>> {
    groth16_verdict(
        proof,
        values.x,
        values.y,
        values.external_nullifier,
        values.root,
        values.nullifier,
    )
}

/// Asks `rln::protocol::verify_proof` for its verdict, with the key of
/// `rln::circuit::zkey_from_folder`.
///
/// The proof and the five values are first put back into the verifier's own
/// types; the bytes of a proof are such as the decoder accepts. The answer
/// depends on them alone: the key is part of the `rln` crate. Nothing is
/// promised of the answer but that it is the same for the same proof and
/// values.
#[verifier::external_body]
fn rln_verify(proof: &Proof, values: &ProofValues) -> (answer: Result<bool, String>)
    ensures
        verdict_text(answer) == groth16_verdict(
            proof@,
            values.x@,
            values.y@,
            values.external_nullifier@,
            values.root@,
            values.nullifier@,
        ),
{
    let fr = |f: &FieldElement| Fr::from_be_bytes_mod_order(&f.bytes);
    let (x, y, root) = (fr(&values.x), fr(&values.y), fr(&values.root));
    let (external_nullifier, nullifier) = (fr(&values.external_nullifier), fr(&values.nullifier));
    let public = RLNProofValues { x, y, external_nullifier, root, nullifier };
    let parsed = match ark_groth16::Proof::<Bn254>::deserialize_compressed(&proof.encoded[..]) {
        Ok(parsed) => parsed,
        Err(e) => return Err(format!("{:?}", e)),
    };
    match verify_proof(&zkey_from_folder().0.vk, &parsed, &public) {
        Ok(valid) => Ok(valid),
        Err(e) => Err(format!("{:?}", e)),
    }
}

/// Whether `r` is what a request for a plain verdict ends in, given the
/// verifier's answer: the verdict itself, valid or not, or the verifier's
/// failure with its account.
pub open spec fn verdict_outcome(
    answer: Result<bool, Seq<char>>,
    r: Result<bool, BridgeError>,
) -> bool {
    match answer {
        Ok(valid) => r == Ok::<bool, BridgeError>(valid),
        Err(account) => r matches Err(BridgeError::VerificationEngine(a)) && a@ == account,
    }
}

/// Turns the verifier's answer into the outcome of a request for a plain
/// verdict. An invalid proof is an answer, not a failure.
pub fn direct_outcome(answer: Result<bool, String>) -> (r: Result<bool, BridgeError>)
    ensures
        verdict_outcome(verdict_text(answer), r),
{
    match answer {
        Ok(valid) => Ok(valid),
        Err(account) => Err(BridgeError::VerificationEngine(account)),
    }
}

/// Checks a proof against its five public values, under the built-in
/// verifying key.
pub fn verify(proof: &Proof, values: &ProofValues) -> (r: Result<bool, BridgeError>)
    ensures
        verdict_outcome(verdict_on(proof@, values@), r),
{
    direct_outcome(rln_verify(proof, values))
}

/// The six texts that answer a request on a combined buffer whose proof is
/// valid: the spellings of `x`, `y`, the epoch, the root and the nullifier,
/// and the word `true`.
pub open spec fn reply_texts(values: ProofValuesView) -> Seq<Seq<char>> {
    seq![
        field_hex(values.x),
        field_hex(values.y),
        field_hex(values.external_nullifier),
        field_hex(values.root),
        field_hex(values.nullifier),
        "true"@,
    ]
}

/// Whether the strings of `list` are the texts `texts`, one for one.
pub open spec fn strings_are(list: Seq<String>, texts: Seq<Seq<char>>) -> bool {
    &&& list.len() == texts.len()
    &&& forall|i: int| 0 <= i < list.len() ==> (#[trigger] list[i])@ == texts[i]
}

/// Whether `r` is what a request on a combined buffer ends in, given the
/// values that the buffer carries and the verifier's answer: the six texts
/// for a valid proof, a failure for an invalid one, and the verifier's
/// failure with its account.
pub open spec fn reply_outcome(
    values: ProofValuesView,
    answer: Result<bool, Seq<char>>,
    r: Result<Vec<String>, BridgeError>,
) -> bool {
    match answer {
        Ok(valid) => if valid {
            r matches Ok(list) && strings_are(list@, reply_texts(values))
        } else {
            r == Err::<Vec<String>, BridgeError>(BridgeError::ProofRejected)
        },
        Err(account) => r matches Err(BridgeError::VerificationEngine(a)) && a@ == account,
    }
}

/// Turns the verifier's answer into the outcome of a request on a combined
/// buffer: the values go out only with a valid proof.
pub fn embedded_outcome(values: &ProofValues, answer: Result<bool, String>) -> (r: Result<
    Vec<String>,
    BridgeError,
>)
    ensures
        reply_outcome(values@, verdict_text(answer), r),
{
    match answer {
        Ok(true) => {
            let mut list: Vec<String> = Vec::new();
            list.push(fr_to_hex(&values.x));
            list.push(fr_to_hex(&values.y));
            list.push(fr_to_hex(&values.external_nullifier));
            list.push(fr_to_hex(&values.root));
            list.push(fr_to_hex(&values.nullifier));
            list.push(String::from_str("true"));
            Ok(list)
        },
        Ok(false) => Err(BridgeError::ProofRejected),
        Err(account) => Err(BridgeError::VerificationEngine(account)),
    }
}

/// Checks a proof against its five public values, under the built-in
/// verifying key, and answers a valid proof with the values.
pub fn verify_with_values(proof: &Proof, values: &ProofValues) -> (r: Result<
    Vec<String>,
    BridgeError,
>)
    ensures
        reply_outcome(values@, verdict_on(proof@, values@), r),
{
    embedded_outcome(values, rln_verify(proof, values))
}

} // verus!
