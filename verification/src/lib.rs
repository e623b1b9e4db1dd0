//! Verification of Rate-Limiting-Nullifier proofs for a managed host.
//!
//! The crate turns the host's plain values (byte buffers and hexadecimal
//! strings) into field elements, proofs and proof values, asks the RLN
//! circuit's Groth16 verifier for a verdict, and shapes the answer that goes
//! back to the host. Every function here returns a value on every input:
//! malformed input is an error value, never a panic.

pub mod boundary;
pub mod bridge;
pub mod codec;
pub mod error;
pub mod field;
pub mod hexadecimal;
pub mod invoker;
pub mod laws;
pub mod radix;

pub use boundary::{guard, host_reply, Boundary, Ending, FaultPayload};
pub use bridge::{check_public_input_count, parse_and_verify_rln_proof, verify_rln_proof};
pub use codec::{deserialize_proof, deserialize_proof_values, split_combined, Proof, ProofValues};
pub use error::{BridgeError, MarshalStep, ProofDecodeError, ProofDecodeKind, Request};
pub use field::{fr_from_hex, fr_to_hex, FieldElement};
pub use hexadecimal::HexError;
pub use invoker::verify;
