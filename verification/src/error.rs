//! The failures that a verification request can end in, and their messages.

use crate::hexadecimal::{hex_error_account, hex_error_text, HexError};
use vstd::prelude::*;
use vstd::string::*;

verus! {

/// The kind of reason for which a buffer holds no Groth16 proof over BN254 in
/// compressed form.
#[derive(Debug, Clone, Copy, PartialEq, Eq, Structural)]
pub enum ProofDecodeKind {
    /// The flag bits do not fit the last byte of a coordinate.
    NotEnoughSpace,
    /// A coordinate is out of range, or the point is not on the curve or not
    /// in the group.
    InvalidData,
    /// The flag bits of a point are set in a way that has no meaning.
    UnexpectedFlags,
    /// The buffer could not be read to the end of the proof.
    Io,
}

/// Why a buffer holds no proof: the kind of the reason, and the decoder's own
/// account of it.
#[derive(Debug, Clone, PartialEq, Eq)]
pub struct ProofDecodeError {
    pub kind: ProofDecodeKind,
    pub account: String,
}

/// A failure of the decoder, with its account as text.
pub struct ProofDecodeFailure {
    pub kind: ProofDecodeKind,
    pub account: Seq<char>,
}

impl View for ProofDecodeError {
    type V = ProofDecodeFailure;

    open spec fn view(&self) -> ProofDecodeFailure {
        ProofDecodeFailure { kind: self.kind, account: self.account@ }
    }
}

/// The request that a failure to read a proof belongs to.
#[derive(Debug, Clone, Copy, PartialEq, Eq, Structural)]
pub enum Request {
    /// A verdict on a proof and five public inputs.
    Verdict,
    /// A reading and a verdict of a combined buffer.
    Combined,
}

/// The value that the host handed over when a conversion failed.
#[derive(Debug, Clone, Copy, PartialEq, Eq, Structural)]
pub enum MarshalStep {
    VerifyingKey,
    ProofBytes,
    PublicInputCount,
    PublicInputElement { index: usize },
    PublicInputString { index: usize },
    CombinedProof,
    CurrentEpoch,
    ResultArray,
}

/// A failed request. Each failure is that of one request and leaves nothing
/// behind it.
#[derive(Debug, Clone, PartialEq, Eq)]
pub enum BridgeError {
    /// A value of the host could not be turned into a buffer or a string, or
    /// a result into a value of the host. `detail` is the host's own account.
    Marshaling { step: MarshalStep, detail: String },
    /// The public inputs are not five. `got` is their number as the host
    /// gave it.
    InputShape { got: i128 },
    /// A public input is no hexadecimal text.
    MalformedHex(HexError),
    /// The buffer of the request does not start with a proof.
    ProofDecode { request: Request, reason: ProofDecodeError },
    /// Fewer bytes follow the proof than five field elements take.
    ProofValuesTruncated { available: usize },
    /// The epoch that the proof values carry is the zero of the field.
    InvalidEpoch,
    /// The verifier ran and found the proof invalid, where only a valid proof
    /// has an answer.
    ProofRejected,
    /// The verifier itself failed; `0` is its account.
    VerificationEngine(String),
    /// The request ended abnormally; `0` is what is known of the cause.
    InternalFault(String),
}

/// The decimal digit for a number below ten.
pub open spec fn decimal_digit(d: nat) -> char
    recommends
        d < 10,
{
    (0x30 + d) as u8 as char
}

/// The decimal spelling of `n`, without leading zeros.
pub open spec fn decimal_text(n: nat) -> Seq<char>
    decreases n,
{
    if n < 10 {
        seq![decimal_digit(n)]
    } else {
        decimal_text(n / 10).push(decimal_digit(n % 10))
    }
}

/// The decimal spelling of `n`, with `-` in front of a negative number.
pub open spec fn signed_decimal_text(n: int) -> Seq<char> {
    if n < 0 {
        seq!['-'] + decimal_text((-n) as nat)
    } else {
        decimal_text(n as nat)
    }
}

fn digit_str(d: u128) -> (s: &'static str)
    requires
        d < 10,
    ensures
        s@ == seq![decimal_digit(d as nat)],
{
    proof {
        reveal_strlit("0");
        reveal_strlit("1");
        reveal_strlit("2");
        reveal_strlit("3");
        reveal_strlit("4");
        reveal_strlit("5");
        reveal_strlit("6");
        reveal_strlit("7");
        reveal_strlit("8");
        reveal_strlit("9");
    }
    let s = if d == 0 {
        "0"
    } else if d == 1 {
        "1"
    } else if d == 2 {
        "2"
    } else if d == 3 {
        "3"
    } else if d == 4 {
        "4"
    } else if d == 5 {
        "5"
    } else if d == 6 {
        "6"
    } else if d == 7 {
        "7"
    } else if d == 8 {
        "8"
    } else {
        "9"
    };
    assert(s@ =~= seq![decimal_digit(d as nat)]);
    s
}

/// Spells a number in decimal.
pub fn decimal(n: u128) -> (s: String)
    ensures
        s@ == decimal_text(n as nat),
    decreases n,
{
    if n < 10 {
        String::from_str(digit_str(n))
    } else {
        let mut s = decimal(n / 10);
        s.append(digit_str(n % 10));
        assert(s@ =~= decimal_text(n as nat));
        s
    }
}

/// Spells a number in decimal, with `-` in front of a negative one.
pub fn signed_decimal(n: i128) -> (s: String)
    ensures
        s@ == signed_decimal_text(n as int),
{
    if n < 0 {
        let magnitude: u128 = ((-(n + 1)) as u128) + 1;
        let mut s = String::from_str("-");
        s.append(decimal(magnitude).as_str());
        proof {
            reveal_strlit("-");
            assert(s@ =~= signed_decimal_text(n as int));
        }
        s
    } else {
        decimal(n as u128)
    }
}

impl Request {
    /// The words in front of the decoder's account: the request for a verdict
    /// writes `Proof`, the request on a combined buffer `proof`.
    pub open spec fn decode_text(self) -> Seq<char> {
        match self {
            Request::Verdict => "Failed to deserialize Proof: "@,
            Request::Combined => "Failed to deserialize proof: "@,
        }
    }

    fn decode_label(&self) -> (s: &'static str)
        ensures
            s@ == self.decode_text(),
            s@.len() > 0,
    {
        proof {
            reveal_strlit("Failed to deserialize Proof: ");
            reveal_strlit("Failed to deserialize proof: ");
        }
        match self {
            Request::Verdict => "Failed to deserialize Proof: ",
            Request::Combined => "Failed to deserialize proof: ",
        }
    }
}

impl MarshalStep {
    /// What failed at this step, before the host's account of it.
    pub open spec fn text(self) -> Seq<char> {
        match self {
            MarshalStep::VerifyingKey => "Failed to convert verifying key bytes"@,
            MarshalStep::ProofBytes => "Failed to convert proof bytes"@,
            MarshalStep::PublicInputCount => "Failed to get public inputs array length"@,
            MarshalStep::PublicInputElement { index } => "Failed to get public input element "@
                + decimal_text(index as nat),
            MarshalStep::PublicInputString { index } =>
                "Failed to convert JString to Rust string for input "@ + decimal_text(
                    index as nat,
                ),
            MarshalStep::CombinedProof => "Failed to convert combined proof bytes"@,
            MarshalStep::CurrentEpoch => "Failed to convert current epoch JString"@,
            MarshalStep::ResultArray => "Failed to create Java string array"@,
        }
    }

    fn describe(&self) -> (s: String)
        ensures
            s@ == self.text(),
    {
        match self {
            MarshalStep::VerifyingKey => String::from_str("Failed to convert verifying key bytes"),
            MarshalStep::ProofBytes => String::from_str("Failed to convert proof bytes"),
            MarshalStep::PublicInputCount => String::from_str(
                "Failed to get public inputs array length",
            ),
            MarshalStep::PublicInputElement { index } => {
                let mut s = String::from_str("Failed to get public input element ");
                s.append(decimal(*index as u128).as_str());
                s
            },
            MarshalStep::PublicInputString { index } => {
                let mut s = String::from_str("Failed to convert JString to Rust string for input ");
                s.append(decimal(*index as u128).as_str());
                s
            },
            MarshalStep::CombinedProof => String::from_str(
                "Failed to convert combined proof bytes",
            ),
            MarshalStep::CurrentEpoch => String::from_str(
                "Failed to convert current epoch JString",
            ),
            MarshalStep::ResultArray => String::from_str("Failed to create Java string array"),
        }
    }
}

impl BridgeError {
    /// The message that the host is shown.
    pub open spec fn text(self) -> Seq<char> {
        match self {
            BridgeError::Marshaling { step, detail } => step.text() + ": "@ + detail@,
            BridgeError::InputShape { got } => "Expected 5 public inputs, got "@
                + signed_decimal_text(got as int),
            BridgeError::MalformedHex(e) => "Hex decode error: "@ + hex_error_text(e),
            BridgeError::ProofDecode { request, reason } => request.decode_text()
                + reason.account@,
            BridgeError::ProofValuesTruncated { available } =>
                "Failed to deserialize proof values: expected 160 bytes, got "@ + decimal_text(
                    available as nat,
                ),
            BridgeError::InvalidEpoch => "Invalid epoch: epoch cannot be zero"@,
            BridgeError::ProofRejected => "Proof verification failed"@,
            BridgeError::VerificationEngine(account) => "Proof verification error: "@ + account@,
            BridgeError::InternalFault(cause) => "Rust panic: "@ + cause@,
        }
    }

    /// Writes the message that the host is shown. No failure is silent: the
    /// message is never empty.
    pub fn message(&self) -> (s: String)
        ensures
            s@ == self.text(),
            s@.len() > 0,
    {
        let s = match self {
            BridgeError::Marshaling { step, detail } => {
                let mut s = step.describe();
                s.append(": ");
                s.append(detail.as_str());
                proof {
                    reveal_strlit(": ");
                }
                s
            },
            BridgeError::InputShape { got } => {
                let mut s = String::from_str("Expected 5 public inputs, got ");
                s.append(signed_decimal(*got).as_str());
                proof {
                    reveal_strlit("Expected 5 public inputs, got ");
                }
                s
            },
            BridgeError::MalformedHex(e) => {
                let mut s = String::from_str("Hex decode error: ");
                s.append(hex_error_account(*e).as_str());
                proof {
                    reveal_strlit("Hex decode error: ");
                }
                s
            },
            BridgeError::ProofDecode { request, reason } => {
                let mut s = String::from_str(request.decode_label());
                s.append(reason.account.as_str());
                s
            },
            BridgeError::ProofValuesTruncated { available } => {
                let mut s = String::from_str(
                    "Failed to deserialize proof values: expected 160 bytes, got ",
                );
                s.append(decimal(*available as u128).as_str());
                proof {
                    reveal_strlit("Failed to deserialize proof values: expected 160 bytes, got ");
                }
                s
            },
            BridgeError::InvalidEpoch => {
                proof {
                    reveal_strlit("Invalid epoch: epoch cannot be zero");
                }
                String::from_str("Invalid epoch: epoch cannot be zero")
            },
            BridgeError::ProofRejected => {
                proof {
                    reveal_strlit("Proof verification failed");
                }
                String::from_str("Proof verification failed")
            },
            BridgeError::VerificationEngine(account) => {
                let mut s = String::from_str("Proof verification error: ");
                s.append(account.as_str());
                proof {
                    reveal_strlit("Proof verification error: ");
                }
                s
            },
            BridgeError::InternalFault(cause) => {
                let mut s = String::from_str("Rust panic: ");
                s.append(cause.as_str());
                proof {
                    reveal_strlit("Rust panic: ");
                }
                s
            },
        };
        s
    }
}

} // verus!
