use rln_bridge::error::{
    decimal, signed_decimal, BridgeError, MarshalStep, ProofDecodeError, ProofDecodeKind, Request,
};
use rln_bridge::hexadecimal::HexError;

#[test]
fn numbers_are_spelled_in_decimal() {
    assert_eq!(decimal(0), "0");
    assert_eq!(decimal(9), "9");
    assert_eq!(decimal(10), "10");
    assert_eq!(decimal(12345), "12345");
    assert_eq!(decimal(u128::MAX), u128::MAX.to_string());
}

#[test]
fn negative_numbers_are_spelled_with_a_sign() {
    assert_eq!(signed_decimal(0), "0");
    assert_eq!(signed_decimal(5), "5");
    assert_eq!(signed_decimal(-1), "-1");
    assert_eq!(signed_decimal(-120), "-120");
    assert_eq!(signed_decimal(i128::MAX), i128::MAX.to_string());
    assert_eq!(signed_decimal(i128::MIN), i128::MIN.to_string());
}

fn refusal(request: Request, kind: ProofDecodeKind, account: &str) -> BridgeError {
    BridgeError::ProofDecode {
        request,
        reason: ProofDecodeError { kind, account: account.to_string() },
    }
}

#[test]
fn count_message_names_the_count() {
    assert_eq!(
        BridgeError::InputShape { got: 4 }.message(),
        "Expected 5 public inputs, got 4"
    );
    assert_eq!(
        BridgeError::InputShape { got: -1 }.message(),
        "Expected 5 public inputs, got -1"
    );
}

#[test]
fn hex_messages_are_those_of_the_hex_crate() {
    let cases = [
        (HexError::OddLength, hex::FromHexError::OddLength),
        (
            HexError::InvalidCharacter { c: 'g', index: 7 },
            hex::FromHexError::InvalidHexCharacter { c: 'g', index: 7 },
        ),
        (
            HexError::InvalidCharacter { c: '\n', index: 0 },
            hex::FromHexError::InvalidHexCharacter { c: '\n', index: 0 },
        ),
        (HexError::InvalidStringLength, hex::FromHexError::InvalidStringLength),
    ];
    for (ours, theirs) in cases {
        assert_eq!(
            BridgeError::MalformedHex(ours).message(),
            format!("Hex decode error: {}", theirs)
        );
    }
}

#[test]
fn hex_messages() {
    assert_eq!(
        BridgeError::MalformedHex(HexError::OddLength).message(),
        "Hex decode error: Odd number of digits"
    );
    assert_eq!(
        BridgeError::MalformedHex(HexError::InvalidCharacter { c: 'g', index: 7 }).message(),
        "Hex decode error: Invalid character 'g' at position 7"
    );
    assert_eq!(
        BridgeError::MalformedHex(HexError::InvalidCharacter { c: '\n', index: 5 }).message(),
        "Hex decode error: Invalid character '\\n' at position 5"
    );
    assert_eq!(
        BridgeError::MalformedHex(HexError::InvalidStringLength).message(),
        "Hex decode error: Invalid string length"
    );
}

#[test]
fn proof_message_of_a_verdict_request_has_a_capital() {
    assert_eq!(
        refusal(
            Request::Verdict,
            ProofDecodeKind::InvalidData,
            "the input buffer contained invalid data"
        )
        .message(),
        "Failed to deserialize Proof: the input buffer contained invalid data"
    );
    assert_eq!(
        refusal(Request::Verdict, ProofDecodeKind::Io, "I/O error: boom").message(),
        "Failed to deserialize Proof: I/O error: boom"
    );
}

#[test]
fn proof_message_of_a_combined_request_has_none() {
    assert_eq!(
        refusal(
            Request::Combined,
            ProofDecodeKind::UnexpectedFlags,
            "the call expects empty flags"
        )
        .message(),
        "Failed to deserialize proof: the call expects empty flags"
    );
    assert_eq!(
        refusal(Request::Combined, ProofDecodeKind::Io, "I/O error: boom").message(),
        "Failed to deserialize proof: I/O error: boom"
    );
}

#[test]
fn proof_values_message_names_the_bytes() {
    assert_eq!(
        BridgeError::ProofValuesTruncated { available: 159 }.message(),
        "Failed to deserialize proof values: expected 160 bytes, got 159"
    );
}

#[test]
fn verdict_messages() {
    assert_eq!(
        BridgeError::InvalidEpoch.message(),
        "Invalid epoch: epoch cannot be zero"
    );
    assert_eq!(BridgeError::ProofRejected.message(), "Proof verification failed");
    assert_eq!(
        BridgeError::VerificationEngine("SynthesisError(MalformedVerifyingKey)".to_string())
            .message(),
        "Proof verification error: SynthesisError(MalformedVerifyingKey)"
    );
    assert_eq!(
        BridgeError::InternalFault("index out of bounds".to_string()).message(),
        "Rust panic: index out of bounds"
    );
}

#[test]
fn marshaling_messages() {
    let cases = [
        (MarshalStep::VerifyingKey, "Failed to convert verifying key bytes: boom"),
        (MarshalStep::ProofBytes, "Failed to convert proof bytes: boom"),
        (MarshalStep::PublicInputCount, "Failed to get public inputs array length: boom"),
        (
            MarshalStep::PublicInputElement { index: 3 },
            "Failed to get public input element 3: boom",
        ),
        (
            MarshalStep::PublicInputString { index: 12 },
            "Failed to convert JString to Rust string for input 12: boom",
        ),
        (MarshalStep::CombinedProof, "Failed to convert combined proof bytes: boom"),
        (MarshalStep::CurrentEpoch, "Failed to convert current epoch JString: boom"),
        (MarshalStep::ResultArray, "Failed to create Java string array: boom"),
    ];
    for (step, expected) in cases {
        let e = BridgeError::Marshaling { step, detail: "boom".to_string() };
        assert_eq!(e.message(), expected);
    }
}

#[test]
fn no_message_is_empty() {
    let errors = [
        BridgeError::Marshaling { step: MarshalStep::ResultArray, detail: String::new() },
        BridgeError::InputShape { got: 0 },
        BridgeError::MalformedHex(HexError::OddLength),
        refusal(Request::Combined, ProofDecodeKind::Io, ""),
        BridgeError::ProofValuesTruncated { available: 0 },
        BridgeError::InvalidEpoch,
        BridgeError::ProofRejected,
        BridgeError::VerificationEngine(String::new()),
        BridgeError::InternalFault(String::new()),
    ];
    for e in errors {
        assert!(!e.message().is_empty());
    }
}
