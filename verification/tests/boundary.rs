use rln_bridge::boundary::{guard, host_reply, Boundary, Ending, FaultPayload};
use rln_bridge::error::BridgeError;

#[test]
fn boundary_starts_running() {
    let state: Boundary<bool> = Boundary::enter();
    assert_eq!(state, Boundary::Running);
    assert_eq!(state.outcome(), None);
}

#[test]
fn returned_value_completes_ok() {
    let state = Boundary::enter().finish(Ending::Returned(Ok(true)));
    assert_eq!(state, Boundary::CompletedOk(true));
    assert_eq!(state.outcome(), Some(Ok(true)));
}

#[test]
fn returned_failure_completes_err() {
    let state: Boundary<bool> =
        Boundary::enter().finish(Ending::Returned(Err(BridgeError::InvalidEpoch)));
    assert_eq!(state, Boundary::CompletedErr(BridgeError::InvalidEpoch));
    assert_eq!(state.outcome(), Some(Err(BridgeError::InvalidEpoch)));
}

#[test]
fn abnormal_end_is_reported_with_its_text() {
    let payload = FaultPayload::Text("slice index out of range".to_string());
    let state: Boundary<bool> = Boundary::enter().finish(Ending::Aborted(payload));
    assert_eq!(
        state,
        Boundary::CompletedErr(BridgeError::InternalFault("slice index out of range".to_string()))
    );
}

#[test]
fn abnormal_end_without_text_has_a_standing_account() {
    let r: Result<Vec<String>, BridgeError> = guard(Ending::Aborted(FaultPayload::Unrecognized));
    assert_eq!(
        r,
        Err(BridgeError::InternalFault(
            "Unknown panic occurred in Rust JNI function".to_string()
        ))
    );
    assert_eq!(
        host_reply(r),
        Err("Rust panic: Unknown panic occurred in Rust JNI function".to_string())
    );
}

#[test]
fn completed_boundary_stays_as_it_is() {
    let done = Boundary::enter().finish(Ending::Returned(Ok(7u8)));
    let again = done.finish(Ending::Aborted(FaultPayload::Unrecognized));
    assert_eq!(again, Boundary::CompletedOk(7u8));
    let failed: Boundary<u8> = Boundary::CompletedErr(BridgeError::ProofRejected);
    assert_eq!(
        failed.finish(Ending::Returned(Ok(1))),
        Boundary::CompletedErr(BridgeError::ProofRejected)
    );
}

#[test]
fn guard_hands_a_returned_outcome_on() {
    assert_eq!(guard(Ending::Returned(Ok(false))), Ok(false));
    assert_eq!(
        guard::<bool>(Ending::Returned(Err(BridgeError::InputShape { got: 6 }))),
        Err(BridgeError::InputShape { got: 6 })
    );
}

#[test]
fn a_request_after_an_abnormal_end_is_served() {
    let first: Result<bool, BridgeError> =
        guard(Ending::Aborted(FaultPayload::Text("boom".to_string())));
    assert_eq!(first, Err(BridgeError::InternalFault("boom".to_string())));
    let second: Result<bool, BridgeError> = guard(Ending::Returned(Ok(true)));
    assert_eq!(second, Ok(true));
}

#[test]
fn host_is_told_a_value_or_a_message() {
    assert_eq!(host_reply(Ok::<bool, BridgeError>(true)), Ok(true));
    assert_eq!(
        host_reply(Err::<bool, BridgeError>(BridgeError::InvalidEpoch)),
        Err("Invalid epoch: epoch cannot be zero".to_string())
    );
}
