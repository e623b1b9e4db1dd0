//! The boundary that a request runs behind, so that no failure of the native
//! side reaches the host but as a reported error.

use crate::error::BridgeError;
use vstd::prelude::*;
use vstd::string::*;

verus! {

/// What an abnormal end carried with it.
#[derive(Debug, Clone, PartialEq, Eq)]
pub enum FaultPayload {
    /// A text.
    Text(String),
    /// Something of a kind that is not known here.
    Unrecognized,
}

/// How the work behind the boundary ended.
#[derive(Debug, PartialEq, Eq)]
pub enum Ending<T> {
    /// It returned, with a value or with a failure of its own.
    Returned(Result<T, BridgeError>),
    /// It ended abnormally.
    Aborted(FaultPayload),
}

/// The state of the boundary of one request.
#[derive(Debug, PartialEq, Eq)]
pub enum Boundary<T> {
    /// The work has begun and has not ended.
    Running,
    /// The work returned a value.
    CompletedOk(T),
    /// The work failed, or ended abnormally.
    CompletedErr(BridgeError),
}

/// The account of an abnormal end: the text that it carried, or a standing
/// text where it carried none.
pub open spec fn fault_text(payload: FaultPayload) -> Seq<char> {
    match payload {
        FaultPayload::Text(text) => text@,
        FaultPayload::Unrecognized => "Unknown panic occurred in Rust JNI function"@,
    }
}

/// Whether `next` is the state that follows `state` when the work ends in
/// `ending`. A boundary that is running completes; a completed one stays as
/// it is.
pub open spec fn follows<T>(state: Boundary<T>, ending: Ending<T>, next: Boundary<T>) -> bool {
    match state {
        Boundary::Running => match ending {
            Ending::Returned(Ok(value)) => next == Boundary::CompletedOk(value),
            Ending::Returned(Err(e)) => next == Boundary::<T>::CompletedErr(e),
            Ending::Aborted(payload) => next matches Boundary::CompletedErr(
                BridgeError::InternalFault(cause),
            ) && cause@ == fault_text(payload),
        },
        _ => next == state,
    }
}

/// Whether `r` is what the host is told when the work ends in `ending`.
pub open spec fn settled<T>(ending: Ending<T>, r: Result<T, BridgeError>) -> bool {
    match ending {
        Ending::Returned(outcome) => r == outcome,
        Ending::Aborted(payload) => r matches Err(BridgeError::InternalFault(cause)) && cause@
            == fault_text(payload),
    }
}

impl<T> Boundary<T> {
    /// The boundary of a request whose work begins.
    pub fn enter() -> (state: Boundary<T>)
        ensures
            state is Running,
    {
        Boundary::Running
    }

    /// Takes note of how the work ended.
    pub fn finish(self, ending: Ending<T>) -> (next: Boundary<T>)
        ensures
            follows(self, ending, next),
    {
        match self {
            Boundary::Running => match ending {
                Ending::Returned(Ok(value)) => Boundary::CompletedOk(value),
                Ending::Returned(Err(e)) => Boundary::CompletedErr(e),
                Ending::Aborted(FaultPayload::Text(text)) => Boundary::CompletedErr(
                    BridgeError::InternalFault(text),
                ),
                Ending::Aborted(FaultPayload::Unrecognized) => Boundary::CompletedErr(
                    BridgeError::InternalFault(
                        String::from_str("Unknown panic occurred in Rust JNI function"),
                    ),
                ),
            },
            done => done,
        }
    }

    /// What the host is told: nothing while the work runs, then the value or
    /// the failure.
    pub fn outcome(self) -> (r: Option<Result<T, BridgeError>>)
        ensures
            match self {
                Boundary::Running => r is None,
                Boundary::CompletedOk(value) => r == Some(Ok::<T, BridgeError>(value)),
                Boundary::CompletedErr(e) => r == Some(Err::<T, BridgeError>(e)),
            },
    {
        match self {
            Boundary::Running => None,
            Boundary::CompletedOk(value) => Some(Ok(value)),
            Boundary::CompletedErr(e) => Some(Err(e)),
        }
    }
}

/// Runs the boundary of one request from its beginning to its end: whatever
/// way the work ended, the host is told a value or a failure.
pub fn guard<T>(ending: Ending<T>) -> (r: Result<T, BridgeError>)
    ensures
        settled(ending, r),
{
    match Boundary::enter().finish(ending).outcome() {
        Some(outcome) => outcome,
        None => vstd::pervasive::unreached(),
    }
}

/// Whether `r` is what goes out to the host for `outcome`: the value, or the
/// message to raise. Nothing stands in for a value where there is a failure.
pub open spec fn raised<T>(outcome: Result<T, BridgeError>, r: Result<T, String>) -> bool {
    match outcome {
        Ok(value) => r == Ok::<T, String>(value),
        Err(e) => r matches Err(message) && message@ == e.text() && message@.len() > 0,
    }
}

/// Shapes the outcome of a request for the host: a value goes out as it is,
/// a failure as the message of the error to raise.
pub fn host_reply<T>(outcome: Result<T, BridgeError>) -> (r: Result<T, String>)
    ensures
        raised(outcome, r),
{
    match outcome {
        Ok(value) => Ok(value),
        Err(e) => Err(e.message()),
    }
}

} // verus!
