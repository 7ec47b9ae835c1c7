//! The errors of a trigger, and how a transport's outcome is classified.

use vstd::prelude::*;

verus! {

#[verifier::external_type_specification]
#[verifier::external_body]
pub struct ExUreqError(ureq::Error);

#[verifier::external_type_specification]
#[verifier::external_body]
pub struct ExReqwestError(reqwest::Error);

/// Why a trigger failed.
#[derive(Debug)]
pub enum TriggerError {
    /// The blocking transport failed before a response came back.
    BlockingRequestError(ureq::Error),
    /// The non-blocking transport failed before a response came back.
    NonBlockingRequestError(reqwest::Error),
    /// A response came back with a status other than 200.
    IftttResponseError,
}

impl From<ureq::Error> for TriggerError {
    fn from(e: ureq::Error) -> (r: Self)
        ensures
            r == TriggerError::BlockingRequestError(e),
    {
        TriggerError::BlockingRequestError(e)
    }
}

impl vstd::std_specs::convert::FromSpecImpl<ureq::Error> for TriggerError {
    open spec fn obeys_from_spec() -> bool {
        true
    }

    open spec fn from_spec(e: ureq::Error) -> Self {
        TriggerError::BlockingRequestError(e)
    }
}

impl From<reqwest::Error> for TriggerError {
    fn from(e: reqwest::Error) -> (r: Self)
        ensures
            r == TriggerError::NonBlockingRequestError(e),
    {
        TriggerError::NonBlockingRequestError(e)
    }
}

impl vstd::std_specs::convert::FromSpecImpl<reqwest::Error> for TriggerError {
    open spec fn obeys_from_spec() -> bool {
        true
    }

    open spec fn from_spec(e: reqwest::Error) -> Self {
        TriggerError::NonBlockingRequestError(e)
    }
}

/// The only status that counts as success.
pub const STATUS_OK: u16 = 200;

/// Classifies a response status: exactly 200 is success, any other status
/// (other 2xx codes included) is an unexpected response.
pub fn check_status(status: u16) -> (r: Result<(), TriggerError>)
    ensures
        r is Ok <==> status == STATUS_OK,
        r is Err ==> r matches Err(TriggerError::IftttResponseError),
{
    if status != STATUS_OK {
        return Err(TriggerError::IftttResponseError);
    }
    Ok(())
}

/// Classifies what the blocking transport reported: a response status, or
/// a transport failure, which is passed on and never taken for a response.
pub fn blocking_outcome(outcome: Result<u16, ureq::Error>) -> (r: Result<(), TriggerError>)
    ensures
        match outcome {
            Ok(status) => (r is Ok <==> status == STATUS_OK) && (r is Err ==> r matches Err(
                TriggerError::IftttResponseError,
            )),
            Err(e) => r == Err::<(), TriggerError>(TriggerError::BlockingRequestError(e)),
        },
{
    match outcome {
        Ok(status) => check_status(status),
        Err(e) => Err(TriggerError::BlockingRequestError(e)),
    }
}

/// Classifies what the non-blocking transport reported, as
/// `blocking_outcome` does.
pub fn nonblocking_outcome(outcome: Result<u16, reqwest::Error>) -> (r: Result<(), TriggerError>)
    ensures
        match outcome {
            Ok(status) => (r is Ok <==> status == STATUS_OK) && (r is Err ==> r matches Err(
                TriggerError::IftttResponseError,
            )),
            Err(e) => r == Err::<(), TriggerError>(TriggerError::NonBlockingRequestError(e)),
        },
{
    match outcome {
        Ok(status) => check_status(status),
        Err(e) => Err(TriggerError::NonBlockingRequestError(e)),
    }
}

} // verus!
