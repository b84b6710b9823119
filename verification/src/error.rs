use vstd::prelude::*;
use vstd::std_specs::convert::FromSpecImpl;

verus! {

/// reqwest's account of an exchange that failed, carried through unread.
#[verifier::external_type_specification]
#[verifier::external_body]
pub struct ExReqwestError(reqwest::Error);

/// Encapsulates any "unexpected" data
/// returned from Dune upon a bad request.
#[derive(Debug)]
pub struct DuneError {
    pub error: String,
}

/// Everything that can go wrong with a request to Dune.
#[derive(Debug, PartialEq)]
pub enum DuneRequestError {
    /// The service took the request and reported a failure of its own.
    /// Includes known errors:
    /// "invalid API Key"
    /// "Query not found"
    /// "The requested execution ID (ID: wonky job ID) is invalid."
    Dune(String),
    /// The exchange itself failed: errors bubbled up from `reqwest::Error`
    /// that are no decoding errors.
    Request(String),
    /// The body of a response did not have the expected shape.
    Decode(String),
}

/// Whether `reqwest::Error::is_decode` holds of a failure: whether it arose
/// in decoding the body of a response.
pub uninterp spec fn failure_is_decode(failure: reqwest::Error) -> bool;

/// The text that the `Display` of `reqwest::Error` writes for a failure.
pub uninterp spec fn failure_message(failure: reqwest::Error) -> String;

/// Calls `reqwest::Error::is_decode`. Trusted: the answer depends on the
/// failure alone.
#[verifier::external_body]
fn is_decode(failure: &reqwest::Error) -> (decode: bool)
    ensures
        decode == failure_is_decode(*failure),
{
    failure.is_decode()
}

/// Calls the `Display` of `reqwest::Error` through `to_string`. Trusted:
/// the text depends on the failure alone.
#[verifier::external_body]
fn message(failure: &reqwest::Error) -> (text: String)
    ensures
        text == failure_message(*failure),
{
    failure.to_string()
}

impl DuneRequestError {
    /// The error that stands for a failed exchange, by what the failure is
    /// and says: a decoding error where the body of the response could not
    /// be decoded, a request error otherwise, each with the message.
    pub open spec fn of_exchange(decode: bool, message: String) -> DuneRequestError {
        if decode {
            DuneRequestError::Decode(message)
        } else {
            DuneRequestError::Request(message)
        }
    }

    /// The error that stands for a failure of reqwest.
    pub open spec fn of_failure(failure: reqwest::Error) -> DuneRequestError {
        DuneRequestError::of_exchange(failure_is_decode(failure), failure_message(failure))
    }

    /// Makes the error that stands for a failed exchange: `decode` tells
    /// whether the failure arose in decoding the body of the response,
    /// `message` is its text.
    pub fn from_exchange(decode: bool, message: String) -> (error: DuneRequestError)
        ensures
            error == DuneRequestError::of_exchange(decode, message),
    {
        if decode {
            DuneRequestError::Decode(message)
        } else {
            DuneRequestError::Request(message)
        }
    }
}

impl From<DuneError> for DuneRequestError {
    fn from(value: DuneError) -> (error: Self) {
        DuneRequestError::Dune(value.error)
    }
}

impl FromSpecImpl<DuneError> for DuneRequestError {
    open spec fn obeys_from_spec() -> bool {
        true
    }

    open spec fn from_spec(value: DuneError) -> Self {
        DuneRequestError::Dune(value.error)
    }
}

impl From<reqwest::Error> for DuneRequestError {
    fn from(value: reqwest::Error) -> (error: Self) {
        DuneRequestError::from_exchange(is_decode(&value), message(&value))
    }
}

impl FromSpecImpl<reqwest::Error> for DuneRequestError {
    open spec fn obeys_from_spec() -> bool {
        true
    }

    open spec fn from_spec(value: reqwest::Error) -> Self {
        DuneRequestError::of_failure(value)
    }
}

} // verus!
