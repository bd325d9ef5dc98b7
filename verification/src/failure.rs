//! Why an attempt failed, and the message that reports it.

use crate::decimal::{decimal_string, decimal_text};
use crate::wire::error_text;
use vstd::prelude::*;
use vstd::string::StringExecFns;

verus! {

/// The reason for which one attempt did not succeed.
#[derive(Clone, Debug, PartialEq, Eq)]
pub enum Failure {
    /// No connection to the daemon's socket; `reason` is the system's text.
    Connect { reason: String },
    /// The request could not be written to the socket; `reason` is the system's text.
    Write { reason: String },
    /// The request could not be put into bytes.
    Encode { reason: String },
    /// The response is too short for a header.
    Decode { reason: String },
    /// The daemon speaks another protocol version than the request.
    VersionMismatch { received: i32, expected: i32 },
    /// The daemon does not know the user.
    NotFound { username: String },
    /// The stored name is not one byte longer than the name that was asked for.
    NameLengthMismatch,
    /// The daemon reports another user id than the expected one.
    UidMismatch { username: String, uid: u32 },
}

/// A `Failure` with its texts as sequences of characters.
pub enum FailureView {
    Connect { reason: Seq<char> },
    Write { reason: Seq<char> },
    Encode { reason: Seq<char> },
    Decode { reason: Seq<char> },
    VersionMismatch { received: i32, expected: i32 },
    NotFound { username: Seq<char> },
    NameLengthMismatch,
    UidMismatch { username: Seq<char>, uid: u32 },
}

impl View for Failure {
    type V = FailureView;

    open spec fn view(&self) -> FailureView {
        match self {
            Failure::Connect { reason } => FailureView::Connect { reason: reason@ },
            Failure::Write { reason } => FailureView::Write { reason: reason@ },
            Failure::Encode { reason } => FailureView::Encode { reason: reason@ },
            Failure::Decode { reason } => FailureView::Decode { reason: reason@ },
            Failure::VersionMismatch { received, expected } => FailureView::VersionMismatch {
                received: *received,
                expected: *expected,
            },
            Failure::NotFound { username } => FailureView::NotFound { username: username@ },
            Failure::NameLengthMismatch => FailureView::NameLengthMismatch,
            Failure::UidMismatch { username, uid } => FailureView::UidMismatch {
                username: username@,
                uid: *uid,
            },
        }
    }
}

impl FailureView {
    /// The message that reports this failure.
    pub open spec fn message(self) -> Seq<char> {
        match self {
            FailureView::Connect { reason } => reason,
            FailureView::Write { reason } => reason,
            FailureView::Encode { reason } => "Could not serialize request: "@ + reason,
            FailureView::Decode { reason } => "Could not deserialize response: "@ + reason,
            FailureView::VersionMismatch { received, expected } => "Unexpected protocol version: "@
                + decimal_text(received as int) + ". Expected "@ + decimal_text(expected as int),
            FailureView::NotFound { username } => "User "@ + username + " not found"@,
            FailureView::NameLengthMismatch => "Wrong name length was returned"@,
            FailureView::UidMismatch { username, uid } => "Wrong UID returned for user "@ + username
                + ": "@ + decimal_text(uid as int),
        }
    }
}

impl Failure {
    /// The message that reports this failure.
    pub fn message(&self) -> (text: String)
        ensures
            text@ == self@.message(),
    {
        match self {
            Failure::Connect { reason } => reason.clone(),
            Failure::Write { reason } => reason.clone(),
            Failure::Encode { reason } => {
                String::from_str("Could not serialize request: ").concat(reason.as_str())
            },
            Failure::Decode { reason } => {
                String::from_str("Could not deserialize response: ").concat(reason.as_str())
            },
            Failure::VersionMismatch { received, expected } => {
                let mut text = String::from_str("Unexpected protocol version: ");
                text.append(decimal_string(*received as i64).as_str());
                text.append(". Expected ");
                text.append(decimal_string(*expected as i64).as_str());
                text
            },
            Failure::NotFound { username } => {
                let mut text = String::from_str("User ");
                text.append(username.as_str());
                text.append(" not found");
                text
            },
            Failure::NameLengthMismatch => String::from_str("Wrong name length was returned"),
            Failure::UidMismatch { username, uid } => {
                let mut text = String::from_str("Wrong UID returned for user ");
                text.append(username.as_str());
                text.append(": ");
                text.append(decimal_string(*uid as i64).as_str());
                text
            },
        }
    }

    /// The failure that an error of the byte encoder stands for.
    pub fn from_encode_error(error: &bincode::Error) -> (failure: Failure)
        ensures
            failure is Encode,
    {
        Failure::encode_failure(error_text(error))
    }

    /// The failure that an error of the byte decoder stands for.
    pub fn from_decode_error(error: &bincode::Error) -> (failure: Failure)
        ensures
            failure is Decode,
    {
        Failure::decode_failure(error_text(error))
    }

    /// The encode failure whose reason is the given text of the encoder's error.
    pub fn encode_failure(reason: String) -> (failure: Failure)
        ensures
            failure@ == (FailureView::Encode { reason: reason@ }),
    {
        Failure::Encode { reason }
    }

    /// The decode failure whose reason is the given text of the decoder's error.
    pub fn decode_failure(reason: String) -> (failure: Failure)
        ensures
            failure@ == (FailureView::Decode { reason: reason@ }),
    {
        Failure::Decode { reason }
    }
}

/// What one attempt came to.
#[derive(Clone, Debug, PartialEq, Eq)]
pub enum AttemptOutcome {
    /// The daemon answered, and the answer passed every check.
    Success,
    /// The attempt failed for the given reason.
    Failed(Failure),
}

/// An `AttemptOutcome` over the view of its failure.
pub enum OutcomeView {
    Success,
    Failed(FailureView),
}

impl View for AttemptOutcome {
    type V = OutcomeView;

    open spec fn view(&self) -> OutcomeView {
        match self {
            AttemptOutcome::Success => OutcomeView::Success,
            AttemptOutcome::Failed(failure) => OutcomeView::Failed(failure@),
        }
    }
}

} // verus!
