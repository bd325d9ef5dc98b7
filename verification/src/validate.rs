//! The checks that a decoded response header has to pass.

use crate::codec::{ResponseHeader, PROTOCOL_VERSION};
use crate::failure::{AttemptOutcome, Failure, FailureView, OutcomeView};
use vstd::prelude::*;
use vstd::string::StringSliceAdditionalSpecFns;
use vstd::utf8::encode_utf8;

verus! {

/// The number of bytes that `username` takes on the wire.
pub open spec fn byte_length(username: Seq<char>) -> nat {
    encode_utf8(username).len()
}

/// The first check that `header` does not pass, if there is one. The checks, in
/// their order: the version is the client's, the user was found, the stored name
/// is one byte longer than the name asked for, the user id is the expected one.
pub open spec fn first_violation(
    header: ResponseHeader,
    username: Seq<char>,
    expected_uid: u32,
) -> Option<FailureView> {
    if header.version != PROTOCOL_VERSION {
        Some(FailureView::VersionMismatch { received: header.version, expected: PROTOCOL_VERSION })
    } else if header.found != 1 {
        Some(FailureView::NotFound { username })
    } else if header.pw_name_len != byte_length(username) + 1 {
        Some(FailureView::NameLengthMismatch)
    } else if header.pw_uid != expected_uid {
        Some(FailureView::UidMismatch { username, uid: header.pw_uid })
    } else {
        None
    }
}

/// What the checks make of `header`.
pub open spec fn verdict(header: ResponseHeader, username: Seq<char>, expected_uid: u32) -> OutcomeView {
    match first_violation(header, username, expected_uid) {
        Some(failure) => OutcomeView::Failed(failure),
        None => OutcomeView::Success,
    }
}

/// Checks `header` against the name that was asked for and the user id that is
/// expected, and reports the first check that fails.
pub fn validate_response(header: &ResponseHeader, username: &str, expected_uid: u32) -> (outcome:
    AttemptOutcome)
    ensures
        outcome@ == verdict(*header, username@, expected_uid),
{
    if header.version != PROTOCOL_VERSION {
        return AttemptOutcome::Failed(
            Failure::VersionMismatch { received: header.version, expected: PROTOCOL_VERSION },
        );
    }
    if header.found != 1 {
        return AttemptOutcome::Failed(Failure::NotFound { username: username.to_owned() });
    }
    let sent = username.as_bytes().len();
    if header.pw_name_len < 1 || (header.pw_name_len - 1) as usize != sent {
        return AttemptOutcome::Failed(Failure::NameLengthMismatch);
    }
    if header.pw_uid != expected_uid {
        return AttemptOutcome::Failed(
            Failure::UidMismatch { username: username.to_owned(), uid: header.pw_uid },
        );
    }
    AttemptOutcome::Success
}

/// A response passes exactly when all four checks hold.
pub proof fn lemma_success_means_all_checks(
    header: ResponseHeader,
    username: Seq<char>,
    expected_uid: u32,
)
    ensures
        verdict(header, username, expected_uid) is Success <==> {
            &&& header.version == PROTOCOL_VERSION
            &&& header.found == 1
            &&& header.pw_name_len == byte_length(username) + 1
            &&& header.pw_uid == expected_uid
        },
{
}

/// A response of another protocol version is a version mismatch, whatever its
/// other fields hold: the version is checked first.
pub proof fn lemma_version_checked_first(
    header: ResponseHeader,
    username: Seq<char>,
    expected_uid: u32,
)
    requires
        header.version != PROTOCOL_VERSION,
    ensures
        verdict(header, username, expected_uid) == OutcomeView::Failed(
            FailureView::VersionMismatch { received: header.version, expected: PROTOCOL_VERSION },
        ),
{
}

/// A response of the client's version whose found flag is not 1 says that the
/// user was not found, whatever its other fields hold.
pub proof fn lemma_not_found(header: ResponseHeader, username: Seq<char>, expected_uid: u32)
    requires
        header.version == PROTOCOL_VERSION,
        header.found != 1,
    ensures
        verdict(header, username, expected_uid) == OutcomeView::Failed(
            FailureView::NotFound { username },
        ),
{
}

} // verus!
