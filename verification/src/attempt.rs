//! One attempt: the request that is sent, and what the answer comes to.
//!
//! The exchange over the socket is the caller's part. The caller sends the bytes
//! of `lookup_request` and hands what came back to `conclude_attempt`.

use crate::codec::{
    header_of_bytes, request_bytes, ProtocolCodec, GET_USER_BY_NAME, PROTOCOL_VERSION,
    REQUEST_HEADER_LEN, RESPONSE_HEADER_LEN,
};
use crate::failure::{AttemptOutcome, Failure, FailureView, OutcomeView};
use crate::validate::{byte_length, validate_response, verdict};
use vstd::prelude::*;
use vstd::string::StringSliceAdditionalSpecFns;
use vstd::utf8::encode_utf8;

verus! {

/// What a run of the probe is asked to do.
#[derive(Clone, Debug, PartialEq, Eq)]
pub struct LookupConfig {
    /// Path of the daemon's socket.
    pub socket_path: String,
    /// Name of the user to look up.
    pub username: String,
    /// The user id that a correct answer holds.
    pub expected_uid: u32,
    /// Pause between two attempts, in milliseconds.
    pub delay_ms: u64,
}

impl LookupConfig {
    /// The user's name is short enough for its length to stand in a request.
    pub open spec fn wf(&self) -> bool {
        byte_length(self.username@) <= i32::MAX
    }

    /// The configuration with the given parts, unless the user's name is longer
    /// than a request can say.
    pub fn new(socket_path: String, username: String, expected_uid: u32, delay_ms: u64) -> (r:
        Option<LookupConfig>)
        ensures
            r is Some <==> byte_length(username@) <= i32::MAX,
            r matches Some(config) ==> {
                &&& config.wf()
                &&& config.socket_path == socket_path
                &&& config.username == username
                &&& config.expected_uid == expected_uid
                &&& config.delay_ms == delay_ms
            },
    {
        if username.as_str().as_bytes().len() > 0x7fff_ffff {
            None
        } else {
            Some(LookupConfig { socket_path, username, expected_uid, delay_ms })
        }
    }
}

/// Why the exchange over the socket brought no answer.
#[derive(Clone, Debug, PartialEq, Eq)]
pub enum TransportError {
    /// The socket is absent or refuses connections; `reason` is the system's text.
    Connect { reason: String },
    /// The request could not be written in full; `reason` is the system's text.
    Write { reason: String },
}

impl TransportError {
    /// The failure that this error is reported as.
    pub open spec fn failure(self) -> FailureView {
        match self {
            TransportError::Connect { reason } => FailureView::Connect { reason: reason@ },
            TransportError::Write { reason } => FailureView::Write { reason: reason@ },
        }
    }

    /// The failure that this error is reported as.
    pub fn into_failure(self) -> (failure: Failure)
        ensures
            failure@ == self.failure(),
    {
        match self {
            TransportError::Connect { reason } => Failure::Connect { reason },
            TransportError::Write { reason } => Failure::Write { reason },
        }
    }
}

/// The bytes of the request that asks the daemon for the configured user.
pub fn lookup_request(config: &LookupConfig, codec: &ProtocolCodec) -> (r: Result<Vec<u8>, Failure>)
    requires
        config.wf(),
    ensures
        r is Ok,
        r matches Ok(bytes) ==> bytes@ == request_bytes(
            codec.order,
            PROTOCOL_VERSION,
            GET_USER_BY_NAME,
            byte_length(config.username@) as i32,
            encode_utf8(config.username@),
        ),
        r matches Ok(bytes) ==> bytes@.len() == REQUEST_HEADER_LEN + byte_length(config.username@),
{
    codec.encode_request(PROTOCOL_VERSION, GET_USER_BY_NAME, config.username.as_str())
}

/// What the bytes of an answer come to: they are decoded as a response header,
/// and the header is checked against the configuration.
pub fn judge_response(config: &LookupConfig, codec: &ProtocolCodec, bytes: &[u8]) -> (outcome:
    AttemptOutcome)
    ensures
        bytes@.len() >= RESPONSE_HEADER_LEN ==> outcome@ == verdict(
            header_of_bytes(codec.order, bytes@),
            config.username@,
            config.expected_uid,
        ),
        bytes@.len() < RESPONSE_HEADER_LEN ==> outcome@ matches OutcomeView::Failed(
            FailureView::Decode { .. },
        ),
{
    match codec.decode_response_header(bytes) {
        Ok(header) => validate_response(&header, config.username.as_str(), config.expected_uid),
        Err(failure) => AttemptOutcome::Failed(failure),
    }
}

/// What an exchange comes to: a failed exchange is reported as it is, an
/// answer is judged by `judge_response`.
pub fn conclude_attempt(
    config: &LookupConfig,
    codec: &ProtocolCodec,
    exchange: Result<Vec<u8>, TransportError>,
) -> (outcome: AttemptOutcome)
    ensures
        match exchange {
            Err(error) => outcome@ == OutcomeView::Failed(error.failure()),
            Ok(bytes) => {
                &&& bytes@.len() >= RESPONSE_HEADER_LEN ==> outcome@ == verdict(
                    header_of_bytes(codec.order, bytes@),
                    config.username@,
                    config.expected_uid,
                )
                &&& bytes@.len() < RESPONSE_HEADER_LEN ==> outcome@ matches OutcomeView::Failed(
                    FailureView::Decode { .. },
                )
            },
        },
{
    match exchange {
        Ok(bytes) => judge_response(config, codec, bytes.as_slice()),
        Err(error) => AttemptOutcome::Failed(error.into_failure()),
    }
}

} // verus!
