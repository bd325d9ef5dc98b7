use nscd_probe::attempt::{conclude_attempt, judge_response, lookup_request, LookupConfig, TransportError};
use nscd_probe::byte_order::ByteOrder;
use nscd_probe::codec::{ProtocolCodec, ResponseHeader};
use nscd_probe::failure::{AttemptOutcome, Failure};
use nscd_probe::validate::validate_response;

fn good_header() -> ResponseHeader {
    ResponseHeader {
        version: 2,
        found: 1,
        pw_name_len: 5,
        pw_passwd_len: 2,
        pw_uid: 0,
        pw_gid: 0,
        pw_gecos_len: 5,
        pw_dir_len: 6,
        pw_shell_len: 10,
    }
}

fn le_bytes(h: &ResponseHeader) -> Vec<u8> {
    let mut bytes = Vec::new();
    bytes.extend_from_slice(&h.version.to_le_bytes());
    bytes.extend_from_slice(&h.found.to_le_bytes());
    bytes.extend_from_slice(&h.pw_name_len.to_le_bytes());
    bytes.extend_from_slice(&h.pw_passwd_len.to_le_bytes());
    bytes.extend_from_slice(&h.pw_uid.to_le_bytes());
    bytes.extend_from_slice(&h.pw_gid.to_le_bytes());
    bytes.extend_from_slice(&h.pw_gecos_len.to_le_bytes());
    bytes.extend_from_slice(&h.pw_dir_len.to_le_bytes());
    bytes.extend_from_slice(&h.pw_shell_len.to_le_bytes());
    bytes
}

fn root_config() -> LookupConfig {
    LookupConfig::new("/var/run/nscd/socket".to_string(), "root".to_string(), 0, 100).unwrap()
}

#[test]
fn root_with_uid_zero_is_accepted() {
    let outcome = validate_response(&good_header(), "root", 0);
    assert_eq!(outcome, AttemptOutcome::Success);
}

#[test]
fn other_version_is_a_version_mismatch() {
    let mut header = good_header();
    header.version = 1;
    assert_eq!(
        validate_response(&header, "root", 0),
        AttemptOutcome::Failed(Failure::VersionMismatch { received: 1, expected: 2 })
    );
}

#[test]
fn version_is_checked_before_everything_else() {
    for version in [i32::MIN, -1, 0, 1, 3, i32::MAX] {
        for found in [0, 1, 2] {
            for name_len in [0, 5, 6] {
                for uid in [0u32, 5] {
                    let mut header = good_header();
                    header.version = version;
                    header.found = found;
                    header.pw_name_len = name_len;
                    header.pw_uid = uid;
                    assert_eq!(
                        validate_response(&header, "root", 0),
                        AttemptOutcome::Failed(Failure::VersionMismatch {
                            received: version,
                            expected: 2
                        })
                    );
                }
            }
        }
    }
}

#[test]
fn found_zero_is_not_found_whatever_else_holds() {
    for name_len in [-1, 0, 5, 6] {
        for uid in [0u32, 5, u32::MAX] {
            let mut header = good_header();
            header.found = 0;
            header.pw_name_len = name_len;
            header.pw_uid = uid;
            assert_eq!(
                validate_response(&header, "root", 0),
                AttemptOutcome::Failed(Failure::NotFound { username: "root".to_string() })
            );
        }
    }
}

#[test]
fn found_flag_other_than_one_is_not_found() {
    for found in [-1, 2, i32::MAX] {
        let mut header = good_header();
        header.found = found;
        assert_eq!(
            validate_response(&header, "root", 0),
            AttemptOutcome::Failed(Failure::NotFound { username: "root".to_string() })
        );
    }
}

#[test]
fn found_zero_with_other_version_is_a_version_mismatch() {
    let mut header = good_header();
    header.version = 1;
    header.found = 0;
    assert_eq!(
        validate_response(&header, "root", 0),
        AttemptOutcome::Failed(Failure::VersionMismatch { received: 1, expected: 2 })
    );
}

#[test]
fn name_length_must_be_one_more_than_sent() {
    for name_len in [i32::MIN, -1, 0, 1, 4, 6, i32::MAX] {
        let mut header = good_header();
        header.pw_name_len = name_len;
        assert_eq!(
            validate_response(&header, "root", 0),
            AttemptOutcome::Failed(Failure::NameLengthMismatch)
        );
    }
}

#[test]
fn name_length_counts_bytes() {
    let mut header = good_header();
    header.pw_name_len = 6;
    assert_eq!(validate_response(&header, "gr\u{fc}n", 0), AttemptOutcome::Success);
    header.pw_name_len = 5;
    assert_eq!(
        validate_response(&header, "gr\u{fc}n", 0),
        AttemptOutcome::Failed(Failure::NameLengthMismatch)
    );
}

#[test]
fn empty_name_expects_length_one() {
    let mut header = good_header();
    header.pw_name_len = 1;
    assert_eq!(validate_response(&header, "", 0), AttemptOutcome::Success);
    header.pw_name_len = 0;
    assert_eq!(
        validate_response(&header, "", 0),
        AttemptOutcome::Failed(Failure::NameLengthMismatch)
    );
}

#[test]
fn name_length_is_checked_before_uid() {
    let mut header = good_header();
    header.pw_name_len = 4;
    header.pw_uid = 5;
    assert_eq!(
        validate_response(&header, "root", 0),
        AttemptOutcome::Failed(Failure::NameLengthMismatch)
    );
}

#[test]
fn wrong_uid_is_a_uid_mismatch() {
    let mut header = good_header();
    header.pw_uid = 5;
    assert_eq!(
        validate_response(&header, "root", 0),
        AttemptOutcome::Failed(Failure::UidMismatch { username: "root".to_string(), uid: 5 })
    );
}

#[test]
fn expected_uid_other_than_zero() {
    let mut header = good_header();
    header.pw_uid = 1000;
    header.pw_name_len = 6;
    assert_eq!(validate_response(&header, "alice", 1000), AttemptOutcome::Success);
    assert_eq!(
        validate_response(&header, "alice", 1001),
        AttemptOutcome::Failed(Failure::UidMismatch { username: "alice".to_string(), uid: 1000 })
    );
}

#[test]
fn fields_that_are_not_checked_do_not_matter() {
    let mut header = good_header();
    header.pw_passwd_len = -7;
    header.pw_gid = 12345;
    header.pw_gecos_len = 0;
    header.pw_dir_len = i32::MAX;
    header.pw_shell_len = i32::MIN;
    assert_eq!(validate_response(&header, "root", 0), AttemptOutcome::Success);
}

#[test]
fn config_new_keeps_its_parts() {
    let config = LookupConfig::new("/tmp/sock".to_string(), "bob".to_string(), 7, 250).unwrap();
    assert_eq!(config.socket_path, "/tmp/sock");
    assert_eq!(config.username, "bob");
    assert_eq!(config.expected_uid, 7);
    assert_eq!(config.delay_ms, 250);
}

#[test]
fn lookup_request_asks_for_the_configured_user() {
    let config = root_config();
    let bytes = lookup_request(&config, &ProtocolCodec::new(ByteOrder::Little)).unwrap();
    assert_eq!(
        bytes,
        vec![2, 0, 0, 0, 0, 0, 0, 0, 4, 0, 0, 0, b'r', b'o', b'o', b't']
    );
    let bytes = lookup_request(&config, &ProtocolCodec::new(ByteOrder::Big)).unwrap();
    assert_eq!(
        bytes,
        vec![0, 0, 0, 2, 0, 0, 0, 0, 0, 0, 0, 4, b'r', b'o', b'o', b't']
    );
}

#[test]
fn judge_response_accepts_a_good_answer() {
    let config = root_config();
    let codec = ProtocolCodec::new(ByteOrder::Little);
    let mut bytes = le_bytes(&good_header());
    assert_eq!(judge_response(&config, &codec, &bytes), AttemptOutcome::Success);
    bytes.extend_from_slice(b"root\0x\0root\0/root\0/bin/bash\0");
    assert_eq!(judge_response(&config, &codec, &bytes), AttemptOutcome::Success);
}

#[test]
fn judge_response_reports_what_the_header_fails() {
    let config = root_config();
    let codec = ProtocolCodec::new(ByteOrder::Little);
    let mut header = good_header();
    header.pw_uid = 5;
    assert_eq!(
        judge_response(&config, &codec, &le_bytes(&header)),
        AttemptOutcome::Failed(Failure::UidMismatch { username: "root".to_string(), uid: 5 })
    );
    header.found = 0;
    assert_eq!(
        judge_response(&config, &codec, &le_bytes(&header)),
        AttemptOutcome::Failed(Failure::NotFound { username: "root".to_string() })
    );
}

#[test]
fn judge_response_reads_in_the_codecs_order() {
    let config = root_config();
    let bytes = le_bytes(&good_header());
    assert_eq!(
        judge_response(&config, &ProtocolCodec::new(ByteOrder::Big), &bytes),
        AttemptOutcome::Failed(Failure::VersionMismatch { received: 0x0200_0000, expected: 2 })
    );
}

#[test]
fn judge_response_short_answer_is_a_decode_failure() {
    let config = root_config();
    let codec = ProtocolCodec::new(ByteOrder::Little);
    let bytes = le_bytes(&good_header());
    for len in [0usize, 1, 4, 35] {
        let outcome = judge_response(&config, &codec, &bytes[..len]);
        assert!(matches!(outcome, AttemptOutcome::Failed(Failure::Decode { .. })));
    }
}

#[test]
fn conclude_attempt_passes_transport_errors_on() {
    let config = root_config();
    let codec = ProtocolCodec::new(ByteOrder::Little);
    let outcome = conclude_attempt(
        &config,
        &codec,
        Err(TransportError::Connect { reason: "No such file or directory (os error 2)".to_string() }),
    );
    assert_eq!(
        outcome,
        AttemptOutcome::Failed(Failure::Connect {
            reason: "No such file or directory (os error 2)".to_string()
        })
    );
    let outcome = conclude_attempt(
        &config,
        &codec,
        Err(TransportError::Write { reason: "Broken pipe (os error 32)".to_string() }),
    );
    assert_eq!(
        outcome,
        AttemptOutcome::Failed(Failure::Write { reason: "Broken pipe (os error 32)".to_string() })
    );
}

#[test]
fn conclude_attempt_judges_an_answer() {
    let config = root_config();
    let codec = ProtocolCodec::new(ByteOrder::Little);
    assert_eq!(
        conclude_attempt(&config, &codec, Ok(le_bytes(&good_header()))),
        AttemptOutcome::Success
    );
    let outcome = conclude_attempt(&config, &codec, Ok(vec![2, 0, 0, 0]));
    assert!(matches!(outcome, AttemptOutcome::Failed(Failure::Decode { .. })));
}

#[test]
fn transport_error_into_failure() {
    assert_eq!(
        TransportError::Connect { reason: "a".to_string() }.into_failure(),
        Failure::Connect { reason: "a".to_string() }
    );
    assert_eq!(
        TransportError::Write { reason: "b".to_string() }.into_failure(),
        Failure::Write { reason: "b".to_string() }
    );
}
