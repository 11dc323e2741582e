use headscale_operator::Error;
use headscale_operator::admin::build_create_key;
use headscale_operator::admin::build_create_user;
use headscale_operator::admin::build_destroy_user;
use headscale_operator::admin::build_list_users;
use headscale_operator::admin::build_remote_command;
use headscale_operator::admin::build_revoke_key;
use headscale_operator::admin::decode_key_data;
use headscale_operator::admin::decode_timestamp;
use headscale_operator::admin::decode_user_data;
use headscale_operator::admin::decode_user_list;
use headscale_operator::admin::interpret_ack_reply;
use headscale_operator::admin::interpret_key_reply;
use headscale_operator::admin::interpret_list_reply;
use headscale_operator::admin::interpret_user_reply;
use headscale_operator::admin::require_target_pod;
use headscale_operator::cmd::CmdBuilder;
use headscale_operator::crds::user::UserSpec;
use headscale_operator::crds::headscale::HeadscaleRef;
use headscale_operator::crds::preauth_key::PreauthKeySpec;
use headscale_operator::crds::user::UserRef;
use headscale_operator::exec_channel::ChannelStatus;
use headscale_operator::exec_channel::RemoteCommandOutcome;
use headscale_operator::exec_channel::classify_outcome;
use headscale_operator::strutil::bytes_starts_with;
use headscale_operator::strutil::str_starts_with;
use headscale_operator::strutil::u64_to_string;

fn jv(s: &str) -> serde_json::Value {
    serde_json::from_str(s).unwrap()
}

#[test]
fn classify_exit_zero_is_success_with_stdout() {
    let st = ChannelStatus {
        status: Some("Success".to_string()),
        code: None,
        message: None,
    };
    let r = classify_outcome(st, "hello".to_string(), "".to_string());
    match r {
        RemoteCommandOutcome::Success(out) => assert_eq!(out, "hello"),
        _ => panic!("expected success"),
    }
}

#[test]
fn classify_exit_nonzero_is_failure_with_stderr() {
    let st = ChannelStatus {
        status: Some("Failure".to_string()),
        code: Some(1),
        message: None,
    };
    let r = classify_outcome(st, "".to_string(), "denied".to_string());
    match r {
        RemoteCommandOutcome::Failure(code, err) => {
            assert_eq!(code, 1);
            assert_eq!(err, "denied");
        }
        _ => panic!("expected failure"),
    }
}

#[test]
fn classify_no_status_is_indeterminate() {
    let st = ChannelStatus { status: None, code: None, message: None };
    let r = classify_outcome(st, "out".to_string(), "err".to_string());
    match r {
        RemoteCommandOutcome::Indeterminate(msg) => {
            assert_eq!(msg, "unknown channel completion status");
        }
        _ => panic!("expected indeterminate"),
    }
}

#[test]
fn classify_unknown_status_keeps_channel_message() {
    let st = ChannelStatus {
        status: Some("Weird".to_string()),
        code: Some(0),
        message: Some("half-closed".to_string()),
    };
    let r = classify_outcome(st, "".to_string(), "".to_string());
    match r {
        RemoteCommandOutcome::Indeterminate(msg) => assert_eq!(msg, "half-closed"),
        _ => panic!("expected indeterminate"),
    }
}

#[test]
fn classify_failure_without_code_reports_zero() {
    let st = ChannelStatus {
        status: Some("Failure".to_string()),
        code: None,
        message: None,
    };
    match classify_outcome(st, "".to_string(), "broken".to_string()) {
        RemoteCommandOutcome::Failure(code, err) => {
            assert_eq!(code, 0);
            assert_eq!(err, "broken");
        }
        _ => panic!("expected failure"),
    }
}

#[test]
fn decode_timestamp_reads_both_members() {
    let t = decode_timestamp(&jv("{\"seconds\": 12, \"nanos\": 34}")).unwrap();
    assert_eq!(t.seconds, 12);
    assert_eq!(t.nanos, 34);
    assert!(decode_timestamp(&jv("{\"seconds\": 12}")).is_none());
    assert!(decode_timestamp(&jv("{\"seconds\": -1, \"nanos\": 0}")).is_none());
    assert!(decode_timestamp(&jv("7")).is_none());
}

#[test]
fn decode_user_record_reads_profile_fields() {
    let d = decode_user_data(&jv(
        "{\"id\": 7, \"name\": \"alice\", \"email\": \"a@b.c\", \
         \"created_at\": {\"seconds\": 1, \"nanos\": 2}}",
    ))
    .unwrap();
    assert_eq!(d.id, 7);
    assert_eq!(d.name, "alice");
    assert_eq!(d.email.as_deref(), Some("a@b.c"));
    assert!(d.display_name.is_none());
    assert!(d.picture_url.is_none());
    assert_eq!(d.created_at.unwrap().seconds, 1);
}

#[test]
fn decode_user_record_rejects_missing_or_malformed_fields() {
    assert!(decode_user_data(&jv("{\"name\": \"alice\"}")).is_none());
    assert!(decode_user_data(&jv("{\"id\": 7}")).is_none());
    assert!(decode_user_data(&jv("{\"id\": 5000000000, \"name\": \"a\"}")).is_none());
    assert!(decode_user_data(&jv("{\"id\": -1, \"name\": \"a\"}")).is_none());
    assert!(decode_user_data(&jv("{\"id\": 7.5, \"name\": \"a\"}")).is_none());
    assert!(decode_user_data(&jv("{\"id\": 7, \"name\": \"a\", \"email\": 4}")).is_none());
    assert!(decode_user_data(&jv("{\"id\": 7, \"name\": \"a\", \"created_at\": 3}")).is_none());
    assert!(decode_user_data(&jv("[]")).is_none());
    // the largest representable identifier is accepted
    let d = decode_user_data(&jv("{\"id\": 4294967295, \"name\": \"a\"}")).unwrap();
    assert_eq!(d.id, u32::MAX);
    // null for an optional field is treated as absent
    let d = decode_user_data(&jv("{\"id\": 7, \"name\": \"a\", \"email\": null}")).unwrap();
    assert!(d.email.is_none());
    // unknown members are ignored
    let d = decode_user_data(&jv("{\"id\": 7, \"name\": \"a\", \"extra\": [1]}")).unwrap();
    assert_eq!(d.id, 7);
}

#[test]
fn decode_key_record_reads_nested_user_and_defaults() {
    let d = decode_key_data(&jv(
        "{\"id\": 3, \"user\": {\"id\": 7, \"name\": \"alice\"}, \"key\": \"k-123\", \
         \"expiration\": {\"seconds\": 9, \"nanos\": 0}, \
         \"created_at\": {\"seconds\": 8, \"nanos\": 0}}",
    ))
    .unwrap();
    assert_eq!(d.id, 3);
    assert_eq!(d.user.id, 7);
    assert_eq!(d.key, "k-123");
    assert!(!d.reusable);
    assert!(!d.ephemeral);
    assert_eq!(d.expiration.seconds, 9);
}

#[test]
fn decode_key_record_rejects_missing_key_value() {
    assert!(decode_key_data(&jv(
        "{\"id\": 3, \"user\": {\"id\": 7, \"name\": \"a\"}, \
         \"expiration\": {\"seconds\": 9, \"nanos\": 0}, \
         \"created_at\": {\"seconds\": 8, \"nanos\": 0}}"
    ))
    .is_none());
}

#[test]
fn decode_user_list_reads_every_record() {
    let list = decode_user_list(&jv(
        "[{\"id\": 1, \"name\": \"a\"}, {\"id\": 2, \"name\": \"b\"}]",
    ))
    .unwrap();
    assert_eq!(list.len(), 2);
    assert_eq!(list[0].name, "a");
    assert_eq!(list[1].id, 2);
    assert!(decode_user_list(&jv("[{\"id\": 1, \"name\": \"a\"}, {\"id\": 2}]")).is_none());
    assert!(decode_user_list(&jv("{\"id\": 1}")).is_none());
    assert_eq!(decode_user_list(&jv("[]")).unwrap().len(), 0);
}

#[test]
fn interpret_user_reply_decodes_successful_output() {
    let ok = interpret_user_reply(RemoteCommandOutcome::Success(
        "{\"id\": 7, \"name\": \"alice\"}\n".to_string(),
    ));
    assert_eq!(ok.unwrap().id, 7);
    let bad_json = interpret_user_reply(RemoteCommandOutcome::Success("oops".to_string()));
    assert!(matches!(bad_json, Err(Error::MalformedJson)));
    let bad_record = interpret_user_reply(RemoteCommandOutcome::Success("{}".to_string()));
    assert!(matches!(bad_record, Err(Error::MalformedRecord)));
    let failed = interpret_user_reply(RemoteCommandOutcome::Failure(2, "no".to_string()));
    match failed {
        Err(Error::RemoteFailure { code, stderr }) => {
            assert_eq!(code, 2);
            assert_eq!(stderr, "no");
        }
        _ => panic!("expected remote failure"),
    }
    let unknown =
        interpret_user_reply(RemoteCommandOutcome::Indeterminate("gone".to_string()));
    match unknown {
        Err(Error::RemoteIndeterminate { message }) => assert_eq!(message, "gone"),
        _ => panic!("expected indeterminate error"),
    }
}

#[test]
fn interpret_key_reply_decodes_successful_output() {
    let ok = interpret_key_reply(RemoteCommandOutcome::Success(
        "{\"id\": 3, \"user\": {\"id\": 7, \"name\": \"alice\"}, \"key\": \"k-123\", \
         \"reusable\": true, \
         \"expiration\": {\"seconds\": 9, \"nanos\": 0}, \
         \"created_at\": {\"seconds\": 8, \"nanos\": 0}}"
            .to_string(),
    ))
    .unwrap();
    assert_eq!(ok.key, "k-123");
    assert!(ok.reusable);
    let err = interpret_key_reply(RemoteCommandOutcome::Indeterminate("x".to_string()));
    assert!(matches!(err, Err(Error::RemoteIndeterminate { .. })));
}

#[test]
fn interpret_list_reply_decodes_every_record() {
    let ok = interpret_list_reply(RemoteCommandOutcome::Success(
        "[{\"id\": 1, \"name\": \"a\"}, {\"id\": 2, \"name\": \"b\"}]".to_string(),
    ))
    .unwrap();
    assert_eq!(ok.len(), 2);
    assert_eq!(ok[1].name, "b");
    assert!(matches!(
        interpret_list_reply(RemoteCommandOutcome::Success("{\"id\": 1}".to_string())),
        Err(Error::MalformedRecord)
    ));
}

#[test]
fn interpret_ack_reply_needs_no_payload() {
    assert!(interpret_ack_reply(RemoteCommandOutcome::Success("".to_string())).is_ok());
    assert!(matches!(
        interpret_ack_reply(RemoteCommandOutcome::Failure(1, "e".to_string())),
        Err(Error::RemoteFailure { .. })
    ));
}

#[test]
fn missing_target_pod_fails_fast() {
    assert!(matches!(require_target_pod(None), Err(Error::NoTargetPod)));
    assert_eq!(require_target_pod(Some("pod-0".to_string())).unwrap(), "pod-0");
}

#[test]
fn cmd_builder_collects_in_order_and_omits_absent_flags() {
    let none: Option<&String> = None;
    let display = "Alice A".to_string();
    let args = CmdBuilder::new("headscale")
        .arg("users")
        .option_arg("--display-name", Some(&display))
        .option_arg("--email", none)
        .bool_arg("--force", true)
        .bool_arg("--quiet", false)
        .collect();
    assert_eq!(args, vec!["headscale", "users", "--display-name", "Alice A", "--force"]);
}

#[test]
fn create_user_command_includes_only_given_fields() {
    let spec = UserSpec {
        display_name: Some("Alice A".to_string()),
        email: None,
        picture_url: None,
        headscale_ref: HeadscaleRef { name: "hs1".to_string(), namespace: None },
    };
    let cmd = build_remote_command(build_create_user("alice", &spec));
    assert_eq!(
        cmd,
        vec!["headscale", "-o", "json-line", "users", "create", "alice", "--display-name", "Alice A"]
    );
    let bare = UserSpec {
        display_name: None,
        email: None,
        picture_url: None,
        headscale_ref: HeadscaleRef { name: "hs1".to_string(), namespace: None },
    };
    assert_eq!(build_create_user("bob", &bare), vec!["users", "create", "bob"]);
}

#[test]
fn destroy_user_command_carries_identifier_and_force() {
    assert_eq!(
        build_destroy_user(42),
        vec!["users", "destroy", "--identifier", "42", "--force"]
    );
}

#[test]
fn create_key_command_carries_user_expiration_and_flags() {
    let spec = PreauthKeySpec {
        ephemeral: true,
        reusable: false,
        expiration: "1h".to_string(),
        target_secret: None,
        user: UserRef { name: "u".to_string(), namespace: None },
    };
    assert_eq!(
        build_create_key(7, &spec),
        vec!["preauthkeys", "create", "--user", "7", "--expiration", "1h", "--ephemeral"]
    );
}

#[test]
fn revoke_key_command_is_fully_formed() {
    assert_eq!(
        build_revoke_key(7, "k-123"),
        vec!["headscale", "preauthkeys", "revoke", "--user", "7", "k-123"]
    );
}

#[test]
fn list_users_command_asks_for_structured_output() {
    assert_eq!(build_list_users(), vec!["users", "list", "--output", "json-line"]);
}

#[test]
fn decimal_rendering_matches_expected_text() {
    assert_eq!(u64_to_string(0), "0");
    assert_eq!(u64_to_string(7), "7");
    assert_eq!(u64_to_string(1234567890), "1234567890");
    assert_eq!(u64_to_string(u64::MAX), "18446744073709551615");
}

#[test]
fn byte_prefix_checks() {
    assert!(bytes_starts_with(b"headscale serve", b"headscale"));
    assert!(!bytes_starts_with(b"head", b"headscale"));
    assert!(bytes_starts_with(b"x", b""));
    assert!(str_starts_with("headscale\0serve\0--config", "headscale\0serve\0"));
    assert!(!str_starts_with("tailscaled", "headscale"));
}
