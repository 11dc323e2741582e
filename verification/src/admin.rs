//! The administrative CLI surface: building argument vectors for the remote
//! commands, and decoding the structured records their replies carry.
//!
//! Replies arrive as single-line JSON records. Parsing the line is done by
//! the JSON boundary; the decoding of the parsed document into typed records
//! is verified here, field by field.

use vstd::prelude::*;

verus! {

use crate::Error;
use crate::cmd::CmdBuilder;
use crate::crds::Timestamp;
use crate::crds::preauth_key::PreauthKeyData;
use crate::crds::preauth_key::PreauthKeyDataView;
use crate::crds::preauth_key::PreauthKeySpecView;
use crate::crds::user::UserData;
use crate::crds::user::UserDataView;
use crate::crds::user::UserSpecView;
use crate::exec_channel::OutcomeView;
use crate::exec_channel::RemoteCommandOutcome;
use crate::json::Jv;
use crate::json::json_model;
use crate::json::json_parse;
use crate::json::parse_json;
use crate::json::value_as_array;
use crate::json::value_as_bool;
use crate::json::value_as_str;
use crate::json::value_as_u64;
use crate::json::value_get;
use crate::json::value_is_null;
use crate::strutil::dec_str;
use crate::strutil::u64_to_string;

// ------------------------------------------------------------------
// Decoding the CLI's JSON records.
// ------------------------------------------------------------------

/// A required unsigned field that must fit in `u32`.
pub open spec fn u32_field(m: Map<Seq<char>, Jv>, key: Seq<char>) -> Option<u32> {
    if m.dom().contains(key) {
        match m[key] {
            Jv::Int(i) => if 0 <= i <= u32::MAX as int {
                Some(i as u32)
            } else {
                None
            },
            _ => None,
        }
    } else {
        None
    }
}

/// A required string field.
pub open spec fn str_field(m: Map<Seq<char>, Jv>, key: Seq<char>) -> Option<Seq<char>> {
    if m.dom().contains(key) {
        match m[key] {
            Jv::Str(s) => Some(s),
            _ => None,
        }
    } else {
        None
    }
}

/// An optional string field: absent or null is no value, a string is a
/// value, anything else is a decoding error (the outer `None`).
pub open spec fn opt_str_field(m: Map<Seq<char>, Jv>, key: Seq<char>) -> Option<
    Option<Seq<char>>,
> {
    if !m.dom().contains(key) {
        Some(None)
    } else {
        match m[key] {
            Jv::Null => Some(None),
            Jv::Str(s) => Some(Some(s)),
            _ => None,
        }
    }
}

/// A boolean field that defaults to false when absent.
pub open spec fn bool_field_or_false(m: Map<Seq<char>, Jv>, key: Seq<char>) -> Option<bool> {
    if !m.dom().contains(key) {
        Some(false)
    } else {
        match m[key] {
            Jv::Bool(b) => Some(b),
            _ => None,
        }
    }
}

/// The timestamp a document decodes to: an object with whole-number
/// `seconds` and `nanos` members.
pub open spec fn timestamp_of_json(j: Jv) -> Option<Timestamp> {
    match j {
        Jv::Obj(m) => {
            if m.dom().contains("seconds"@) && m.dom().contains("nanos"@) {
                match (m["seconds"@], m["nanos"@]) {
                    (Jv::Int(s), Jv::Int(n)) => {
                        if 0 <= s <= u64::MAX as int && 0 <= n <= u64::MAX as int {
                            Some(Timestamp { seconds: s as u64, nanos: n as u64 })
                        } else {
                            None
                        }
                    },
                    _ => None,
                }
            } else {
                None
            }
        },
        _ => None,
    }
}

/// An optional timestamp field: absent or null is no value.
pub open spec fn opt_timestamp_field(m: Map<Seq<char>, Jv>, key: Seq<char>) -> Option<
    Option<Timestamp>,
> {
    if !m.dom().contains(key) {
        Some(None)
    } else {
        match m[key] {
            Jv::Null => Some(None),
            _ => match timestamp_of_json(m[key]) {
                Some(t) => Some(Some(t)),
                None => None,
            },
        }
    }
}

/// A required timestamp field.
pub open spec fn timestamp_field(m: Map<Seq<char>, Jv>, key: Seq<char>) -> Option<Timestamp> {
    if m.dom().contains(key) {
        timestamp_of_json(m[key])
    } else {
        None
    }
}

/// The remote user record a document decodes to.
pub open spec fn user_data_of_json(j: Jv) -> Option<UserDataView> {
    match j {
        Jv::Obj(m) => {
            match (
                u32_field(m, "id"@),
                str_field(m, "name"@),
                opt_timestamp_field(m, "created_at"@),
                opt_str_field(m, "email"@),
                opt_str_field(m, "display_name"@),
                opt_str_field(m, "picture_url"@),
            ) {
                (
                    Some(id),
                    Some(name),
                    Some(created_at),
                    Some(email),
                    Some(display_name),
                    Some(picture_url),
                ) => Some(
                    UserDataView { id, name, created_at, email, display_name, picture_url },
                ),
                _ => None,
            }
        },
        _ => None,
    }
}

/// The created-key record a document decodes to.
pub open spec fn key_data_of_json(j: Jv) -> Option<PreauthKeyDataView> {
    match j {
        Jv::Obj(m) => {
            if !m.dom().contains("user"@) {
                None
            } else {
                match (
                    u32_field(m, "id"@),
                    user_data_of_json(m["user"@]),
                    str_field(m, "key"@),
                    bool_field_or_false(m, "reusable"@),
                    bool_field_or_false(m, "ephemeral"@),
                    timestamp_field(m, "expiration"@),
                    timestamp_field(m, "created_at"@),
                ) {
                    (
                        Some(id),
                        Some(user),
                        Some(key),
                        Some(reusable),
                        Some(ephemeral),
                        Some(expiration),
                        Some(created_at),
                    ) => Some(
                        PreauthKeyDataView {
                            id,
                            user,
                            key,
                            reusable,
                            ephemeral,
                            expiration,
                            created_at,
                        },
                    ),
                    _ => None,
                }
            }
        },
        _ => None,
    }
}

/// Reads a required unsigned member that must fit in `u32`.
fn get_u32(v: &serde_json::Value, key: &str) -> (r: Option<u32>)
    ensures
        match json_model(*v) {
            Jv::Obj(m) => r == u32_field(m, key@),
            _ => r is None,
        },
{
    match value_get(v, key) {
        Some(x) => match value_as_u64(x) {
            Some(n) => if n <= u32::MAX as u64 {
                Some(n as u32)
            } else {
                None
            },
            None => None,
        },
        None => None,
    }
}

/// Reads a required string member.
fn get_string(v: &serde_json::Value, key: &str) -> (r: Option<String>)
    ensures
        match json_model(*v) {
            Jv::Obj(m) => r.deep_view() == str_field(m, key@),
            _ => r is None,
        },
{
    match value_get(v, key) {
        Some(x) => match value_as_str(x) {
            Some(s) => Some(s.to_owned()),
            None => None,
        },
        None => None,
    }
}

/// Reads an optional string member; `Err` marks a member of the wrong kind.
fn get_opt_string(v: &serde_json::Value, key: &str) -> (r: Result<Option<String>, ()>)
    ensures
        match json_model(*v) {
            Jv::Obj(m) => match r {
                Ok(o) => opt_str_field(m, key@) == Some(o.deep_view()),
                Err(()) => opt_str_field(m, key@) is None,
            },
            _ => r == Ok::<Option<String>, ()>(None),
        },
{
    match value_get(v, key) {
        None => Ok(None),
        Some(x) => {
            if value_is_null(x) {
                Ok(None)
            } else {
                match value_as_str(x) {
                    Some(s) => Ok(Some(s.to_owned())),
                    None => Err(()),
                }
            }
        },
    }
}

/// Reads a boolean member that defaults to false when absent; `Err` marks a
/// member of the wrong kind.
fn get_bool_or_false(v: &serde_json::Value, key: &str) -> (r: Result<bool, ()>)
    ensures
        match json_model(*v) {
            Jv::Obj(m) => match r {
                Ok(b) => bool_field_or_false(m, key@) == Some(b),
                Err(()) => bool_field_or_false(m, key@) is None,
            },
            _ => r == Ok::<bool, ()>(false),
        },
{
    match value_get(v, key) {
        None => Ok(false),
        Some(x) => match value_as_bool(x) {
            Some(b) => Ok(b),
            None => Err(()),
        },
    }
}

/// Decodes a timestamp document.
pub fn decode_timestamp(v: &serde_json::Value) -> (r: Option<Timestamp>)
    ensures
        r == timestamp_of_json(json_model(*v)),
{
    let seconds = match value_get(v, "seconds") {
        Some(x) => match value_as_u64(x) {
            Some(s) => s,
            None => {
                return None;
            },
        },
        None => {
            return None;
        },
    };
    let nanos = match value_get(v, "nanos") {
        Some(x) => match value_as_u64(x) {
            Some(n) => n,
            None => {
                return None;
            },
        },
        None => {
            return None;
        },
    };
    Some(Timestamp { seconds, nanos })
}

/// Reads an optional timestamp member; `Err` marks a member of the wrong
/// kind.
fn get_opt_timestamp(v: &serde_json::Value, key: &str) -> (r: Result<Option<Timestamp>, ()>)
    ensures
        match json_model(*v) {
            Jv::Obj(m) => match r {
                Ok(o) => opt_timestamp_field(m, key@) == Some(o),
                Err(()) => opt_timestamp_field(m, key@) is None,
            },
            _ => r == Ok::<Option<Timestamp>, ()>(None),
        },
{
    match value_get(v, key) {
        None => Ok(None),
        Some(x) => {
            if value_is_null(x) {
                Ok(None)
            } else {
                match decode_timestamp(x) {
                    Some(t) => Ok(Some(t)),
                    None => Err(()),
                }
            }
        },
    }
}

/// Reads a required timestamp member.
fn get_timestamp(v: &serde_json::Value, key: &str) -> (r: Option<Timestamp>)
    ensures
        match json_model(*v) {
            Jv::Obj(m) => r == timestamp_field(m, key@),
            _ => r is None,
        },
{
    match value_get(v, key) {
        Some(x) => decode_timestamp(x),
        None => None,
    }
}

/// Decodes the record the CLI reports for one remote user.
pub fn decode_user_data(v: &serde_json::Value) -> (r: Option<UserData>)
    ensures
        r matches Some(d) ==> user_data_of_json(json_model(*v)) == Some(d@),
        r is None ==> user_data_of_json(json_model(*v)) is None,
{
    let id = match get_u32(v, "id") {
        Some(id) => id,
        None => {
            return None;
        },
    };
    let name = match get_string(v, "name") {
        Some(n) => n,
        None => {
            return None;
        },
    };
    let created_at = match get_opt_timestamp(v, "created_at") {
        Ok(t) => t,
        Err(()) => {
            return None;
        },
    };
    let email = match get_opt_string(v, "email") {
        Ok(e) => e,
        Err(()) => {
            return None;
        },
    };
    let display_name = match get_opt_string(v, "display_name") {
        Ok(d) => d,
        Err(()) => {
            return None;
        },
    };
    let picture_url = match get_opt_string(v, "picture_url") {
        Ok(p) => p,
        Err(()) => {
            return None;
        },
    };
    Some(UserData { id, name, created_at, email, display_name, picture_url })
}

/// Decodes the record the CLI reports for one created key.
pub fn decode_key_data(v: &serde_json::Value) -> (r: Option<PreauthKeyData>)
    ensures
        r matches Some(d) ==> key_data_of_json(json_model(*v)) == Some(d@),
        r is None ==> key_data_of_json(json_model(*v)) is None,
{
    let id = match get_u32(v, "id") {
        Some(id) => id,
        None => {
            return None;
        },
    };
    let user = match value_get(v, "user") {
        Some(x) => match decode_user_data(x) {
            Some(u) => u,
            None => {
                return None;
            },
        },
        None => {
            return None;
        },
    };
    let key = match get_string(v, "key") {
        Some(k) => k,
        None => {
            return None;
        },
    };
    let reusable = match get_bool_or_false(v, "reusable") {
        Ok(b) => b,
        Err(()) => {
            return None;
        },
    };
    let ephemeral = match get_bool_or_false(v, "ephemeral") {
        Ok(b) => b,
        Err(()) => {
            return None;
        },
    };
    let expiration = match get_timestamp(v, "expiration") {
        Some(t) => t,
        None => {
            return None;
        },
    };
    let created_at = match get_timestamp(v, "created_at") {
        Some(t) => t,
        None => {
            return None;
        },
    };
    Some(PreauthKeyData { id, user, key, reusable, ephemeral, expiration, created_at })
}

// ------------------------------------------------------------------
// Building the argument vectors.
// ------------------------------------------------------------------

/// The fixed prefix of every remote command: the administrative binary and
/// the flag asking for structured single-line replies.
pub open spec fn exec_prefix() -> Seq<Seq<char>> {
    seq!["headscale"@, "-o"@, "json-line"@]
}

/// A full remote command: the fixed prefix followed by the subcommand.
pub open spec fn remote_command(sub: Seq<Seq<char>>) -> Seq<Seq<char>> {
    exec_prefix() + sub
}

/// Appends a named flag with its value, or nothing when the value is absent.
pub open spec fn opt_flag(args: Seq<Seq<char>>, flag: Seq<char>, v: Option<Seq<char>>) -> Seq<
    Seq<char>,
> {
    match v {
        Some(x) => args.push(flag).push(x),
        None => args,
    }
}

/// Appends a bare flag when the condition holds, or nothing.
pub open spec fn bool_flag(args: Seq<Seq<char>>, flag: Seq<char>, cond: bool) -> Seq<Seq<char>> {
    if cond {
        args.push(flag)
    } else {
        args
    }
}

/// The subcommand creating a tenant user: the user's object name, then one
/// flag for each profile field the spec provides.
pub open spec fn create_user_args(name: Seq<char>, spec: UserSpecView) -> Seq<Seq<char>> {
    opt_flag(
        opt_flag(
            opt_flag(seq!["users"@, "create"@, name], "--display-name"@, spec.display_name),
            "--picture-url"@,
            spec.picture_url,
        ),
        "--email"@,
        spec.email,
    )
}

/// The subcommand destroying a tenant user by its remote identifier.
pub open spec fn destroy_user_args(id: u32) -> Seq<Seq<char>> {
    seq!["users"@, "destroy"@, "--identifier"@, dec_str(id as nat), "--force"@]
}

/// The subcommand creating a pre-shared key for a user: the owning user's
/// remote identifier and the expiration, then each flag the spec sets.
pub open spec fn create_key_args(user_id: u32, spec: PreauthKeySpecView) -> Seq<Seq<char>> {
    bool_flag(
        bool_flag(
            seq![
                "preauthkeys"@,
                "create"@,
                "--user"@,
                dec_str(user_id as nat),
                "--expiration"@,
                spec.expiration,
            ],
            "--ephemeral"@,
            spec.ephemeral,
        ),
        "--reusable"@,
        spec.reusable,
    )
}

/// The full command revoking a pre-shared key of a user.
pub open spec fn revoke_key_command(user_id: u32, key: Seq<char>) -> Seq<Seq<char>> {
    seq![
        "headscale"@,
        "preauthkeys"@,
        "revoke"@,
        "--user"@,
        dec_str(user_id as nat),
        key,
    ]
}

/// The subcommand listing the remote users.
pub open spec fn list_users_args() -> Seq<Seq<char>> {
    seq!["users"@, "list"@, "--output"@, "json-line"@]
}

/// Prepends the fixed prefix to a subcommand, yielding the full argument
/// vector handed to the remote channel.
pub fn build_remote_command(sub: Vec<String>) -> (r: Vec<String>)
    ensures
        r.deep_view() == remote_command(sub.deep_view()),
{
    let ghost sub0 = sub.deep_view();
    let ghost sub_seq = sub@;
    let mut cmd = CmdBuilder::default().arg("headscale").arg("-o").arg("json-line").collect();
    assert(cmd.deep_view() =~= exec_prefix());
    let ghost pre_seq = cmd@;
    let ghost pre = cmd.deep_view();
    let mut rest = sub;
    cmd.append(&mut rest);
    proof {
        assert(cmd@ == pre_seq + sub_seq);
        assert forall|k: int| 0 <= k < cmd@.len() implies cmd.deep_view()[k] == remote_command(
            sub0,
        )[k] by {
            if k < pre_seq.len() {
                assert(cmd@[k] == pre_seq[k]);
                assert(cmd.deep_view()[k] == pre[k]);
            } else {
                assert(cmd@[k] == sub_seq[k - pre_seq.len()]);
                assert(cmd.deep_view()[k] == sub0[k - pre_seq.len()]);
            }
        }
        assert(cmd.deep_view() =~= remote_command(sub0));
    }
    cmd
}

/// Builds the subcommand creating a tenant user.
pub fn build_create_user(name: &str, spec: &crate::crds::user::UserSpec) -> (r: Vec<String>)
    ensures
        r.deep_view() == create_user_args(name@, spec@),
{
    let r = CmdBuilder::default()
        .arg("users")
        .arg("create")
        .arg(name)
        .option_arg("--display-name", spec.display_name.as_ref())
        .option_arg("--picture-url", spec.picture_url.as_ref())
        .option_arg("--email", spec.email.as_ref())
        .collect();
    assert(r.deep_view() =~= create_user_args(name@, spec@));
    r
}

/// Builds the subcommand destroying a tenant user.
pub fn build_destroy_user(id: u32) -> (r: Vec<String>)
    ensures
        r.deep_view() == destroy_user_args(id),
{
    let id_text = u64_to_string(id as u64);
    let r = CmdBuilder::default()
        .arg("users")
        .arg("destroy")
        .option_arg("--identifier", Some(&id_text))
        .arg("--force")
        .collect();
    assert(r.deep_view() =~= destroy_user_args(id));
    r
}

/// Builds the subcommand creating a pre-shared key.
pub fn build_create_key(user_id: u32, spec: &crate::crds::preauth_key::PreauthKeySpec) -> (r: Vec<
    String,
>)
    ensures
        r.deep_view() == create_key_args(user_id, spec@),
{
    let id_text = u64_to_string(user_id as u64);
    let r = CmdBuilder::default()
        .arg("preauthkeys")
        .arg("create")
        .option_arg("--user", Some(&id_text))
        .option_arg("--expiration", Some(&spec.expiration))
        .bool_arg("--ephemeral", spec.ephemeral)
        .bool_arg("--reusable", spec.reusable)
        .collect();
    assert(r.deep_view() =~= create_key_args(user_id, spec@));
    r
}

/// Builds the full command revoking a pre-shared key.
pub fn build_revoke_key(user_id: u32, key: &str) -> (r: Vec<String>)
    ensures
        r.deep_view() == revoke_key_command(user_id, key@),
{
    let id_text = u64_to_string(user_id as u64);
    let r = CmdBuilder::new("headscale")
        .arg("preauthkeys")
        .arg("revoke")
        .arg("--user")
        .arg(id_text.as_str())
        .arg(key)
        .collect();
    assert(r.deep_view() =~= revoke_key_command(user_id, key@));
    r
}

/// Builds the subcommand listing the remote users.
pub fn build_list_users() -> (r: Vec<String>)
    ensures
        r.deep_view() == list_users_args(),
{
    let r = CmdBuilder::default()
        .arg("users")
        .arg("list")
        .option_arg("--output", Some(&"json-line".to_owned()))
        .collect();
    assert(r.deep_view() =~= list_users_args());
    r
}

// ------------------------------------------------------------------
// Interpreting classified outcomes.
// ------------------------------------------------------------------

/// What interpreting a reply that must carry a user record yields: the
/// decoded record on a successful, well-formed reply; the matching error for
/// a failed or indeterminate outcome or a malformed payload.
pub open spec fn user_reply_of_outcome(o: OutcomeView) -> Result<UserDataView, crate::ErrorView> {
    match o {
        OutcomeView::Success(out) => match json_parse(out) {
            Some(j) => match user_data_of_json(j) {
                Some(d) => Ok(d),
                None => Err(crate::ErrorView::MalformedRecord),
            },
            None => Err(crate::ErrorView::MalformedJson),
        },
        OutcomeView::Failure(code, stderr) => Err(
            crate::ErrorView::RemoteFailure { code, stderr },
        ),
        OutcomeView::Indeterminate(msg) => Err(
            crate::ErrorView::RemoteIndeterminate { message: msg },
        ),
    }
}

/// What interpreting a reply that must carry a created-key record yields.
pub open spec fn key_reply_of_outcome(o: OutcomeView) -> Result<
    PreauthKeyDataView,
    crate::ErrorView,
> {
    match o {
        OutcomeView::Success(out) => match json_parse(out) {
            Some(j) => match key_data_of_json(j) {
                Some(d) => Ok(d),
                None => Err(crate::ErrorView::MalformedRecord),
            },
            None => Err(crate::ErrorView::MalformedJson),
        },
        OutcomeView::Failure(code, stderr) => Err(
            crate::ErrorView::RemoteFailure { code, stderr },
        ),
        OutcomeView::Indeterminate(msg) => Err(
            crate::ErrorView::RemoteIndeterminate { message: msg },
        ),
    }
}

/// What interpreting a reply that needs no payload yields: bare success, or
/// the matching error.
pub open spec fn ack_reply_of_outcome(o: OutcomeView) -> Result<(), crate::ErrorView> {
    match o {
        OutcomeView::Success(_) => Ok(()),
        OutcomeView::Failure(code, stderr) => Err(
            crate::ErrorView::RemoteFailure { code, stderr },
        ),
        OutcomeView::Indeterminate(msg) => Err(
            crate::ErrorView::RemoteIndeterminate { message: msg },
        ),
    }
}

/// Interprets the reply of a command that must carry a user record.
pub fn interpret_user_reply(o: RemoteCommandOutcome) -> (r: Result<UserData, Error>)
    ensures
        match (r, user_reply_of_outcome(o@)) {
            (Ok(d), Ok(dv)) => d@ == dv,
            (Err(e), Err(ev)) => e@ == ev,
            _ => false,
        },
{
    match o {
        RemoteCommandOutcome::Success(out) => match parse_json(out.as_str()) {
            Some(v) => match decode_user_data(&v) {
                Some(d) => Ok(d),
                None => Err(Error::MalformedRecord),
            },
            None => Err(Error::MalformedJson),
        },
        RemoteCommandOutcome::Failure(code, stderr) => Err(Error::RemoteFailure { code, stderr }),
        RemoteCommandOutcome::Indeterminate(msg) => Err(
            Error::RemoteIndeterminate { message: msg },
        ),
    }
}

/// Interprets the reply of a command that must carry a created-key record.
pub fn interpret_key_reply(o: RemoteCommandOutcome) -> (r: Result<PreauthKeyData, Error>)
    ensures
        match (r, key_reply_of_outcome(o@)) {
            (Ok(d), Ok(dv)) => d@ == dv,
            (Err(e), Err(ev)) => e@ == ev,
            _ => false,
        },
{
    match o {
        RemoteCommandOutcome::Success(out) => match parse_json(out.as_str()) {
            Some(v) => match decode_key_data(&v) {
                Some(d) => Ok(d),
                None => Err(Error::MalformedRecord),
            },
            None => Err(Error::MalformedJson),
        },
        RemoteCommandOutcome::Failure(code, stderr) => Err(Error::RemoteFailure { code, stderr }),
        RemoteCommandOutcome::Indeterminate(msg) => Err(
            Error::RemoteIndeterminate { message: msg },
        ),
    }
}

/// The pod the remote channel targets: the first ready pod of the
/// instance's workload. When the workload has none, the command fails fast
/// with a distinct no-target error, before any channel is opened.
pub fn require_target_pod(pod_name: Option<String>) -> (r: Result<String, Error>)
    ensures
        pod_name is None <==> (r matches Err(e) && e@ == crate::ErrorView::NoTargetPod),
        pod_name matches Some(p) ==> (r matches Ok(name) && name@ == p@),
{
    match pod_name {
        Some(name) => Ok(name),
        None => Err(Error::NoTargetPod),
    }
}

/// Whether every element of an array document decodes as a user record.
pub open spec fn all_users_decode(elems: Seq<Jv>) -> bool {
    forall|i: int| 0 <= i < elems.len() ==> (#[trigger] user_data_of_json(elems[i])) is Some
}

/// The list of user records an array document decodes to: all of them, or
/// nothing when any element is malformed.
pub open spec fn user_list_of_json(j: Jv) -> Option<Seq<UserDataView>> {
    match j {
        Jv::Arr(elems) => if all_users_decode(elems) {
            Some(Seq::new(elems.len(), |i: int| user_data_of_json(elems[i]).unwrap()))
        } else {
            None
        },
        _ => None,
    }
}

/// Decodes the record list the CLI reports when listing the remote users.
pub fn decode_user_list(v: &serde_json::Value) -> (r: Option<Vec<UserData>>)
    ensures
        r matches Some(list) ==> user_list_of_json(json_model(*v)) == Some(list.deep_view()),
        r is None ==> user_list_of_json(json_model(*v)) is None,
{
    let elems = match value_as_array(v) {
        Some(a) => a,
        None => {
            return None;
        },
    };
    let ghost model = json_model(*v)->Arr_0;
    let mut out: Vec<UserData> = Vec::new();
    let mut i: usize = 0;
    while i < elems.len()
        invariant
            json_model(*v) is Arr,
            json_model(*v)->Arr_0 == model,
            elems@.len() == model.len(),
            forall|k: int| 0 <= k < model.len() ==> json_model(elems@[k]) == model[k],
            i <= model.len(),
            out.deep_view().len() == i as int,
            forall|k: int|
                0 <= k < i ==> #[trigger] user_data_of_json(model[k]) == Some(out.deep_view()[k]),
        decreases elems@.len() - i,
    {
        match decode_user_data(&elems[i]) {
            Some(d) => out.push(d),
            None => {
                proof {
                    let ghost bad = i as int;
                    assert(!all_users_decode(model)) by {
                        assert(0 <= bad < model.len());
                        assert(!(user_data_of_json(model[bad]) is Some));
                    }
                }
                return None;
            },
        }
        i += 1;
    }
    proof {
        assert(all_users_decode(model));
        assert(user_list_of_json(json_model(*v)) matches Some(s) && s =~= out.deep_view());
    }
    Some(out)
}

/// What interpreting a reply that must carry a list of user records yields.
pub open spec fn user_list_reply_of_outcome(o: OutcomeView) -> Result<
    Seq<UserDataView>,
    crate::ErrorView,
> {
    match o {
        OutcomeView::Success(out) => match json_parse(out) {
            Some(j) => match user_list_of_json(j) {
                Some(list) => Ok(list),
                None => Err(crate::ErrorView::MalformedRecord),
            },
            None => Err(crate::ErrorView::MalformedJson),
        },
        OutcomeView::Failure(code, stderr) => Err(
            crate::ErrorView::RemoteFailure { code, stderr },
        ),
        OutcomeView::Indeterminate(msg) => Err(
            crate::ErrorView::RemoteIndeterminate { message: msg },
        ),
    }
}

/// Interprets the reply of the command listing the remote users.
pub fn interpret_list_reply(o: RemoteCommandOutcome) -> (r: Result<Vec<UserData>, Error>)
    ensures
        match (r, user_list_reply_of_outcome(o@)) {
            (Ok(list), Ok(lv)) => list.deep_view() == lv,
            (Err(e), Err(ev)) => e@ == ev,
            _ => false,
        },
{
    match o {
        RemoteCommandOutcome::Success(out) => match parse_json(out.as_str()) {
            Some(v) => match decode_user_list(&v) {
                Some(list) => Ok(list),
                None => Err(Error::MalformedRecord),
            },
            None => Err(Error::MalformedJson),
        },
        RemoteCommandOutcome::Failure(code, stderr) => Err(Error::RemoteFailure { code, stderr }),
        RemoteCommandOutcome::Indeterminate(msg) => Err(
            Error::RemoteIndeterminate { message: msg },
        ),
    }
}

/// Interprets the reply of a command whose success needs no payload, as the
/// destroy and revoke commands do.
pub fn interpret_ack_reply(o: RemoteCommandOutcome) -> (r: Result<(), Error>)
    ensures
        match (r, ack_reply_of_outcome(o@)) {
            (Ok(()), Ok(())) => true,
            (Err(e), Err(ev)) => e@ == ev,
            _ => false,
        },
{
    match o {
        RemoteCommandOutcome::Success(_) => Ok(()),
        RemoteCommandOutcome::Failure(code, stderr) => Err(Error::RemoteFailure { code, stderr }),
        RemoteCommandOutcome::Indeterminate(msg) => Err(
            Error::RemoteIndeterminate { message: msg },
        ),
    }
}

} // verus!
