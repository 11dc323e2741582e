//! The pre-shared key reconciler: issue the key once, materialise it as a
//! credential secret, persist status, and revoke the key on delete.
//!
//! The credential secret's existence, not the object's status, is the
//! idempotence boundary for key creation.

use vstd::prelude::*;

verus! {

use crate::Error;
use crate::ErrorView;
use crate::admin::build_create_key;
use crate::admin::build_remote_command;
use crate::admin::build_revoke_key;
use crate::admin::create_key_args;
use crate::admin::remote_command;
use crate::admin::revoke_key_command;
use crate::crds::SecretSpec;
use crate::crds::SecretSpecView;
use crate::crds::preauth_key::PreauthKey;
use crate::crds::preauth_key::PreauthKeyData;
use crate::crds::preauth_key::PreauthKeyDataView;
use crate::crds::preauth_key::PreauthKeyStatus;
use crate::crds::preauth_key::PreauthKeyView;
use crate::crds::preauth_key::key_secret_name;
use crate::crds::preauth_key::rendered_key_secret;
use crate::crds::preauth_key::status_of_key_data;

/// What an apply event requires for a key.
pub enum KeyApplyPlan {
    /// The credential secret already exists: nothing is done.
    SecretExists,
    /// Run this remote command to create the key.
    CreateRemote(Vec<String>),
}

/// How many remote calls an apply event issues for a key: none while the
/// credential secret exists, one otherwise (given the owning user has an
/// identifier).
pub open spec fn key_apply_remote_calls(secret_exists: bool) -> nat {
    if secret_exists {
        0
    } else {
        1
    }
}

/// One apply step over the cluster's credential-secret state, for a create
/// whose decoded reply is `d`: the secret afterwards, and how many remote
/// calls were issued.
pub open spec fn key_apply_transition(
    secret: Option<SecretSpecView>,
    k: PreauthKeyView,
    d: PreauthKeyDataView,
) -> (Option<SecretSpecView>, nat) {
    match secret {
        Some(s) => (Some(s), 0),
        None => (Some(rendered_key_secret(k, d.key)), 1),
    }
}

/// Plans the apply event: a no-op when the credential secret exists; a hard
/// failure when the owning user has no remote identifier yet (the caller's
/// retry envelope re-runs it); the remote create command otherwise.
pub fn preauth_key_apply_plan(key: &PreauthKey, secret_exists: bool, user_id: Option<u32>) -> (r:
    Result<KeyApplyPlan, Error>)
    ensures
        secret_exists ==> (r matches Ok(p) && p is SecretExists),
        !secret_exists && user_id is None ==> (r matches Err(e) && e@
            == ErrorView::MissingUserId),
        !secret_exists && user_id is Some ==> (r matches Ok(p) && (
        p matches KeyApplyPlan::CreateRemote(cmd) && cmd.deep_view() == remote_command(
            create_key_args(user_id.unwrap(), key@.spec),
        ))),
        r matches Ok(p) ==> ((p is CreateRemote) == (key_apply_remote_calls(secret_exists) == 1)),
{
    if secret_exists {
        Ok(KeyApplyPlan::SecretExists)
    } else {
        match user_id {
            None => Err(Error::MissingUserId),
            Some(id) => Ok(
                KeyApplyPlan::CreateRemote(build_remote_command(build_create_key(id, &key.spec))),
            ),
        }
    }
}

/// Folds a successful create reply into cluster state: the credential secret
/// holding exactly the decoded key value under the key's secret name, and
/// the status echoing the decoded record.
pub fn preauth_key_apply_commit(key: &PreauthKey, data: PreauthKeyData) -> (r: (
    SecretSpec,
    PreauthKeyStatus,
))
    ensures
        r.0@ == rendered_key_secret(key@, data@.key),
        Some(r.0@) == key_apply_transition(None, key@, data@).0,
        r.1@ == status_of_key_data(data@),
{
    let secret = key.render_secret(data.key.as_str());
    let status = PreauthKeyStatus::from(data);
    (secret, status)
}

/// What a delete event requires for a key.
pub enum KeyDeletePlan {
    /// The credential secret is already absent: nothing is done.
    SecretAlreadyGone,
    /// Run this remote command to revoke the key, then delete the named
    /// secret.
    Revoke { command: Vec<String>, delete_secret: String },
}

/// Plans the delete event: a no-op when the credential secret is absent;
/// otherwise the revoke command for the key value read from the secret,
/// followed by deletion of that secret. A missing owner identifier is a hard
/// failure, retried by the caller's envelope.
pub fn preauth_key_delete_plan(key: &PreauthKey, secret_value: Option<&String>, user_id: Option<
    u32,
>) -> (r: Result<KeyDeletePlan, Error>)
    ensures
        secret_value is None ==> (r matches Ok(p) && p is SecretAlreadyGone),
        secret_value is Some && user_id is None ==> (r matches Err(e) && e@
            == ErrorView::MissingUserId),
        secret_value is Some && user_id is Some ==> (r matches Ok(p) && (
        p matches KeyDeletePlan::Revoke { command, delete_secret } && command.deep_view()
            == revoke_key_command(user_id.unwrap(), secret_value.unwrap()@)
            && delete_secret@ == key_secret_name(key@))),
{
    match secret_value {
        None => Ok(KeyDeletePlan::SecretAlreadyGone),
        Some(kv) => match user_id {
            None => Err(Error::MissingUserId),
            Some(id) => Ok(
                KeyDeletePlan::Revoke {
                    command: build_revoke_key(id, kv.as_str()),
                    delete_secret: key.secret_name(),
                },
            ),
        },
    }
}

/// After a successful apply on a key without its secret, the named
/// credential secret exists and holds exactly the key value of the decoded
/// record; a second apply then finds the secret and issues no remote call.
pub proof fn lemma_key_apply_idempotent(k: PreauthKeyView, d: PreauthKeyDataView)
    ensures
        ({
            let (s1, c1) = key_apply_transition(None, k, d);
            let (s2, c2) = key_apply_transition(s1, k, d);
            &&& s1 matches Some(sec) && sec.name == key_secret_name(k) && sec.authkey == d.key
            &&& c1 == 1
            &&& s2 == s1
            &&& c2 == 0
        }),
        key_apply_remote_calls(true) == 0,
{
}

} // verus!
