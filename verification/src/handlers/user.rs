//! The tenant-user reconciler: create the remote user once, persist its
//! status exactly once, and destroy the remote user on delete.

use vstd::prelude::*;

verus! {

use crate::admin::create_user_args;
use crate::admin::destroy_user_args;
use crate::admin::remote_command;
use crate::admin::build_create_user;
use crate::admin::build_destroy_user;
use crate::admin::build_remote_command;
use crate::crds::user::User;
use crate::crds::user::UserData;
use crate::crds::user::UserDataView;
use crate::crds::user::UserStatus;
use crate::crds::user::UserView;
use crate::crds::user::status_of_user_data;
use crate::handlers::Event;
use crate::handlers::finalizer_decision;

/// What an apply event requires for a user.
pub enum UserApplyPlan {
    /// Status is already populated: the remote user exists, nothing is done.
    AlreadyCreated,
    /// Run this remote command to create the user.
    CreateRemote(Vec<String>),
}

/// How many remote calls an apply event issues for a user: one while status
/// was never populated, none afterwards. Presence of status is the
/// idempotence boundary.
pub open spec fn user_apply_remote_calls(u: UserView) -> nat {
    if u.status is Some {
        0
    } else {
        1
    }
}

/// The object after a successful create has been folded in: status carries
/// the decoded record, everything else is unchanged.
pub open spec fn user_after_create(u: UserView, d: UserDataView) -> UserView {
    UserView { status: Some(status_of_user_data(d)), ..u }
}

/// How many remote calls a delete event issues for a user: one when status
/// was populated, none otherwise.
pub open spec fn user_delete_remote_calls(u: UserView) -> nat {
    if u.status is Some {
        1
    } else {
        0
    }
}

/// Plans the apply event: a no-op when status is already populated, the
/// remote create command otherwise.
pub fn user_apply_plan(user: &User) -> (r: UserApplyPlan)
    ensures
        (r is AlreadyCreated) == (user@.status is Some),
        (r is CreateRemote) == (user_apply_remote_calls(user@) == 1),
        r matches UserApplyPlan::CreateRemote(cmd) ==> cmd.deep_view() == remote_command(
            create_user_args(user@.name, user@.spec),
        ),
{
    match &user.status {
        Some(_) => UserApplyPlan::AlreadyCreated,
        None => UserApplyPlan::CreateRemote(
            build_remote_command(build_create_user(user.name.as_str(), &user.spec)),
        ),
    }
}

/// Folds a successful create reply into the object: the status half is set,
/// exactly once, from the decoded record.
pub fn user_apply_commit(user: User, data: UserData) -> (r: User)
    ensures
        r@ == user_after_create(user@, data@),
{
    User { status: Some(UserStatus::from(data)), ..user }
}

/// What a delete event requires for a user.
pub enum UserDeletePlan {
    /// Status was never populated: no remote user exists, nothing is done.
    NothingToDo,
    /// Run this remote command to destroy the user.
    DestroyRemote(Vec<String>),
}

/// Plans the delete event: a no-op when status was never populated, the
/// remote destroy command (with the stored identifier and the force flag)
/// otherwise.
pub fn user_delete_plan(user: &User) -> (r: UserDeletePlan)
    ensures
        (r is NothingToDo) == (user@.status is None),
        (r is DestroyRemote) == (user_delete_remote_calls(user@) == 1),
        r matches UserDeletePlan::DestroyRemote(cmd) ==> user@.status matches Some(st)
            && cmd.deep_view() == remote_command(destroy_user_args(st.id)),
{
    match &user.status {
        None => UserDeletePlan::NothingToDo,
        Some(status) => UserDeletePlan::DestroyRemote(
            build_remote_command(build_destroy_user(status.id)),
        ),
    }
}

/// Apply is idempotent: on an object without status a first apply issues
/// exactly one remote create, and once its reply has been folded into
/// status, a second apply issues none — two applies, one remote call.
pub proof fn lemma_user_apply_idempotent(u: UserView, d: UserDataView)
    requires
        u.status is None,
    ensures
        user_apply_remote_calls(u) == 1,
        user_apply_remote_calls(user_after_create(u, d)) == 0,
        user_apply_remote_calls(u) + user_apply_remote_calls(user_after_create(u, d)) == 1,
{
}

/// Delete on a user whose status was never populated issues no remote call,
/// and the delete event still ends with the finalizer token removed.
pub proof fn lemma_user_delete_without_status(u: UserView, token_present: bool)
    requires
        u.status is None,
    ensures
        user_delete_remote_calls(u) == 0,
        !crate::handlers::token_after(finalizer_decision(Event::Delete, token_present)),
        !token_present ==> finalizer_decision(Event::Delete, token_present)
            is AlreadyReleased,
{
}

} // verus!
