//! Logic of a multi-tenant VPN coordination service: finalizer-gated
//! reconcilers for control-plane instances, tenant users, pre-shared
//! authentication keys and access-control policy, together with the
//! config-sync daemon that keeps a managed process's policy file current.

use vstd::prelude::*;

pub mod admin;
pub mod cmd;
pub mod config;
pub mod crds;
pub mod exec_channel;
pub mod handlers;
pub mod json;
pub mod process;
pub mod strutil;

verus! {

/// Errors surfaced by the reconcilers and the admin-command layer.
#[derive(Debug)]
pub enum Error {
    /// The referenced tenant user carries no remote identifier yet.
    MissingUserId,
    /// No ready pod exists for the target workload.
    NoTargetPod,
    /// The remote command ran and exited non-zero.
    RemoteFailure { code: i32, stderr: String },
    /// The remote channel yielded no classifiable completion status.
    RemoteIndeterminate { message: String },
    /// A textual payload was not valid JSON.
    MalformedJson,
    /// A JSON payload did not have the expected record shape.
    MalformedRecord,
}

/// Mathematical model of an error.
pub enum ErrorView {
    MissingUserId,
    NoTargetPod,
    RemoteFailure { code: i32, stderr: Seq<char> },
    RemoteIndeterminate { message: Seq<char> },
    MalformedJson,
    MalformedRecord,
}

impl View for Error {
    type V = ErrorView;

    open spec fn view(&self) -> ErrorView {
        match self {
            Error::MissingUserId => ErrorView::MissingUserId,
            Error::NoTargetPod => ErrorView::NoTargetPod,
            Error::RemoteFailure { code, stderr } => ErrorView::RemoteFailure {
                code: *code,
                stderr: stderr@,
            },
            Error::RemoteIndeterminate { message } => ErrorView::RemoteIndeterminate {
                message: message@,
            },
            Error::MalformedJson => ErrorView::MalformedJson,
            Error::MalformedRecord => ErrorView::MalformedRecord,
        }
    }
}

} // verus!
