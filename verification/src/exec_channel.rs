//! Classification of what a remote execution channel reported.
//!
//! A remote command ends in one of three ways: the process exited zero
//! (success, with its full standard output), it exited non-zero (failure,
//! with the exit code and its full standard error), or the channel's
//! completion signal could not be classified at all. The last case is fatal
//! for the caller, since it cannot assume anything about whether the remote
//! action took effect.

use vstd::prelude::*;

verus! {

/// The completion record a remote execution channel hands back.
pub struct ChannelStatus {
    /// The textual status, when the channel reported one.
    pub status: Option<String>,
    /// The remote process's exit code, when the channel reported one.
    pub code: Option<i32>,
    /// A diagnostic message, when the channel reported one.
    pub message: Option<String>,
}

/// Mathematical model of a completion record.
pub struct ChannelStatusView {
    pub status: Option<Seq<char>>,
    pub code: Option<i32>,
    pub message: Option<Seq<char>>,
}

impl View for ChannelStatus {
    type V = ChannelStatusView;

    open spec fn view(&self) -> ChannelStatusView {
        ChannelStatusView {
            status: self.status.deep_view(),
            code: self.code,
            message: self.message.deep_view(),
        }
    }
}

/// The classified result of one remote command.
pub enum RemoteCommandOutcome {
    /// The remote process exited zero; carries its full standard output.
    Success(String),
    /// The remote process exited non-zero; carries the exit code and its
    /// full standard error.
    Failure(i32, String),
    /// The channel yielded no classifiable completion status; carries a
    /// diagnostic message. The caller must not assume any mutation occurred.
    Indeterminate(String),
}

/// Mathematical model of a classified result.
pub enum OutcomeView {
    Success(Seq<char>),
    Failure(i32, Seq<char>),
    Indeterminate(Seq<char>),
}

impl View for RemoteCommandOutcome {
    type V = OutcomeView;

    open spec fn view(&self) -> OutcomeView {
        match self {
            RemoteCommandOutcome::Success(out) => OutcomeView::Success(out@),
            RemoteCommandOutcome::Failure(code, err) => OutcomeView::Failure(*code, err@),
            RemoteCommandOutcome::Indeterminate(msg) => OutcomeView::Indeterminate(msg@),
        }
    }
}

/// The status text a channel reports for a zero exit.
pub open spec fn success_marker() -> Seq<char> {
    "Success"@
}

/// The status text a channel reports for a non-zero exit.
pub open spec fn failure_marker() -> Seq<char> {
    "Failure"@
}

/// The diagnostic used when the channel supplied no message of its own.
pub open spec fn unknown_status_message() -> Seq<char> {
    "unknown channel completion status"@
}

/// How a completion record is classified, given the captured output streams.
pub open spec fn classify(st: ChannelStatusView, stdout: Seq<char>, stderr: Seq<char>) -> OutcomeView {
    match st.status {
        Some(s) => if s == success_marker() {
            OutcomeView::Success(stdout)
        } else if s == failure_marker() {
            OutcomeView::Failure(
                match st.code {
                    Some(c) => c,
                    None => 0,
                },
                stderr,
            )
        } else {
            OutcomeView::Indeterminate(classify_message(st.message))
        },
        None => OutcomeView::Indeterminate(classify_message(st.message)),
    }
}

/// The diagnostic carried by an indeterminate outcome.
pub open spec fn classify_message(message: Option<Seq<char>>) -> Seq<char> {
    match message {
        Some(m) => m,
        None => unknown_status_message(),
    }
}

/// Classifies one completion record together with the captured streams.
pub fn classify_outcome(st: ChannelStatus, stdout: String, stderr: String) -> (r: RemoteCommandOutcome)
    ensures
        r@ == classify(st@, stdout@, stderr@),
{
    let is_success = match &st.status {
        Some(s) => *s == "Success".to_owned(),
        None => false,
    };
    if is_success {
        return RemoteCommandOutcome::Success(stdout);
    }
    let is_failure = match &st.status {
        Some(s) => *s == "Failure".to_owned(),
        None => false,
    };
    if is_failure {
        let code = match st.code {
            Some(c) => c,
            None => 0,
        };
        return RemoteCommandOutcome::Failure(code, stderr);
    }
    let msg = match st.message {
        Some(m) => m,
        None => "unknown channel completion status".to_owned(),
    };
    RemoteCommandOutcome::Indeterminate(msg)
}

} // verus!
