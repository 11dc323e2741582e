//! The finalizer-gated reconcilers: per-kind apply and delete state
//! machines, and the generic finalizer protocol they all share.
//!
//! Each reconciler is split into plan functions, which decide what remote
//! command or child operation an event requires, and commit functions, which
//! fold a successful reply back into the object's state. Performing the
//! remote call itself is I/O and happens outside the library.

use vstd::prelude::*;

pub mod headscale;
pub mod policy;
pub mod preauth_key;
pub mod user;

verus! {

/// The two events the store delivers for an object.
pub enum Event {
    /// Fires on creation and on every update while no deletion timestamp is
    /// set.
    Apply,
    /// Fires once a deletion timestamp is set and this reconciler's
    /// finalizer token is still present.
    Delete,
}

/// What the finalizer protocol does with one event.
pub enum FinalizerStep {
    /// Persist the finalizer token, then run the apply logic.
    RegisterThenReconcile,
    /// The token is already present: run the apply logic.
    Reconcile,
    /// Run the compensating logic, then remove the token so the store can
    /// complete the physical delete.
    CleanupThenRelease,
    /// The token is already absent: someone already cleaned up, so the
    /// delete is a no-op success.
    AlreadyReleased,
}

/// The protocol's decision for an event, given whether this reconciler's
/// token is present on the object.
pub open spec fn finalizer_decision(event: Event, token_present: bool) -> FinalizerStep {
    match event {
        Event::Apply => if token_present {
            FinalizerStep::Reconcile
        } else {
            FinalizerStep::RegisterThenReconcile
        },
        Event::Delete => if token_present {
            FinalizerStep::CleanupThenRelease
        } else {
            FinalizerStep::AlreadyReleased
        },
    }
}

/// Whether a protocol step runs the compensating logic.
pub open spec fn cleanup_invoked(s: FinalizerStep) -> bool {
    s is CleanupThenRelease
}

/// Whether the token is present once the step has run to completion.
pub open spec fn token_after(s: FinalizerStep) -> bool {
    match s {
        FinalizerStep::RegisterThenReconcile => true,
        FinalizerStep::Reconcile => true,
        FinalizerStep::CleanupThenRelease => false,
        FinalizerStep::AlreadyReleased => false,
    }
}

/// Applies the finalizer protocol to one event: register intent to clean up
/// before the first apply, clean up and release on delete, and treat a
/// delete without the token as an already-handled no-op.
pub fn finalizer_step(event: &Event, token_present: bool) -> (r: FinalizerStep)
    ensures
        r == finalizer_decision(*event, token_present),
        *event is Delete && !token_present ==> r is AlreadyReleased,
{
    match event {
        Event::Apply => if token_present {
            FinalizerStep::Reconcile
        } else {
            FinalizerStep::RegisterThenReconcile
        },
        Event::Delete => if token_present {
            FinalizerStep::CleanupThenRelease
        } else {
            FinalizerStep::AlreadyReleased
        },
    }
}

/// A delete event that fires with the finalizer token already absent never
/// invokes the compensating logic, leaves the token absent, and succeeds.
pub proof fn lemma_delete_without_token_is_noop()
    ensures
        finalizer_decision(Event::Delete, false) is AlreadyReleased,
        !cleanup_invoked(finalizer_decision(Event::Delete, false)),
        !token_after(finalizer_decision(Event::Delete, false)),
{
}

} // verus!
