//! Lifecycle state of the presentation loop.
//!
//! One authoritative state drives the platform-agnostic event machine:
//! the loop starts in `NotStarted`, a window is created lazily on the
//! first resume, the loop then alternates between `Resumed` and
//! `Suspended`, and `Exiting` is terminal and reachable from every state.

use vstd::prelude::*;

verus! {

/// The single authoritative lifecycle state owned by the event dispatcher.
#[derive(Clone, Copy, PartialEq, Eq, Structural, Debug)]
pub enum LifecycleState {
    /// The event source has not yet delivered a lifecycle event.
    NotStarted,
    /// A window exists but the application has not yet been resumed.
    Created,
    /// The application is active and may render.
    Resumed,
    /// The platform suspended the application; the native surface may be gone.
    Suspended,
    /// Terminal state: shutdown has begun and is never undone.
    Exiting,
}

impl LifecycleState {
    /// Whether this state is the terminal one.
    pub open spec fn spec_is_exiting(self) -> bool {
        self is Exiting
    }

    /// Whether this state is the terminal one.
    pub fn is_exiting(&self) -> (exiting: bool)
        ensures
            exiting == self.spec_is_exiting(),
    {
        matches!(self, LifecycleState::Exiting)
    }
}

} // verus!
