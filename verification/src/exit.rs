//! Process-wide exit flag.
//!
//! The flag is write-once-true, read-many: it is set by UI close/escape
//! events, by the OS interrupt handler, or by peer-thread termination
//! detection, and is never reset.  It is held in one explicitly
//! constructed value that the embedding passes into the loop rather than
//! in an ambient global.

use vstd::prelude::*;

verus! {

/// Advisory exit flag shared (by the embedding) between the cooperating
/// loops.  `exiting` transitions false -> true exactly once and never back.
pub struct ExitFlag {
    /// Whether the engine has been told to start exiting.
    exiting: bool,
}

impl ExitFlag {
    /// Spec view of the flag.
    pub closed spec fn is_set(&self) -> bool {
        self.exiting
    }

    /// A fresh flag: not exiting.
    pub fn new() -> (flag: ExitFlag)
        ensures
            !flag.is_set(),
    {
        ExitFlag { exiting: false }
    }

    /// Tells the engine to start exiting next time it checks the exit
    /// status.  Returns whether this call was the one that set the flag,
    /// which is also whether the single "exiting" diagnostic is due.
    pub fn set_exit(&mut self) -> (newly_set: bool)
        ensures
            final(self).is_set(),
            newly_set == !old(self).is_set(),
    {
        if self.exiting {
            return false;
        }
        self.exiting = true;
        true
    }

    /// Retrieves whether the engine is exiting.
    pub fn is_exiting(&self) -> (exiting: bool)
        ensures
            exiting == self.is_set(),
    {
        self.exiting
    }
}

/// Setting the flag any number of additional times after the first has no
/// further observable effect: the flag stays set, and only the first of
/// the calls reports that the diagnostic is due.
pub proof fn lemma_set_exit_idempotent(flag: ExitFlag)
    ensures
        flag.is_set() ==> spec_set_exit(flag).0 == flag,
        spec_set_exit(flag).0.is_set(),
        spec_set_exit(spec_set_exit(flag).0).0 == spec_set_exit(flag).0,
        !spec_set_exit(spec_set_exit(flag).0).1,
{
}

/// Spec-level transition of `set_exit`: the flag afterwards, and whether
/// the "exiting" diagnostic was due.
pub closed spec fn spec_set_exit(flag: ExitFlag) -> (ExitFlag, bool) {
    (ExitFlag { exiting: true }, !flag.is_set())
}

/// The flag after `n` successive `set_exit` calls, and how many of them
/// reported the "exiting" diagnostic.
pub open spec fn spec_set_exit_n(flag: ExitFlag, n: nat) -> (ExitFlag, nat)
    decreases n,
{
    if n == 0 {
        (flag, 0)
    } else {
        let first = spec_set_exit(flag);
        let rest = spec_set_exit_n(first.0, (n - 1) as nat);
        (rest.0, (if first.1 {
            1nat
        } else {
            0nat
        }) + rest.1)
    }
}

/// On a flag that is already set, further `set_exit` calls change nothing
/// and report no diagnostic at all.
pub proof fn lemma_set_exit_n_already_set(flag: ExitFlag, n: nat)
    requires
        flag.is_set(),
    ensures
        spec_set_exit_n(flag, n).0 == flag,
        spec_set_exit_n(flag, n).1 == 0,
    decreases n,
{
    if n > 0 {
        lemma_set_exit_idempotent(flag);
        lemma_set_exit_n_already_set(spec_set_exit(flag).0, (n - 1) as nat);
    }
}

/// Calling `set_exit` any number of times from one upward has the same
/// observable effect as calling it once: the flag ends set, and exactly
/// one "exiting" diagnostic is reported.
pub proof fn lemma_set_exit_n_times(flag: ExitFlag, n: nat)
    requires
        n >= 1,
        !flag.is_set(),
    ensures
        spec_set_exit_n(flag, n).0.is_set(),
        spec_set_exit_n(flag, n).1 == 1,
{
    let first = spec_set_exit(flag);
    lemma_set_exit_n_already_set(first.0, (n - 1) as nat);
}

} // verus!
