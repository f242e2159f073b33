//! Per-iteration logic of the simulation/physics loop.
//!
//! The loop itself — with its frame-rate sleep — runs in the embedding;
//! each iteration polls for the presentation loop's stop signal and, when
//! none arrived, advances the update counter.

use vstd::prelude::*;

use crate::channel::StopReceiver;

verus! {

/// State of the physics loop: the stop-signal receiver from the
/// presentation thread, and the update counter, which cycles through
/// 0 to 60.
pub struct PhysicsLoopStruct {
    /// Receives the presentation thread's stop signal.
    pub receive: StopReceiver,
    /// Update counter: increments each iteration and wraps back to 0
    /// after 60.
    pub i: i8,
}

impl PhysicsLoopStruct {
    /// The counter always stays within its cycle.
    pub open spec fn inv(&self) -> bool {
        0 <= self.i <= 60
    }

    /// A fresh loop state around the given receiver.
    pub fn new(receive: StopReceiver) -> (state: PhysicsLoopStruct)
        ensures
            state.inv(),
            state.i == 0,
    {
        PhysicsLoopStruct { receive, i: 0 }
    }
}

/// Polls whether the presentation thread asked this thread to stop.
pub fn should_terminate_thread(loopstruct: &PhysicsLoopStruct) -> bool {
    loopstruct.receive.poll()
}

/// The counter after one physics update: incremented, wrapped back to 0
/// after 60.
pub open spec fn spec_next_counter(i: int) -> int {
    if i + 1 > 60 {
        0
    } else {
        i + 1
    }
}

/// One iteration of the physics loop: checks for the stop signal, and
/// while none arrived advances the update counter.  Returns whether the
/// loop must now end.  Whether the signal arrived depends on the peer
/// thread, so both outcomes are pinned down.
pub fn physics_loop(loopstruct: &mut PhysicsLoopStruct) -> (exit_loop: bool)
    requires
        old(loopstruct).inv(),
    ensures
        final(loopstruct).inv(),
        exit_loop ==> final(loopstruct).i == old(loopstruct).i,
        !exit_loop ==> final(loopstruct).i == spec_next_counter(old(loopstruct).i as int),
{
    if should_terminate_thread(loopstruct) {
        return true;
    }
    if loopstruct.i + 1 > 60 {
        loopstruct.i = 0;
    } else {
        loopstruct.i = loopstruct.i + 1;
    }
    false
}

} // verus!
