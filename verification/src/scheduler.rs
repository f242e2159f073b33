//! Main loop scheduler: the per-iteration logic of the cooperative,
//! single-threaded presentation loop.
//!
//! The platform's event source drives the loop; each iteration first runs
//! the checks below, then dispatches the next platform event to the
//! [`crate::dispatcher::Dispatcher`].  The embedding performs what the
//! loop cannot: it reads whether the simulation/compute run handle has
//! finished, polls the shutdown receiver through
//! [`crate::channel::is_physics_thread_terminated`], and stops the event
//! source when told to.
//!
//! Scheduling policy: the loop asks the event source to wait for the
//! next event (`Wait`) while idle or in a menu, and to re-enter
//! continuously (`Poll`) while actively simulating, with frames rendered
//! strictly on demand; because `Wait` does not wake for signals that do
//! not originate from the OS, anything that must force an iteration uses
//! the loop's wake primitive to inject a synthetic event.

use vstd::prelude::*;

use crate::dispatcher::Dispatcher;
use crate::exit::ExitFlag;
use crate::lifecycle::LifecycleState;

verus! {

/// How the event source schedules the next iteration.
#[derive(Clone, Copy, PartialEq, Eq, Structural, Debug)]
pub enum ControlFlowMode {
    /// Re-enter the loop continuously, even with no pending events.
    Poll,
    /// Block until the next event arrives; conserves power when idle.
    Wait,
}

/// Picks the scheduling mode for the next iteration: `Poll` exactly while
/// actively simulating/rendering, `Wait` otherwise.  A configuration
/// decision, not a platform default.
pub fn select_control_flow(actively_simulating: bool) -> (mode: ControlFlowMode)
    ensures
        mode == (if actively_simulating {
            ControlFlowMode::Poll
        } else {
            ControlFlowMode::Wait
        }),
{
    if actively_simulating {
        ControlFlowMode::Poll
    } else {
        ControlFlowMode::Wait
    }
}

/// What one iteration's preliminary checks decided: the dispatcher and
/// flag afterwards, and whether the event source must now be told to
/// stop.
pub struct IterationOutcome {
    /// The dispatcher afterwards.
    pub state: Dispatcher,
    /// Whether the process-wide exit flag is set afterwards.
    pub exit_set: bool,
    /// Whether this iteration must signal the event source to stop.
    pub stop_event_source: bool,
}

/// Pure transition of the per-iteration checks: if any stop condition
/// holds (exit flag set, simulation run handle finished, or the peer's
/// stop signal observed) and the loop is not already exiting, the
/// lifecycle transitions to `Exiting` and the event source is signalled
/// to stop — exactly once, because an already-exiting loop changes
/// nothing more.
pub open spec fn spec_loop_iteration(
    d: Dispatcher,
    exit_set: bool,
    sim_finished: bool,
    peer_stopped: bool,
) -> IterationOutcome {
    let should_stop = exit_set || sim_finished || peer_stopped;
    if should_stop && !(d.lifecycle is Exiting) {
        IterationOutcome {
            state: Dispatcher { lifecycle: LifecycleState::Exiting, window: d.window },
            exit_set: true,
            stop_event_source: true,
        }
    } else {
        IterationOutcome {
            state: d,
            exit_set: exit_set || should_stop,
            stop_event_source: false,
        }
    }
}

/// Runs the checks at the head of one loop iteration, before the next
/// platform event is dispatched.  `sim_finished` is whether the
/// simulation/compute unit's run handle has finished; `peer_stopped` is
/// this iteration's non-blocking poll of the shutdown receiver.  Returns
/// whether the embedding must now signal the event source to stop.
pub fn loop_iteration(
    d: &mut Dispatcher,
    flag: &mut ExitFlag,
    sim_finished: bool,
    peer_stopped: bool,
) -> (stop_event_source: bool)
    requires
        old(d).inv(),
    ensures
        final(d).inv(),
        *final(d) == spec_loop_iteration(
            *old(d),
            old(flag).is_set(),
            sim_finished,
            peer_stopped,
        ).state,
        final(flag).is_set() == spec_loop_iteration(
            *old(d),
            old(flag).is_set(),
            sim_finished,
            peer_stopped,
        ).exit_set,
        stop_event_source == spec_loop_iteration(
            *old(d),
            old(flag).is_set(),
            sim_finished,
            peer_stopped,
        ).stop_event_source,
        final(d).window == old(d).window,
        old(d).lifecycle is Exiting ==> *final(d) == *old(d) && !stop_event_source,
        old(flag).is_set() ==> final(flag).is_set(),
{
    let should_stop = flag.is_exiting() || sim_finished || peer_stopped;
    if should_stop {
        let _ = flag.set_exit();
        if !d.lifecycle.is_exiting() {
            d.lifecycle = LifecycleState::Exiting;
            return true;
        }
    }
    false
}

/// When the simulation/compute unit's stop signal is observed, the very
/// next iteration transitions the loop to `Exiting` and tells the event
/// source to stop — and only that iteration does: however many more
/// iterations run before the event source physically stops, none of them
/// signals or transitions again.
pub proof fn lemma_peer_stop_transitions_exactly_once(
    d: Dispatcher,
    exit_set: bool,
    sim_finished: bool,
)
    requires
        !(d.lifecycle is Exiting),
    ensures
        spec_loop_iteration(d, exit_set, sim_finished, true).state.lifecycle is Exiting,
        spec_loop_iteration(d, exit_set, sim_finished, true).stop_event_source,
        forall|sim2: bool, peer2: bool|
            !(#[trigger] spec_loop_iteration(
                spec_loop_iteration(d, exit_set, sim_finished, true).state,
                spec_loop_iteration(d, exit_set, sim_finished, true).exit_set,
                sim2,
                peer2,
            )).stop_event_source,
        forall|sim2: bool, peer2: bool|
            (#[trigger] spec_loop_iteration(
                spec_loop_iteration(d, exit_set, sim_finished, true).state,
                spec_loop_iteration(d, exit_set, sim_finished, true).exit_set,
                sim2,
                peer2,
            )).state == spec_loop_iteration(d, exit_set, sim_finished, true).state,
{
}

} // verus!
