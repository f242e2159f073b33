use catgirl_engine::channel::ChannelStruct;
use catgirl_engine::channel::is_physics_thread_terminated;
use catgirl_engine::channel::request_exit;
use catgirl_engine::channel::stop_channel;
use catgirl_engine::dispatcher::Dispatcher;
use catgirl_engine::dispatcher::EngineEvent;
use catgirl_engine::exit::ExitFlag;
use catgirl_engine::lifecycle::LifecycleState;
use catgirl_engine::scheduler::ControlFlowMode;
use catgirl_engine::scheduler::loop_iteration;
use catgirl_engine::scheduler::select_control_flow;

#[test]
fn peer_stop_signal_is_observed_on_the_very_next_iteration_exactly_once() {
    // The simulation unit's sender fires; the presentation loop's
    // channels see it on the next poll and the loop transitions to
    // Exiting exactly once, however many iterations follow.
    let (mut physics_tx, presentation_rx) = stop_channel();
    let presentation_channels = ChannelStruct { sender: None, receiver: Some(presentation_rx) };
    let mut d = Dispatcher::new();
    let mut flag = ExitFlag::new();

    // Quiet iteration: no stop condition yet.
    let peer = is_physics_thread_terminated(&presentation_channels);
    assert!(!peer);
    let stop = loop_iteration(&mut d, &mut flag, false, peer);
    assert!(!stop);
    assert_eq!(d.lifecycle, LifecycleState::NotStarted);

    // The simulation unit announces its termination.
    let delivered = physics_tx.signal();
    assert!(delivered);

    // The very next iteration observes it and transitions once.
    let peer = is_physics_thread_terminated(&presentation_channels);
    assert!(peer);
    let stop = loop_iteration(&mut d, &mut flag, false, peer);
    assert!(stop);
    assert_eq!(d.lifecycle, LifecycleState::Exiting);
    assert!(flag.is_exiting());

    // Later iterations neither transition nor signal again, whatever
    // they observe.
    for _ in 0..3 {
        let peer = is_physics_thread_terminated(&presentation_channels);
        let stop = loop_iteration(&mut d, &mut flag, false, peer);
        assert!(!stop);
        assert_eq!(d.lifecycle, LifecycleState::Exiting);
    }
}

#[test]
fn exit_flag_stops_the_loop_once() {
    let mut d = Dispatcher::new();
    let mut flag = ExitFlag::new();
    let _ = flag.set_exit();
    let stop = loop_iteration(&mut d, &mut flag, false, false);
    assert!(stop);
    assert_eq!(d.lifecycle, LifecycleState::Exiting);
    let stop_again = loop_iteration(&mut d, &mut flag, false, false);
    assert!(!stop_again);
}

#[test]
fn finished_simulation_handle_stops_the_loop() {
    let mut d = Dispatcher::new();
    let mut flag = ExitFlag::new();
    let stop = loop_iteration(&mut d, &mut flag, true, false);
    assert!(stop);
    assert_eq!(d.lifecycle, LifecycleState::Exiting);
    assert!(flag.is_exiting());
}

#[test]
fn quiet_iteration_changes_nothing() {
    let mut d = Dispatcher::new();
    let mut flag = ExitFlag::new();
    let mut ch = ChannelStruct { sender: None, receiver: None };
    let stop = loop_iteration(&mut d, &mut flag, false, false);
    assert!(!stop);
    assert!(!flag.is_exiting());
    assert_eq!(d.lifecycle, LifecycleState::NotStarted);
    let _ = d.handle_event(&mut flag, &mut ch, EngineEvent::Resumed);
    d.graphics_ready(100, 100);
    let stop = loop_iteration(&mut d, &mut flag, false, false);
    assert!(!stop);
    assert_eq!(d.lifecycle, LifecycleState::Resumed);
}

#[test]
fn request_exit_signals_the_peer_at_most_once() {
    let (tx, rx) = stop_channel();
    let mut channels = ChannelStruct { sender: Some(tx), receiver: None };
    request_exit(&mut channels);
    // The peer's side of this direction sees exactly one message.
    let peer_side = ChannelStruct { sender: None, receiver: Some(rx) };
    assert!(is_physics_thread_terminated(&peer_side));
    assert!(!is_physics_thread_terminated(&peer_side));
    // A repeated request sends nothing further.
    request_exit(&mut channels);
    assert!(!is_physics_thread_terminated(&peer_side));
}

#[test]
fn request_exit_without_a_peer_is_ignored() {
    let mut channels = ChannelStruct { sender: None, receiver: None };
    request_exit(&mut channels);
    assert!(!is_physics_thread_terminated(&channels));
}

#[test]
fn stop_sender_is_single_use() {
    let (mut tx, rx) = stop_channel();
    assert!(tx.signal());
    assert!(!tx.signal());
    assert!(rx.poll());
    assert!(!rx.poll());
}

#[test]
fn signal_to_a_dropped_receiver_reports_no_delivery() {
    let (mut tx, rx) = stop_channel();
    drop(rx);
    assert!(!tx.signal());
}

#[test]
fn control_flow_polls_only_while_simulating() {
    assert_eq!(select_control_flow(true), ControlFlowMode::Poll);
    assert_eq!(select_control_flow(false), ControlFlowMode::Wait);
}
