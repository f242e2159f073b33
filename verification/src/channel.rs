//! Shutdown coordination between the presentation loop and the
//! simulation/compute loop.
//!
//! Each cooperating unit owns one sender (to announce its own
//! termination) and one receiver (to detect the other's).  Each direction
//! is an explicit single-use stop signal, not a generic unit channel:
//! once a side has signalled, further signalling is a no-op and the
//! "already sent" state is visible in the contracts.  Delivery is by
//! non-blocking polling once per loop iteration, so observation is
//! eventual, never bounded-time; absence of the peer is not an error for
//! the sender.

use vstd::prelude::*;

verus! {

#[verifier::external_type_specification]
#[verifier::external_body]
#[verifier::reject_recursive_types(T)]
pub struct ExSender<T>(std::sync::mpsc::Sender<T>);

#[verifier::external_type_specification]
#[verifier::external_body]
#[verifier::reject_recursive_types(T)]
pub struct ExReceiver<T>(std::sync::mpsc::Receiver<T>);

/// Relies on std::sync::mpsc::channel: creates an asynchronous channel,
/// returning its sender and receiver halves.  Which messages the halves
/// will carry depends on later cross-thread interaction, so nothing more
/// is promised here.
#[verifier::external_body]
fn unit_channel() -> (std::sync::mpsc::Sender<()>, std::sync::mpsc::Receiver<()>) {
    std::sync::mpsc::channel()
}

/// Relies on std::sync::mpsc::Sender::send: queues one unit message;
/// returns an error exactly when the receiving half is disconnected.
/// Whether the peer is still there is outside state, so only the shape of
/// the outcome is stated.
#[verifier::external_body]
fn send_unit(sender: &std::sync::mpsc::Sender<()>) -> (delivered: bool) {
    sender.send(()).is_ok()
}

/// Relies on std::sync::mpsc::Receiver::try_recv: takes one pending
/// message without blocking; whether one is pending depends on the peer
/// thread, so only the shape of the outcome is stated.
#[verifier::external_body]
fn try_recv_unit(receiver: &std::sync::mpsc::Receiver<()>) -> (received: bool) {
    receiver.try_recv().is_ok()
}

/// Sending half of one stop-signal direction.  Single-use: the first
/// signal is delivered on a best-effort basis, later ones are no-ops.
pub struct StopSender {
    inner: std::sync::mpsc::Sender<()>,
    sent: bool,
}

/// Receiving half of one stop-signal direction, polled non-blockingly
/// once per loop iteration.
pub struct StopReceiver {
    inner: std::sync::mpsc::Receiver<()>,
}

impl StopSender {
    /// Whether this side has already signalled.
    pub closed spec fn has_sent(&self) -> bool {
        self.sent
    }

    /// Announces this unit's termination to the peer, at most once.
    /// Returns whether a message was handed to a still-connected channel
    /// by this call; a missing peer is ignored, and a repeated signal
    /// sends nothing.
    pub fn signal(&mut self) -> (delivered: bool)
        ensures
            final(self).has_sent(),
            old(self).has_sent() ==> !delivered,
    {
        if self.sent {
            return false;
        }
        self.sent = true;
        send_unit(&self.inner)
    }
}

impl StopReceiver {
    /// Polls for the peer's stop signal without blocking.  Whether a
    /// signal has arrived depends on the peer thread's progress, so the
    /// result is handed to the caller to act on either way.
    pub fn poll(&self) -> bool {
        try_recv_unit(&self.inner)
    }
}

/// Creates one stop-signal direction: the sender goes to the announcing
/// unit, the receiver to the observing unit.
pub fn stop_channel() -> (halves: (StopSender, StopReceiver))
    ensures
        !halves.0.has_sent(),
{
    let (tx, rx) = unit_channel();
    (StopSender { inner: tx, sent: false }, StopReceiver { inner: rx })
}

/// The halves of the shutdown coordination that one unit holds: its own
/// announcement sender and the receiver watching the peer.  A side that
/// was compiled without the peer unit holds neither.
pub struct ChannelStruct {
    /// This unit's own termination announcement.
    pub sender: Option<StopSender>,
    /// Watches for the peer unit's termination announcement.
    pub receiver: Option<StopReceiver>,
}

impl ChannelStruct {
    /// Whether this unit has already announced its termination.
    pub open spec fn spec_has_signalled(&self) -> bool {
        self.sender is Some ==> self.sender.unwrap().has_sent()
    }
}

/// Notifies the peer unit that this unit is stopping.  Sends at most one
/// stop signal per channel lifetime; a missing or disconnected peer is
/// ignored.
pub fn request_exit(channels: &mut ChannelStruct)
    ensures
        final(channels).spec_has_signalled(),
        final(channels).sender is Some <==> old(channels).sender is Some,
        final(channels).receiver == old(channels).receiver,
{
    match &mut channels.sender {
        Some(sender) => {
            let _ = sender.signal();
        }
        None => {}
    }
}

/// Polls whether the peer (simulation/physics) unit has announced its
/// termination.  Non-blocking; a unit with no watching receiver never
/// observes a termination.
pub fn is_physics_thread_terminated(channels: &ChannelStruct) -> (terminated: bool)
    ensures
        channels.receiver is None ==> !terminated,
{
    match &channels.receiver {
        Some(receiver) => receiver.poll(),
        None => false,
    }
}

} // verus!
