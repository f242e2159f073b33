//! Event dispatcher: maps platform lifecycle/input events to operations
//! on the graphics surface lifecycle manager and the shutdown coordinator.
//!
//! The dispatcher owns the single optional [`WindowState`] and the current
//! [`LifecycleState`].  Each event is handled by one small synchronous
//! handler; work that only the platform can do (creating the native
//! window, talking to the GPU backend, stopping the event source) is
//! returned to the embedding as an [`Action`] rather than performed here.

use vstd::prelude::*;

use crate::channel::ChannelStruct;
use crate::channel::request_exit;
use crate::exit::ExitFlag;
use crate::graphics::SurfaceConfig;
use crate::graphics::WindowHandle;
use crate::graphics::WindowState;
use crate::lifecycle::LifecycleState;

verus! {

/// Clear color of the minimal render pass, as standard RGB bytes.
/// The embedding gamma-decodes it to linear space when composing a frame.
#[derive(Clone, Copy, PartialEq, Eq, Structural, Debug)]
pub struct ClearColor {
    /// Red channel, 0 to 255.
    pub red: u8,
    /// Green channel, 0 to 255.
    pub green: u8,
    /// Blue channel, 0 to 255.
    pub blue: u8,
}

/// The royal purple the engine clears each frame to.
pub fn engine_clear_color() -> (color: ClearColor)
    ensures
        color == (ClearColor { red: 104, green: 71, blue: 141 }),
{
    ClearColor { red: 104, green: 71, blue: 141 }
}

/// Keys the core recognizes as "leave the application".
#[derive(Clone, Copy, PartialEq, Eq, Structural, Debug)]
pub enum PressedKey {
    /// The escape key.
    Escape,
    /// The platform back key (for example a browser's back button).
    BrowserBack,
    /// Any other key: passed through unhandled.
    Other,
}

/// Phase of a touch interaction; logged only, no state mutation here.
#[derive(Clone, Copy, PartialEq, Eq, Structural, Debug)]
pub enum TouchState {
    /// A finger touched the screen.
    Started,
    /// A finger moved across the screen.
    Moved,
    /// A finger was released.
    Ended,
    /// The touch was cancelled by the platform.
    Cancelled,
}

/// Platform lifecycle/input events the core can receive, named
/// abstractly; the embedding translates its event source's types into
/// these plain values.
#[derive(Clone, Copy, PartialEq, Eq, Structural, Debug)]
pub enum EngineEvent {
    /// The close button was pressed.
    CloseRequested,
    /// The application was (re)activated.
    Resumed,
    /// The platform suspended the application.
    Suspended,
    /// A key was pressed.
    KeyPressed(PressedKey),
    /// A mouse button changed state; the payload is whether it is pressed.
    MouseButton(bool),
    /// The screen was touched.
    Touch(TouchState),
    /// The window was resized to the given physical size.
    Resized(u32, u32),
    /// The window gained or lost focus.
    FocusChanged(bool),
    /// The engine should refresh a frame.
    RedrawRequested,
    /// The platform warned about low memory.
    LowMemoryWarning,
    /// New events are incoming.
    NewEvents,
    /// The loop is about to wait for new events.
    AboutToWait,
    /// Last event ever delivered: the event source is shutting down.
    LoopExiting,
    /// A synthetic wake injected through the loop's wake primitive.
    UserWake,
    /// Any event the core does not recognize.
    Unrecognized,
}

/// What the embedding must do after a handler ran.
#[derive(Clone, Copy, PartialEq, Eq, Structural, Debug)]
pub enum Action {
    /// Nothing; the event was logged or absorbed.
    Nothing,
    /// Tell the platform event source to stop delivering events.
    StopEventSource,
    /// Create the native window, then acquire instance, adapter, device,
    /// queue and presentation surface, and report completion through
    /// [`Dispatcher::graphics_ready`] (blocking on desktop/mobile, as a
    /// spawned continuation in a browser).
    CreateWindowAndInitGraphics,
    /// Rebuild the presentation surface against the existing device.
    RecreateSurface,
    /// Reconfigure the presentation surface to the given size.
    ConfigureSurface(u32, u32),
    /// Acquire the next presentation image, clear it to the given color,
    /// submit and present; a failed image acquisition skips the frame.
    RenderFrame(ClearColor),
    /// A precondition was not met: log a warning, change nothing.
    WarnNotInitialized,
}

/// The event dispatcher's state: the lifecycle machine plus the single
/// optional window/graphics manager.
pub struct Dispatcher {
    /// Current lifecycle state.
    pub lifecycle: LifecycleState,
    /// The one window this core may own, created lazily on first resume.
    pub window: Option<WindowState>,
}

/// Everything `spec_dispatch` decides: successor dispatcher state,
/// whether the exit flag is set afterwards, and the embedding's action.
pub struct DispatchOutcome {
    /// The dispatcher afterwards.
    pub state: Dispatcher,
    /// Whether the process-wide exit flag is set afterwards.
    pub exit_set: bool,
    /// What the embedding must do.
    pub action: Action,
}

/// The request-exit path shared by close requests and quit keys: set the
/// exit flag, transition to `Exiting`, stop the event source.  (The
/// shutdown coordinator is notified as well; the channel is not part of
/// this pure model.)
pub open spec fn spec_exit_outcome(d: Dispatcher) -> DispatchOutcome {
    DispatchOutcome {
        state: Dispatcher { lifecycle: LifecycleState::Exiting, window: d.window },
        exit_set: true,
        action: Action::StopEventSource,
    }
}

/// Pure transition function of the dispatcher: what one delivered event
/// does to the lifecycle state, the window model and the exit flag, and
/// which action it hands the embedding.
///
/// `Exiting` is terminal: once reached, events no longer change the
/// dispatcher; a late exit request or the final loop-exiting event still
/// keeps the (write-once) exit flag set, and everything else is only
/// logged.
pub open spec fn spec_dispatch(d: Dispatcher, exit_set: bool, ev: EngineEvent) -> DispatchOutcome {
    if d.lifecycle is Exiting {
        DispatchOutcome {
            state: d,
            exit_set: exit_set || spec_is_exit_event(ev) || ev is LoopExiting,
            action: Action::Nothing,
        }
    } else {
        spec_dispatch_live(d, exit_set, ev)
    }
}

/// [`spec_dispatch`] for a dispatcher that is not yet exiting.
pub open spec fn spec_dispatch_live(d: Dispatcher, exit_set: bool, ev: EngineEvent) -> DispatchOutcome {
    match ev {
        EngineEvent::CloseRequested => spec_exit_outcome(d),
        EngineEvent::KeyPressed(key) => match key {
            PressedKey::Escape => spec_exit_outcome(d),
            PressedKey::BrowserBack => spec_exit_outcome(d),
            PressedKey::Other => DispatchOutcome { state: d, exit_set, action: Action::Nothing },
        },
        EngineEvent::Resumed => match d.window {
            None => DispatchOutcome {
                state: Dispatcher {
                    lifecycle: LifecycleState::Created,
                    window: Some(spec_fresh_window()),
                },
                exit_set,
                action: Action::CreateWindowAndInitGraphics,
            },
            Some(w) => DispatchOutcome {
                state: Dispatcher {
                    lifecycle: LifecycleState::Resumed,
                    window: Some(crate::graphics::spec_recreate_surface(w)),
                },
                exit_set,
                action: if w.has_device && w.has_adapter {
                    Action::RecreateSurface
                } else {
                    Action::WarnNotInitialized
                },
            },
        },
        EngineEvent::Suspended => DispatchOutcome {
            state: Dispatcher { lifecycle: LifecycleState::Suspended, window: d.window },
            exit_set,
            action: Action::Nothing,
        },
        EngineEvent::Resized(width, height) => match d.window {
            None => DispatchOutcome { state: d, exit_set, action: Action::Nothing },
            Some(w) => DispatchOutcome {
                state: Dispatcher {
                    lifecycle: d.lifecycle,
                    window: Some(crate::graphics::spec_resize(w, width, height)),
                },
                exit_set,
                action: if w.has_device && w.has_adapter && w.has_surface {
                    Action::ConfigureSurface(width, height)
                } else {
                    Action::WarnNotInitialized
                },
            },
        },
        EngineEvent::RedrawRequested => match d.window {
            None => DispatchOutcome { state: d, exit_set, action: Action::Nothing },
            Some(w) => DispatchOutcome {
                state: d,
                exit_set,
                action: if w.spec_is_ready() {
                    Action::RenderFrame(ClearColor { red: 104, green: 71, blue: 141 })
                } else {
                    Action::WarnNotInitialized
                },
            },
        },
        EngineEvent::LoopExiting => DispatchOutcome { state: d, exit_set: true, action: Action::Nothing },
        _ => DispatchOutcome { state: d, exit_set, action: Action::Nothing },
    }
}

/// The window model created on the first resume, before the embedding has
/// reported any real size: initialization pending, nothing acquired yet.
pub open spec fn spec_fresh_window() -> WindowState {
    WindowState {
        window: WindowHandle { id: 0, width: 0, height: 0 },
        has_instance: false,
        has_adapter: false,
        has_device: false,
        has_queue: false,
        has_surface: false,
        surface_config: None,
        init_pending: true,
    }
}

impl Dispatcher {
    /// Well-formedness: the window model is well-formed, and no window
    /// exists before the loop delivered its first lifecycle event.
    pub open spec fn inv(&self) -> bool {
        &&& match self.window {
            Some(w) => w.inv(),
            None => true,
        }
        &&& self.lifecycle is NotStarted ==> self.window is None
    }

    /// A dispatcher that has seen nothing yet.
    pub fn new() -> (d: Dispatcher)
        ensures
            d.inv(),
            d.lifecycle is NotStarted,
            d.window is None,
    {
        Dispatcher { lifecycle: LifecycleState::NotStarted, window: None }
    }

    /// Feeds one platform event to its handler.  The successor state, the
    /// exit flag and the returned action follow [`spec_dispatch`]; the
    /// shutdown coordinator is signalled exactly on the request-exit path,
    /// and is otherwise untouched.
    pub fn handle_event(
        &mut self,
        flag: &mut ExitFlag,
        channels: &mut ChannelStruct,
        event: EngineEvent,
    ) -> (action: Action)
        requires
            old(self).inv(),
        ensures
            final(self).inv(),
            *final(self) == spec_dispatch(*old(self), old(flag).is_set(), event).state,
            final(flag).is_set() == spec_dispatch(*old(self), old(flag).is_set(), event).exit_set,
            action == spec_dispatch(*old(self), old(flag).is_set(), event).action,
            old(flag).is_set() ==> final(flag).is_set(),
            spec_is_exit_event(event) && !old(self).lifecycle.spec_is_exiting()
                ==> final(channels).spec_has_signalled(),
            !(spec_is_exit_event(event) && !old(self).lifecycle.spec_is_exiting())
                ==> *final(channels) == *old(channels),
    {
        if self.lifecycle.is_exiting() {
            // Terminal state: late exit requests only keep the advisory
            // flag set; the already-notified (or already-gone) peer is
            // not signalled again, and everything else is only logged.
            match event {
                EngineEvent::CloseRequested => {
                    let _ = flag.set_exit();
                }
                EngineEvent::KeyPressed(PressedKey::Escape) => {
                    let _ = flag.set_exit();
                }
                EngineEvent::KeyPressed(PressedKey::BrowserBack) => {
                    let _ = flag.set_exit();
                }
                EngineEvent::LoopExiting => {
                    let _ = flag.set_exit();
                }
                _ => {}
            }
            return Action::Nothing;
        }
        match event {
            EngineEvent::CloseRequested => self.close_requested(flag, channels),
            EngineEvent::KeyPressed(key) => self.pressed_key(key, flag, channels),
            EngineEvent::Resumed => self.resumed_window(),
            EngineEvent::Suspended => self.suspended_window(),
            EngineEvent::MouseButton(pressed) => clicked_mouse(pressed),
            EngineEvent::Touch(phase) => touched_screen(phase),
            EngineEvent::Resized(width, height) => self.resized_window(width, height),
            EngineEvent::FocusChanged(focused) => changed_focus(focused),
            EngineEvent::RedrawRequested => self.requested_redraw(),
            EngineEvent::LoopExiting => exiting_loop(flag),
            EngineEvent::LowMemoryWarning => low_memory_warning(),
            EngineEvent::NewEvents => new_events(),
            EngineEvent::AboutToWait => about_to_wait_event(),
            EngineEvent::UserWake => Action::Nothing,
            EngineEvent::Unrecognized => unhandled_event(),
        }
    }

    /// The close button was pressed: request exit, notify the shutdown
    /// coordinator, transition to `Exiting`.  Valid in every state,
    /// including before any window exists.
    pub fn close_requested(
        &mut self,
        flag: &mut ExitFlag,
        channels: &mut ChannelStruct,
    ) -> (action: Action)
        requires
            old(self).inv(),
        ensures
            final(self).inv(),
            *final(self) == spec_exit_outcome(*old(self)).state,
            final(self).lifecycle is Exiting,
            final(self).window == old(self).window,
            final(flag).is_set(),
            final(channels).spec_has_signalled(),
            action == Action::StopEventSource,
    {
        let _ = flag.set_exit();
        request_exit(channels);
        self.lifecycle = LifecycleState::Exiting;
        Action::StopEventSource
    }

    /// A key was pressed: escape and the platform back key request exit
    /// exactly as a close request does; everything else passes through.
    pub fn pressed_key(
        &mut self,
        key: PressedKey,
        flag: &mut ExitFlag,
        channels: &mut ChannelStruct,
    ) -> (action: Action)
        requires
            old(self).inv(),
        ensures
            final(self).inv(),
            *final(self) == spec_dispatch_live(
                *old(self),
                old(flag).is_set(),
                EngineEvent::KeyPressed(key),
            ).state,
            final(flag).is_set() == spec_dispatch_live(
                *old(self),
                old(flag).is_set(),
                EngineEvent::KeyPressed(key),
            ).exit_set,
            action == spec_dispatch_live(
                *old(self),
                old(flag).is_set(),
                EngineEvent::KeyPressed(key),
            ).action,
            !(key is Other) ==> final(channels).spec_has_signalled(),
            key is Other ==> *final(channels) == *old(channels),
    {
        match key {
            PressedKey::Escape => self.close_requested(flag, channels),
            PressedKey::BrowserBack => self.close_requested(flag, channels),
            PressedKey::Other => Action::Nothing,
        }
    }

    /// The application was (re)activated.  On the first resume this
    /// constructs the window model and begins graphics initialization; on
    /// every later resume it only rebuilds the presentation surface.
    pub fn resumed_window(&mut self) -> (action: Action)
        requires
            old(self).inv(),
        ensures
            final(self).inv(),
            *final(self) == spec_dispatch_live(*old(self), false, EngineEvent::Resumed).state,
            action == spec_dispatch_live(*old(self), false, EngineEvent::Resumed).action,
            final(self).window is Some,
            old(self).window is Some ==> action != Action::CreateWindowAndInitGraphics,
    {
        match self.window {
            None => {
                let handle = WindowHandle { id: 0, width: 0, height: 0 };
                let mut state = WindowState::new(handle);
                state.initialize_graphics();
                self.window = Some(state);
                self.lifecycle = LifecycleState::Created;
                Action::CreateWindowAndInitGraphics
            }
            Some(mut state) => {
                let warned = state.recreate_surface();
                self.window = Some(state);
                self.lifecycle = LifecycleState::Resumed;
                if warned {
                    Action::WarnNotInitialized
                } else {
                    Action::RecreateSurface
                }
            }
        }
    }

    /// The platform suspended the application; this layer tears nothing
    /// down (the platform owns surface invalidation).
    pub fn suspended_window(&mut self) -> (action: Action)
        requires
            old(self).inv(),
        ensures
            final(self).inv(),
            *final(self) == spec_dispatch_live(*old(self), false, EngineEvent::Suspended).state,
            action == Action::Nothing,
    {
        self.lifecycle = LifecycleState::Suspended;
        Action::Nothing
    }

    /// The window was resized.  Before any window exists this is a no-op;
    /// before initialization it records the size and owes a warning;
    /// otherwise the surface is reconfigured.  Safe to call redundantly.
    pub fn resized_window(&mut self, width: u32, height: u32) -> (action: Action)
        requires
            old(self).inv(),
        ensures
            final(self).inv(),
            *final(self) == spec_dispatch_live(
                *old(self),
                false,
                EngineEvent::Resized(width, height),
            ).state,
            action == spec_dispatch_live(
                *old(self),
                false,
                EngineEvent::Resized(width, height),
            ).action,
            old(self).window is None ==> *final(self) == *old(self) && action == Action::Nothing,
    {
        match self.window {
            None => Action::Nothing,
            Some(mut state) => {
                let applied = state.resize(width, height);
                self.window = Some(state);
                if applied {
                    Action::ConfigureSurface(width, height)
                } else {
                    Action::WarnNotInitialized
                }
            }
        }
    }

    /// The engine should refresh a frame.  Redraw is only valid once
    /// device, queue and configured surface exist; anything earlier is a
    /// no-op (with a warning when the window already exists), never a
    /// crash.
    pub fn requested_redraw(&self) -> (action: Action)
        requires
            self.inv(),
        ensures
            action == spec_dispatch_live(*self, false, EngineEvent::RedrawRequested).action,
            action is RenderFrame <==> (self.window is Some
                && self.window.unwrap().spec_is_ready()),
    {
        match self.window {
            None => Action::Nothing,
            Some(state) => {
                if state.is_ready() {
                    Action::RenderFrame(engine_clear_color())
                } else {
                    Action::WarnNotInitialized
                }
            }
        }
    }

    /// The embedding reports that graphics initialization completed with
    /// the window's inner size.  From the transient `Created` state the
    /// lifecycle advances to `Resumed`; an already-exiting loop stays
    /// exiting.
    pub fn graphics_ready(&mut self, width: u32, height: u32)
        requires
            old(self).inv(),
            old(self).window is Some,
        ensures
            final(self).inv(),
            final(self).window is Some,
            final(self).window.unwrap().spec_is_ready(),
            final(self).window.unwrap().surface_config == Some(SurfaceConfig { width, height }),
            final(self).lifecycle == (if old(self).lifecycle is Created {
                LifecycleState::Resumed
            } else {
                old(self).lifecycle
            }),
    {
        match self.window {
            Some(mut state) => {
                state.graphics_ready(width, height);
                self.window = Some(state);
            }
            None => {}
        }
        if matches!(self.lifecycle, LifecycleState::Created) {
            self.lifecycle = LifecycleState::Resumed;
        }
    }
}

/// A mouse button changed state: logged only, no state mutation in the
/// core (input routing to gameplay is outside this layer).
pub fn clicked_mouse(pressed: bool) -> (action: Action)
    ensures
        action == Action::Nothing,
{
    let _ = pressed;
    Action::Nothing
}

/// The screen was touched: logged only, no state mutation in the core.
pub fn touched_screen(phase: TouchState) -> (action: Action)
    ensures
        action == Action::Nothing,
{
    let _ = phase;
    Action::Nothing
}

/// The window gained or lost focus: logged only.
pub fn changed_focus(focused: bool) -> (action: Action)
    ensures
        action == Action::Nothing,
{
    let _ = focused;
    Action::Nothing
}

/// Last event before the event source stops: run the cleanup hook, which
/// makes sure the process-wide exit flag is set.
pub fn exiting_loop(flag: &mut ExitFlag) -> (action: Action)
    ensures
        final(flag).is_set(),
        action == Action::Nothing,
{
    let _ = flag.set_exit();
    Action::Nothing
}

/// Low memory warning: logged only, no state change.
pub fn low_memory_warning() -> (action: Action)
    ensures
        action == Action::Nothing,
{
    Action::Nothing
}

/// New events are incoming; nothing to do.
pub fn new_events() -> (action: Action)
    ensures
        action == Action::Nothing,
{
    Action::Nothing
}

/// The loop is about to wait for new events; nothing to do.
pub fn about_to_wait_event() -> (action: Action)
    ensures
        action == Action::Nothing,
{
    Action::Nothing
}

/// Catches previously unhandled events: logged only.
pub fn unhandled_event() -> (action: Action)
    ensures
        action == Action::Nothing,
{
    Action::Nothing
}

/// Whether an event takes the request-exit path.
pub open spec fn spec_is_exit_event(ev: EngineEvent) -> bool {
    ||| ev is CloseRequested
    ||| ev == EngineEvent::KeyPressed(PressedKey::Escape)
    ||| ev == EngineEvent::KeyPressed(PressedKey::BrowserBack)
}

/// The dispatcher reached by delivering a sequence of events in order,
/// together with the actions handed to the embedding along the way.
pub open spec fn spec_run_events(
    d: Dispatcher,
    exit_set: bool,
    evs: Seq<EngineEvent>,
) -> (Dispatcher, Seq<Action>)
    decreases evs.len(),
{
    if evs.len() == 0 {
        (d, Seq::empty())
    } else {
        let out = spec_dispatch(d, exit_set, evs[0]);
        let rest = spec_run_events(out.state, out.exit_set, evs.skip(1));
        (rest.0, seq![out.action] + rest.1)
    }
}

/// How many of the actions ask the embedding to create a window and
/// graphics context.
pub open spec fn spec_count_creations(actions: Seq<Action>) -> nat
    decreases actions.len(),
{
    if actions.len() == 0 {
        0
    } else {
        (if actions[0] is CreateWindowAndInitGraphics {
            1nat
        } else {
            0nat
        }) + spec_count_creations(actions.skip(1))
    }
}

/// Once the dispatcher holds a window it never lets go of it, and no
/// event makes it ask for a second one.
pub proof fn lemma_window_persists(d: Dispatcher, exit_set: bool, ev: EngineEvent)
    requires
        d.window is Some,
    ensures
        spec_dispatch(d, exit_set, ev).state.window is Some,
        !(spec_dispatch(d, exit_set, ev).action is CreateWindowAndInitGraphics),
{
}

/// However many events of whatever kind are delivered — in particular
/// for every sequence of resume events with no intervening suspend — at
/// most one graphics context is ever created, and none at all once a
/// window exists.
pub proof fn lemma_at_most_one_creation(d: Dispatcher, exit_set: bool, evs: Seq<EngineEvent>)
    ensures
        d.window is Some ==> spec_count_creations(spec_run_events(d, exit_set, evs).1) == 0,
        spec_count_creations(spec_run_events(d, exit_set, evs).1) <= 1,
    decreases evs.len(),
{
    if evs.len() > 0 {
        let out = spec_dispatch(d, exit_set, evs[0]);
        let rest = spec_run_events(out.state, out.exit_set, evs.skip(1));
        assert((seq![out.action] + rest.1).skip(1) =~= rest.1);
        if d.window is Some {
            lemma_window_persists(d, exit_set, evs[0]);
        }
        lemma_at_most_one_creation(out.state, out.exit_set, evs.skip(1));
    }
}

/// Each resume delivered after the window exists only rebuilds the
/// presentation surface (or, before initialization completed, only owes
/// a warning): no further context is created.
pub proof fn lemma_later_resumes_only_recreate(
    d: Dispatcher,
    exit_set: bool,
    evs: Seq<EngineEvent>,
)
    requires
        d.window is Some,
        !(d.lifecycle is Exiting),
        forall|i: int| 0 <= i < evs.len() ==> evs[i] is Resumed,
    ensures
        forall|i: int|
            0 <= i < spec_run_events(d, exit_set, evs).1.len()
                ==> (#[trigger] spec_run_events(d, exit_set, evs).1[i]) is RecreateSurface
                || spec_run_events(d, exit_set, evs).1[i] is WarnNotInitialized,
    decreases evs.len(),
{
    if evs.len() > 0 {
        let out = spec_dispatch(d, exit_set, evs[0]);
        let rest = spec_run_events(out.state, out.exit_set, evs.skip(1));
        lemma_later_resumes_only_recreate(out.state, out.exit_set, evs.skip(1));
        assert forall|i: int| 0 <= i < spec_run_events(d, exit_set, evs).1.len() implies
            (#[trigger] spec_run_events(d, exit_set, evs).1[i]) is RecreateSurface
            || spec_run_events(d, exit_set, evs).1[i] is WarnNotInitialized by {
            if i > 0 {
                assert(spec_run_events(d, exit_set, evs).1[i] == rest.1[i - 1]);
            }
        }
    }
}

/// A close request delivered while no graphics context exists transitions
/// the lifecycle directly to `Exiting`, without error: the window stays
/// absent, the exit flag ends set, and nothing panics along the way.
pub proof fn lemma_close_without_context(d: Dispatcher, exit_set: bool)
    requires
        d.window is None,
    ensures
        spec_dispatch(d, exit_set, EngineEvent::CloseRequested).state.lifecycle is Exiting,
        spec_dispatch(d, exit_set, EngineEvent::CloseRequested).state.window is None,
        spec_dispatch(d, exit_set, EngineEvent::CloseRequested).exit_set,
{
}

/// A resize delivered before the first resume (so before any window
/// exists) is a no-op: the state is unchanged and no action is owed.
pub proof fn lemma_resize_before_resume_noop(d: Dispatcher, exit_set: bool, width: u32, height: u32)
    requires
        d.window is None,
    ensures
        spec_dispatch(d, exit_set, EngineEvent::Resized(width, height)).state == d,
        spec_dispatch(d, exit_set, EngineEvent::Resized(width, height)).action is Nothing,
{
}

/// `Exiting` is terminal: it is reachable from every state through the
/// request-exit path, and no event leaves it or changes anything else
/// once it is reached.
pub proof fn lemma_exiting_is_terminal(d: Dispatcher, exit_set: bool, ev: EngineEvent)
    requires
        d.lifecycle is Exiting,
    ensures
        spec_dispatch(d, exit_set, ev).state == d,
        spec_dispatch(d, exit_set, ev).action is Nothing,
{
}

} // verus!
