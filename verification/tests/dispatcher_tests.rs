use catgirl_engine::channel::ChannelStruct;
use catgirl_engine::dispatcher::Action;
use catgirl_engine::dispatcher::ClearColor;
use catgirl_engine::dispatcher::Dispatcher;
use catgirl_engine::dispatcher::EngineEvent;
use catgirl_engine::dispatcher::PressedKey;
use catgirl_engine::dispatcher::TouchState;
use catgirl_engine::dispatcher::engine_clear_color;
use catgirl_engine::exit::ExitFlag;
use catgirl_engine::lifecycle::LifecycleState;

fn empty_channels() -> ChannelStruct {
    ChannelStruct { sender: None, receiver: None }
}

#[test]
fn close_requested_without_context_goes_straight_to_exiting() {
    let mut d = Dispatcher::new();
    let mut flag = ExitFlag::new();
    let mut ch = empty_channels();
    assert!(d.window.is_none());
    let action = d.handle_event(&mut flag, &mut ch, EngineEvent::CloseRequested);
    assert_eq!(action, Action::StopEventSource);
    assert_eq!(d.lifecycle, LifecycleState::Exiting);
    assert!(d.window.is_none());
    assert!(flag.is_exiting());
}

#[test]
fn first_resume_creates_then_later_resumes_only_recreate() {
    let mut d = Dispatcher::new();
    let mut flag = ExitFlag::new();
    let mut ch = empty_channels();
    let first = d.handle_event(&mut flag, &mut ch, EngineEvent::Resumed);
    assert_eq!(first, Action::CreateWindowAndInitGraphics);
    assert_eq!(d.lifecycle, LifecycleState::Created);
    d.graphics_ready(800, 600);
    assert_eq!(d.lifecycle, LifecycleState::Resumed);
    let second = d.handle_event(&mut flag, &mut ch, EngineEvent::Resumed);
    assert_eq!(second, Action::RecreateSurface);
    let third = d.handle_event(&mut flag, &mut ch, EngineEvent::Resumed);
    assert_eq!(third, Action::RecreateSurface);
    assert!(d.window.is_some());
}

#[test]
fn resume_before_graphics_ready_warns_instead_of_recreating() {
    let mut d = Dispatcher::new();
    let mut flag = ExitFlag::new();
    let mut ch = empty_channels();
    let first = d.handle_event(&mut flag, &mut ch, EngineEvent::Resumed);
    assert_eq!(first, Action::CreateWindowAndInitGraphics);
    // Initialization has not completed: a second resume cannot rebuild
    // the surface and may only warn.
    let second = d.handle_event(&mut flag, &mut ch, EngineEvent::Resumed);
    assert_eq!(second, Action::WarnNotInitialized);
}

#[test]
fn resize_before_first_resume_is_noop_and_normal_startup_still_succeeds() {
    let mut d = Dispatcher::new();
    let mut flag = ExitFlag::new();
    let mut ch = empty_channels();
    let early = d.handle_event(&mut flag, &mut ch, EngineEvent::Resized(1024, 768));
    assert_eq!(early, Action::Nothing);
    assert_eq!(d.lifecycle, LifecycleState::NotStarted);
    assert!(d.window.is_none());
    // The normal resume -> initialize -> redraw sequence still succeeds.
    let resume = d.handle_event(&mut flag, &mut ch, EngineEvent::Resumed);
    assert_eq!(resume, Action::CreateWindowAndInitGraphics);
    d.graphics_ready(640, 480);
    let redraw = d.handle_event(&mut flag, &mut ch, EngineEvent::RedrawRequested);
    assert_eq!(redraw, Action::RenderFrame(engine_clear_color()));
}

#[test]
fn redraw_before_initialization_warns_never_panics() {
    let mut d = Dispatcher::new();
    let mut flag = ExitFlag::new();
    let mut ch = empty_channels();
    let no_window = d.handle_event(&mut flag, &mut ch, EngineEvent::RedrawRequested);
    assert_eq!(no_window, Action::Nothing);
    let _ = d.handle_event(&mut flag, &mut ch, EngineEvent::Resumed);
    let pending = d.handle_event(&mut flag, &mut ch, EngineEvent::RedrawRequested);
    assert_eq!(pending, Action::WarnNotInitialized);
}

#[test]
fn resize_after_initialization_reconfigures_surface() {
    let mut d = Dispatcher::new();
    let mut flag = ExitFlag::new();
    let mut ch = empty_channels();
    let _ = d.handle_event(&mut flag, &mut ch, EngineEvent::Resumed);
    d.graphics_ready(640, 480);
    let resized = d.handle_event(&mut flag, &mut ch, EngineEvent::Resized(1920, 1080));
    assert_eq!(resized, Action::ConfigureSurface(1920, 1080));
    let again = d.handle_event(&mut flag, &mut ch, EngineEvent::Resized(1920, 1080));
    assert_eq!(again, Action::ConfigureSurface(1920, 1080));
    let state = d.window.as_ref().unwrap();
    let config = state.surface_config.unwrap();
    assert_eq!((config.width, config.height), (1920, 1080));
}

#[test]
fn escape_and_back_keys_request_exit_other_keys_pass_through() {
    let mut d = Dispatcher::new();
    let mut flag = ExitFlag::new();
    let mut ch = empty_channels();
    let other = d.handle_event(&mut flag, &mut ch, EngineEvent::KeyPressed(PressedKey::Other));
    assert_eq!(other, Action::Nothing);
    assert!(!flag.is_exiting());
    let escape = d.handle_event(&mut flag, &mut ch, EngineEvent::KeyPressed(PressedKey::Escape));
    assert_eq!(escape, Action::StopEventSource);
    assert_eq!(d.lifecycle, LifecycleState::Exiting);
    assert!(flag.is_exiting());

    let mut d2 = Dispatcher::new();
    let mut flag2 = ExitFlag::new();
    let back = d2.handle_event(&mut flag2, &mut ch, EngineEvent::KeyPressed(PressedKey::BrowserBack));
    assert_eq!(back, Action::StopEventSource);
}

#[test]
fn exiting_is_terminal_for_every_event() {
    let mut d = Dispatcher::new();
    let mut flag = ExitFlag::new();
    let mut ch = empty_channels();
    let _ = d.handle_event(&mut flag, &mut ch, EngineEvent::CloseRequested);
    assert_eq!(d.lifecycle, LifecycleState::Exiting);
    for event in [
        EngineEvent::Resumed,
        EngineEvent::Suspended,
        EngineEvent::Resized(1, 1),
        EngineEvent::RedrawRequested,
        EngineEvent::CloseRequested,
        EngineEvent::LoopExiting,
        EngineEvent::UserWake,
        EngineEvent::Unrecognized,
    ] {
        let action = d.handle_event(&mut flag, &mut ch, event);
        assert_eq!(action, Action::Nothing);
        assert_eq!(d.lifecycle, LifecycleState::Exiting);
        assert!(d.window.is_none());
    }
}

#[test]
fn suspend_and_logged_events_change_no_window_state() {
    let mut d = Dispatcher::new();
    let mut flag = ExitFlag::new();
    let mut ch = empty_channels();
    let _ = d.handle_event(&mut flag, &mut ch, EngineEvent::Resumed);
    d.graphics_ready(300, 200);
    let suspended = d.handle_event(&mut flag, &mut ch, EngineEvent::Suspended);
    assert_eq!(suspended, Action::Nothing);
    assert_eq!(d.lifecycle, LifecycleState::Suspended);
    for event in [
        EngineEvent::MouseButton(true),
        EngineEvent::MouseButton(false),
        EngineEvent::Touch(TouchState::Started),
        EngineEvent::Touch(TouchState::Moved),
        EngineEvent::Touch(TouchState::Ended),
        EngineEvent::Touch(TouchState::Cancelled),
        EngineEvent::FocusChanged(true),
        EngineEvent::FocusChanged(false),
        EngineEvent::NewEvents,
        EngineEvent::AboutToWait,
        EngineEvent::LowMemoryWarning,
        EngineEvent::Unrecognized,
    ] {
        let action = d.handle_event(&mut flag, &mut ch, event);
        assert_eq!(action, Action::Nothing);
    }
    assert_eq!(d.lifecycle, LifecycleState::Suspended);
}

#[test]
fn loop_exiting_event_sets_exit_flag() {
    let mut d = Dispatcher::new();
    let mut flag = ExitFlag::new();
    let mut ch = empty_channels();
    let action = d.handle_event(&mut flag, &mut ch, EngineEvent::LoopExiting);
    assert_eq!(action, Action::Nothing);
    assert!(flag.is_exiting());
}

#[test]
fn synthetic_wake_events_are_absorbed() {
    let mut d = Dispatcher::new();
    let mut flag = ExitFlag::new();
    let mut ch = empty_channels();
    let action = d.handle_event(&mut flag, &mut ch, EngineEvent::UserWake);
    assert_eq!(action, Action::Nothing);
    assert_eq!(d.lifecycle, LifecycleState::NotStarted);
    assert!(!flag.is_exiting());
}

#[test]
fn clear_color_is_royal_purple() {
    let color = engine_clear_color();
    assert_eq!(color, ClearColor { red: 104, green: 71, blue: 141 });
}
