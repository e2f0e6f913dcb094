use egui_blur_demo::events::{
    exits_after_ui, loop_action, pre_ui_action, KeyEvent, LogicalKey, LoopAction, LoopEvent,
    PreUiAction, WindowEvent,
};

fn key(pressed: bool, text: &str) -> WindowEvent {
    WindowEvent::KeyboardInput(KeyEvent {
        pressed,
        logical_key: LogicalKey::Character(text.to_string()),
    })
}

#[test]
fn redraw_request_draws_a_frame() {
    let e = LoopEvent::Window(WindowEvent::RedrawRequested);
    assert_eq!(loop_action(&e), LoopAction::Redraw);
}

#[test]
fn other_window_events_go_to_the_handler() {
    let events = vec![
        WindowEvent::Resized { width: 10, height: 20 },
        WindowEvent::ScaleFactorChanged,
        key(true, "q"),
        WindowEvent::CloseRequested,
        WindowEvent::Other,
    ];
    for e in events {
        assert_eq!(loop_action(&LoopEvent::Window(e)), LoopAction::HandleWindowEvent);
    }
}

#[test]
fn about_to_wait_requests_a_redraw() {
    assert_eq!(loop_action(&LoopEvent::AboutToWait), LoopAction::RequestRedraw);
}

#[test]
fn other_loop_events_are_ignored() {
    assert_eq!(loop_action(&LoopEvent::Other), LoopAction::Ignore);
}

#[test]
fn resize_resizes_with_the_new_size() {
    let e = WindowEvent::Resized { width: 455, height: 330 };
    assert_eq!(pre_ui_action(&e), PreUiAction::Resize { width: 455, height: 330 });
    assert!(!exits_after_ui(&e, false));
    assert!(!exits_after_ui(&e, true));
}

#[test]
fn scale_factor_change_is_reported() {
    assert_eq!(pre_ui_action(&WindowEvent::ScaleFactorChanged), PreUiAction::ScaleFactorChange);
}

#[test]
fn other_events_do_nothing_before_the_ui() {
    assert_eq!(pre_ui_action(&WindowEvent::CloseRequested), PreUiAction::Nothing);
    assert_eq!(pre_ui_action(&key(true, "q")), PreUiAction::Nothing);
    assert_eq!(pre_ui_action(&WindowEvent::Other), PreUiAction::Nothing);
}

#[test]
fn pressing_q_exits_unless_the_ui_consumed_it() {
    assert!(exits_after_ui(&key(true, "q"), false));
    assert!(!exits_after_ui(&key(true, "q"), true));
}

#[test]
fn releasing_q_does_not_exit() {
    assert!(!exits_after_ui(&key(false, "q"), false));
}

#[test]
fn other_keys_do_not_exit() {
    assert!(!exits_after_ui(&key(true, "Q"), false));
    assert!(!exits_after_ui(&key(true, "qq"), false));
    assert!(!exits_after_ui(&key(true, "w"), false));
    assert!(!exits_after_ui(&key(true, ""), false));
    let named = WindowEvent::KeyboardInput(KeyEvent { pressed: true, logical_key: LogicalKey::Other });
    assert!(!exits_after_ui(&named, false));
}

#[test]
fn close_request_exits_unless_the_ui_consumed_it() {
    assert!(exits_after_ui(&WindowEvent::CloseRequested, false));
    assert!(!exits_after_ui(&WindowEvent::CloseRequested, true));
}

#[test]
fn other_window_events_never_exit() {
    assert!(!exits_after_ui(&WindowEvent::Other, false));
    assert!(!exits_after_ui(&WindowEvent::RedrawRequested, false));
    assert!(!exits_after_ui(&WindowEvent::ScaleFactorChanged, false));
}
