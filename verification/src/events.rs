use vstd::prelude::*;

verus! {

/// The logical meaning of a key, as far as the program reads it.
#[derive(Debug)]
pub enum LogicalKey {
    /// A key that produces text; the text it produces.
    Character(String),
    /// Any other key (named keys, dead keys, unidentified keys).
    Other,
}

/// A keyboard event: whether the key went down, and which key it was.
#[derive(Debug)]
pub struct KeyEvent {
    pub pressed: bool,
    pub logical_key: LogicalKey,
}

/// The window events the program tells apart.
#[derive(Debug)]
pub enum WindowEvent {
    /// The inner size of the window changed to `width` x `height` physical pixels.
    Resized { width: u32, height: u32 },
    /// The display scale factor of the window changed.
    ScaleFactorChanged,
    /// A key was pressed or released while the window had focus.
    KeyboardInput(KeyEvent),
    /// The user asked to close the window.
    CloseRequested,
    /// The window system asks for a new frame.
    RedrawRequested,
    /// Any other window event.
    Other,
}

/// The events of the event loop that the program tells apart.
#[derive(Debug)]
pub enum LoopEvent {
    /// An event addressed to the window.
    Window(WindowEvent),
    /// The loop is about to wait for new events.
    AboutToWait,
    /// Any other event of the loop.
    Other,
}

/// What the event loop does with one event.
#[derive(Debug, Clone, Copy, PartialEq, Eq)]
pub enum LoopAction {
    /// Draw a frame and handle its outcome.
    Redraw,
    /// Hand the window event to the window-event handler.
    HandleWindowEvent,
    /// Ask the window for a redraw.
    RequestRedraw,
    /// Nothing.
    Ignore,
}

/// What happens to a window event before the UI sees it.
#[derive(Debug, Clone, Copy, PartialEq, Eq)]
pub enum PreUiAction {
    /// Resize the surface to `width` x `height`, keeping the scale factor.
    Resize { width: u32, height: u32 },
    /// A scale factor change, which the program does not handle yet.
    ScaleFactorChange,
    /// Nothing.
    Nothing,
}

/// The loop action that an event leads to.
pub open spec fn spec_loop_action(event: LoopEvent) -> LoopAction {
    match event {
        LoopEvent::Window(WindowEvent::RedrawRequested) => LoopAction::Redraw,
        LoopEvent::Window(_) => LoopAction::HandleWindowEvent,
        LoopEvent::AboutToWait => LoopAction::RequestRedraw,
        LoopEvent::Other => LoopAction::Ignore,
    }
}

/// Dispatches one event of the event loop: a redraw request draws a frame,
/// any other window event goes to the window-event handler, and the loop
/// asks for a redraw each time it is about to wait.
pub fn loop_action(event: &LoopEvent) -> (res: LoopAction)
    ensures
        res == spec_loop_action(*event),
        *event matches LoopEvent::Window(e) ==> (res is Redraw <==> e is RedrawRequested),
        *event matches LoopEvent::Window(e) && !(e is RedrawRequested) ==> res is HandleWindowEvent,
        *event is AboutToWait ==> res is RequestRedraw,
        *event is Other ==> res is Ignore,
{
    match event {
        LoopEvent::Window(WindowEvent::RedrawRequested) => LoopAction::Redraw,
        LoopEvent::Window(_) => LoopAction::HandleWindowEvent,
        LoopEvent::AboutToWait => LoopAction::RequestRedraw,
        LoopEvent::Other => LoopAction::Ignore,
    }
}

/// The key that quits the program: a pressed key that produces exactly `q`.
pub open spec fn is_quit_key(key: KeyEvent) -> bool {
    &&& key.pressed
    &&& key.logical_key matches LogicalKey::Character(text) && text@ == seq!['q']
}

/// The events that ask the program to end, unless the UI consumed them:
/// a close request, and pressing `q`.
pub open spec fn asks_to_exit(event: WindowEvent) -> bool {
    match event {
        WindowEvent::CloseRequested => true,
        WindowEvent::KeyboardInput(key) => is_quit_key(key),
        _ => false,
    }
}

/// Whether a window event ends the program once the UI has seen it.
pub open spec fn spec_exits_after_ui(event: WindowEvent, consumed_by_ui: bool) -> bool {
    !consumed_by_ui && asks_to_exit(event)
}

/// What a window event leads to before the UI sees it.
pub open spec fn spec_pre_ui_action(event: WindowEvent) -> PreUiAction {
    match event {
        WindowEvent::Resized { width, height } => PreUiAction::Resize { width, height },
        WindowEvent::ScaleFactorChanged => PreUiAction::ScaleFactorChange,
        _ => PreUiAction::Nothing,
    }
}

/// The first half of window-event handling, done before the UI sees the
/// event: a resize resizes the surface with the scale factor left as it is,
/// and a scale factor change is reported as such.
pub fn pre_ui_action(event: &WindowEvent) -> (res: PreUiAction)
    ensures
        res == spec_pre_ui_action(*event),
        *event matches WindowEvent::Resized { width, height } ==> res == (PreUiAction::Resize {
            width,
            height,
        }),
        *event is ScaleFactorChanged ==> res is ScaleFactorChange,
        !(*event is Resized) && !(*event is ScaleFactorChanged) ==> res is Nothing,
{
    match event {
        WindowEvent::Resized { width, height } => PreUiAction::Resize { width: *width, height: *height },
        WindowEvent::ScaleFactorChanged => PreUiAction::ScaleFactorChange,
        _ => PreUiAction::Nothing,
    }
}

/// Whether `text` is exactly the one character `q`.
fn is_q(text: &String) -> (res: bool)
    ensures
        res == (text@ == seq!['q']),
{
    let s = text.as_str();
    if s.unicode_len() == 1 {
        let c = s.get_char(0);
        assert(s@.len() == 1);
        if c == 'q' {
            assert(s@ =~= seq!['q']);
            true
        } else {
            false
        }
    } else {
        false
    }
}

/// The second half of window-event handling, done once the UI has seen the
/// event: an event that the UI did not consume ends the program when it is a
/// close request or a press of `q`.
pub fn exits_after_ui(event: &WindowEvent, consumed_by_ui: bool) -> (res: bool)
    ensures
        res == spec_exits_after_ui(*event, consumed_by_ui),
        consumed_by_ui ==> !res,
        *event is CloseRequested ==> res == !consumed_by_ui,
        *event matches WindowEvent::KeyboardInput(key) ==> (res == (!consumed_by_ui && key.pressed
            && (key.logical_key matches LogicalKey::Character(text) && text@ == seq!['q']))),
        !(*event is CloseRequested) && !(*event is KeyboardInput) ==> !res,
{
    if consumed_by_ui {
        return false;
    }
    match event {
        WindowEvent::KeyboardInput(key) => {
            if key.pressed {
                match &key.logical_key {
                    LogicalKey::Character(text) => is_q(text),
                    LogicalKey::Other => false,
                }
            } else {
                false
            }
        },
        WindowEvent::CloseRequested => true,
        _ => false,
    }
}

/// Routing law: among the events addressed to the window, exactly the redraw
/// requests draw a frame; every other one reaches the window-event handler.
/// "About to wait" asks for a redraw, and the other loop events are ignored.
pub proof fn lemma_window_events_route(event: WindowEvent)
    ensures
        spec_loop_action(LoopEvent::Window(event)) == (if event is RedrawRequested {
            LoopAction::Redraw
        } else {
            LoopAction::HandleWindowEvent
        }),
        spec_loop_action(LoopEvent::AboutToWait) == LoopAction::RequestRedraw,
        spec_loop_action(LoopEvent::Other) == LoopAction::Ignore,
{
}

/// Resize law: a resize to `width` x `height` resizes the surface to exactly
/// `width` x `height`, the same two numbers in the same order, and never ends
/// the program, whether or not the UI consumes it. A scale factor change is
/// reported as such, and every other event does nothing before the UI.
pub proof fn lemma_resize_keeps_the_new_size(width: u32, height: u32, consumed_by_ui: bool, event: WindowEvent)
    ensures
        spec_pre_ui_action(WindowEvent::Resized { width, height }) == (PreUiAction::Resize {
            width,
            height,
        }),
        !spec_exits_after_ui(WindowEvent::Resized { width, height }, consumed_by_ui),
        spec_pre_ui_action(WindowEvent::ScaleFactorChanged) == PreUiAction::ScaleFactorChange,
        !(event is Resized) && !(event is ScaleFactorChanged) ==> spec_pre_ui_action(event)
            == PreUiAction::Nothing,
{
}

/// Exit law: the UI has the first word. An event that the UI consumed never
/// ends the program. One it did not consume ends it exactly when it is a close
/// request, or a key press whose text is exactly the one character `q`: any
/// other text, a key without text, a key release, and every other event never
/// end it.
pub proof fn lemma_only_unconsumed_quit_events_exit(event: WindowEvent, consumed_by_ui: bool)
    ensures
        consumed_by_ui ==> !spec_exits_after_ui(event, consumed_by_ui),
        spec_exits_after_ui(event, false) <==> (event is CloseRequested || (
        event matches WindowEvent::KeyboardInput(key) && key.pressed && (
        key.logical_key matches LogicalKey::Character(text) && text@ == seq!['q']))),
        forall|pressed: bool, text: String|
            #[trigger] spec_exits_after_ui(
                WindowEvent::KeyboardInput(
                    (KeyEvent { pressed, logical_key: LogicalKey::Character(text) }),
                ),
                false,
            ) == (pressed && text@ == seq!['q']),
        forall|pressed: bool|
            !#[trigger] spec_exits_after_ui(
                WindowEvent::KeyboardInput(
                    (KeyEvent { pressed, logical_key: LogicalKey::Other }),
                ),
                consumed_by_ui,
            ),
        spec_exits_after_ui(WindowEvent::CloseRequested, consumed_by_ui) == !consumed_by_ui,
{
}

} // verus!
