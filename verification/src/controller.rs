//! The controller's shared state and the two window-managing commands.
//!
//! Each command takes the state, what was just read of the main window, and
//! returns a plan: the ordered window actions the shell must carry out. The
//! commands never touch a window themselves, so they cannot fail; the shell
//! performs the plan.

use vstd::prelude::*;
use vstd::string::StringExecFns;

use crate::events::Action;
use crate::events::EventResponse;
use crate::events::Label;
use crate::events::MenuChoice;
use crate::events::UiEvent;

verus! {

/// The process-lifetime state the commands share: whether the blocked
/// overlay must be up, and whether the main window was visible when blocking
/// was last engaged (so that unblocking restores, rather than forces,
/// visibility).
#[derive(Clone, Copy, Debug, PartialEq, Eq, Structural)]
pub struct ControllerState {
    pub is_blocked: bool,
    pub was_main_visible: bool,
}

/// The state a fresh process starts in: unblocked, main window taken to be
/// visible.
pub open spec fn initial_state() -> ControllerState {
    ControllerState { is_blocked: false, was_main_visible: true }
}

impl ControllerState {
    /// The initial state: not blocked, and the main window counts as visible
    /// by default.
    pub fn new() -> (s: ControllerState)
        ensures
            s == initial_state(),
    {
        ControllerState { is_blocked: false, was_main_visible: true }
    }
}

/// What a command just read of the main window: whether it exists, and
/// whether it is visible (a failed visibility read counts as visible).
#[derive(Clone, Copy, Debug, PartialEq, Eq, Structural)]
pub struct MainSnapshot {
    pub present: bool,
    pub visible: bool,
}

/// How the blocked overlay window is to be created: full-screen, always on
/// top, undecorated, not resizable, visible at once.
#[derive(Clone, Copy, Debug, PartialEq, Eq, Structural)]
pub struct WindowConfig {
    pub fullscreen: bool,
    pub always_on_top: bool,
    pub decorations: bool,
    pub resizable: bool,
    pub visible: bool,
}

/// The one configuration the blocked overlay is ever created with.
pub open spec fn blocked_config() -> WindowConfig {
    WindowConfig {
        fullscreen: true,
        always_on_top: true,
        decorations: false,
        resizable: false,
        visible: true,
    }
}

/// The configuration of the blocked overlay window.
pub fn blocked_window_config() -> (c: WindowConfig)
    ensures
        c == blocked_config(),
{
    WindowConfig {
        fullscreen: true,
        always_on_top: true,
        decorations: false,
        resizable: false,
        visible: true,
    }
}

/// The title the blocked overlay window is created with.
pub fn blocked_window_title() -> (t: String)
    ensures
        t@ == "Monexa - Blocked"@,
{
    String::from_str("Monexa - Blocked")
}

/// The in-app address the blocked overlay window is created on.
pub fn blocked_window_url() -> (u: String)
    ensures
        u@ == "index.html#/blocked"@,
{
    String::from_str("index.html#/blocked")
}

/// Decides whether the blocked overlay is to be created: creation is
/// idempotent, so if a window with the overlay's label already exists the
/// answer is `None`, and otherwise the one overlay configuration.
pub fn create_blocked_window(already_exists: bool) -> (c: Option<WindowConfig>)
    ensures
        already_exists ==> c is None,
        !already_exists ==> c == Some(blocked_config()),
{
    if already_exists {
        None
    } else {
        Some(blocked_window_config())
    }
}

/// The state after `toggle_block_window`: the blocked flag becomes the
/// argument, and on the transition into the blocked state — the flag having
/// been off — the main window's visibility is captured (only if the main
/// window exists). The captured value is written exactly once per such
/// transition: blocking again while already blocked leaves it unchanged.
pub open spec fn toggle_next_state(s: ControllerState, snap: MainSnapshot, blocked: bool) -> ControllerState {
    ControllerState {
        is_blocked: blocked,
        was_main_visible: if !s.is_blocked && blocked && snap.present {
            snap.visible
        } else {
            s.was_main_visible
        },
    }
}

/// The plan `toggle_block_window` returns. Engaging the block hides the main
/// window (when it exists) and then makes sure the overlay is up; releasing
/// it closes the overlay and then restores the main window only if it was
/// visible when the block was engaged.
pub open spec fn toggle_actions(s: ControllerState, snap: MainSnapshot, blocked: bool) -> Seq<Action> {
    if blocked {
        (if snap.present {
            seq![Action::HideMain]
        } else {
            Seq::<Action>::empty()
        }) + seq![Action::EnsureBlocked]
    } else {
        seq![Action::CloseBlocked] + (if s.was_main_visible {
            seq![Action::ShowFocusMain]
        } else {
            Seq::<Action>::empty()
        })
    }
}

/// Sets the blocked flag to `blocked` and plans the window work: engaging
/// the block captures and hides the main window and raises the overlay;
/// releasing it closes the overlay and restores the main window only if it
/// was visible before. The visibility is captured only on the transition
/// into the blocked state, never overwritten by a further blocking call.
/// Window failures are the shell's to swallow: the decision itself cannot
/// fail.
pub fn toggle_block_window(state: &mut ControllerState, snap: MainSnapshot, blocked: bool) -> (plan: Vec<Action>)
    ensures
        *final(state) == toggle_next_state(*old(state), snap, blocked),
        plan@ == toggle_actions(*old(state), snap, blocked),
{
    let was_blocked = state.is_blocked;
    state.is_blocked = blocked;
    let mut plan: Vec<Action> = Vec::new();
    if blocked {
        if snap.present {
            if !was_blocked {
                state.was_main_visible = snap.visible;
            }
            plan.push(Action::HideMain);
        }
        plan.push(Action::EnsureBlocked);
        proof {
            assert(plan@ =~= toggle_actions(*old(state), snap, blocked));
        }
    } else {
        plan.push(Action::CloseBlocked);
        if state.was_main_visible {
            plan.push(Action::ShowFocusMain);
        }
        proof {
            assert(plan@ =~= toggle_actions(*old(state), snap, blocked));
        }
    }
    plan
}

/// The state after `close_secondary_windows`: the blocked flag is forced
/// off; the remembered visibility is untouched.
pub open spec fn close_secondary_next_state(s: ControllerState) -> ControllerState {
    ControllerState { is_blocked: false, was_main_visible: s.was_main_visible }
}

/// The plan `close_secondary_windows` returns: close everything but the main
/// window, then restore the main window only if it was visible when the
/// block was engaged.
pub open spec fn close_secondary_actions(s: ControllerState) -> Seq<Action> {
    seq![Action::CloseSecondary] + (if s.was_main_visible {
        seq![Action::ShowFocusMain]
    } else {
        Seq::<Action>::empty()
    })
}

/// Forces the blocked flag off first — so no event handler heals the overlay
/// back open — and plans the closing of every window except the main one,
/// restoring the main window only if it was visible before.
pub fn close_secondary_windows(state: &mut ControllerState) -> (plan: Vec<Action>)
    ensures
        *final(state) == close_secondary_next_state(*old(state)),
        plan@ == close_secondary_actions(*old(state)),
{
    state.is_blocked = false;
    let mut plan: Vec<Action> = Vec::new();
    plan.push(Action::CloseSecondary);
    if state.was_main_visible {
        plan.push(Action::ShowFocusMain);
    }
    proof {
        assert(plan@ =~= close_secondary_actions(*old(state)));
    }
    plan
}

/// Whether a window with this label is closed by `Action::CloseSecondary`:
/// every window but the main one is.
pub fn is_secondary(l: Label) -> (b: bool)
    ensures
        b == (l != Label::Main),
{
    match l {
        Label::Main => false,
        Label::Blocked => true,
        Label::Other => true,
    }
}

/// The response with no effect at all.
pub open spec fn no_response() -> EventResponse {
    EventResponse {
        prevent_close: false,
        hide_target: false,
        show_focus_main: false,
        recreate_blocked: false,
        exit: false,
    }
}

/// How the controller reacts to one user-interface event, given the blocked
/// flag:
/// - the "open" menu item and a left click on the tray icon show and focus
///   the main window;
/// - the "quit" menu item exits the process;
/// - a close request on the main window is always prevented and the window
///   hidden instead;
/// - a close request on the overlay is prevented while the flag is up;
/// - destruction of the overlay while the flag is up recreates it.
pub open spec fn event_response(is_blocked: bool, ev: UiEvent) -> EventResponse {
    match ev {
        UiEvent::Menu(MenuChoice::Open) => EventResponse { show_focus_main: true, ..no_response() },
        UiEvent::Menu(MenuChoice::Quit) => EventResponse { exit: true, ..no_response() },
        UiEvent::Menu(MenuChoice::Other) => no_response(),
        UiEvent::TrayClick { left_button } => if left_button {
            EventResponse { show_focus_main: true, ..no_response() }
        } else {
            no_response()
        },
        UiEvent::CloseRequested(Label::Main) => EventResponse {
            prevent_close: true,
            hide_target: true,
            ..no_response()
        },
        UiEvent::CloseRequested(Label::Blocked) => if is_blocked {
            EventResponse { prevent_close: true, ..no_response() }
        } else {
            no_response()
        },
        UiEvent::CloseRequested(Label::Other) => no_response(),
        UiEvent::Destroyed(Label::Blocked) => if is_blocked {
            EventResponse { recreate_blocked: true, ..no_response() }
        } else {
            no_response()
        },
        UiEvent::Destroyed(Label::Main) => no_response(),
        UiEvent::Destroyed(Label::Other) => no_response(),
    }
}

/// Reacts to one user-interface event: the single dispatcher behind the menu,
/// tray and window hooks.
pub fn handle_event(is_blocked: bool, ev: UiEvent) -> (r: EventResponse)
    ensures
        r == event_response(is_blocked, ev),
{
    let quiet = EventResponse {
        prevent_close: false,
        hide_target: false,
        show_focus_main: false,
        recreate_blocked: false,
        exit: false,
    };
    match ev {
        UiEvent::Menu(MenuChoice::Open) => EventResponse { show_focus_main: true, ..quiet },
        UiEvent::Menu(MenuChoice::Quit) => EventResponse { exit: true, ..quiet },
        UiEvent::Menu(MenuChoice::Other) => quiet,
        UiEvent::TrayClick { left_button } => if left_button {
            EventResponse { show_focus_main: true, ..quiet }
        } else {
            quiet
        },
        UiEvent::CloseRequested(Label::Main) => EventResponse {
            prevent_close: true,
            hide_target: true,
            ..quiet
        },
        UiEvent::CloseRequested(Label::Blocked) => if is_blocked {
            EventResponse { prevent_close: true, ..quiet }
        } else {
            quiet
        },
        UiEvent::CloseRequested(Label::Other) => quiet,
        UiEvent::Destroyed(Label::Blocked) => if is_blocked {
            EventResponse { recreate_blocked: true, ..quiet }
        } else {
            quiet
        },
        UiEvent::Destroyed(Label::Main) => quiet,
        UiEvent::Destroyed(Label::Other) => quiet,
    }
}

/// The greeting returned for a name.
pub open spec fn greeting_chars(name: Seq<char>) -> Seq<char> {
    "Hello, "@ + name + "! You've been greeted from Rust!"@
}

/// Formats the greeting for `name`.
pub fn greet(name: &str) -> (r: String)
    ensures
        r@ == greeting_chars(name@),
{
    let mut r = String::from_str("Hello, ");
    r.append(name);
    r.append("! You've been greeted from Rust!");
    r
}

} // verus!
