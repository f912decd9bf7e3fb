//! Vocabulary of the controller: window labels, user-interface events, the
//! actions a command plans, and the response an event handler returns.
//!
//! The window system knows windows by string labels; `"main"` and `"blocked"`
//! are the two labels the controller treats specially, so the string form of
//! each, and the parsing of an arbitrary label string, are part of this
//! module's contract.

use vstd::prelude::*;
use vstd::string::StringExecFns;

verus! {

/// A window's identity as the controller sees it: the main window, the
/// blocked overlay, or any other (secondary) window.
#[derive(Clone, Copy, Debug, PartialEq, Eq, Structural)]
pub enum Label {
    Main,
    Blocked,
    Other,
}

/// A tray-menu entry: the "open" item, the "quit" item, or an unknown id.
#[derive(Clone, Copy, Debug, PartialEq, Eq, Structural)]
pub enum MenuChoice {
    Open,
    Quit,
    Other,
}

/// One user-interface event, as handed to the controller by the shell:
/// a menu click, a tray-icon click, a request to close a window, or the
/// destruction of a window.
#[derive(Clone, Copy, Debug, PartialEq, Eq, Structural)]
pub enum UiEvent {
    Menu(MenuChoice),
    TrayClick { left_button: bool },
    CloseRequested(Label),
    Destroyed(Label),
}

/// What an event handler asks the shell to do in reaction to one event.
/// `prevent_close` and `hide_target` concern the window the event is about;
/// the remaining fields stand on their own.
#[derive(Clone, Copy, Debug, PartialEq, Eq, Structural)]
pub struct EventResponse {
    pub prevent_close: bool,
    pub hide_target: bool,
    pub show_focus_main: bool,
    pub recreate_blocked: bool,
    pub exit: bool,
}

/// One step of a plan that a command returns: an effect on the desktop's
/// windows, to be carried out in order.
#[derive(Clone, Copy, Debug, PartialEq, Eq, Structural)]
pub enum Action {
    /// Hide the main window, if it exists.
    HideMain,
    /// Show the main window and give it focus, if it exists.
    ShowFocusMain,
    /// Create the blocked overlay window unless one already exists.
    EnsureBlocked,
    /// Close the blocked overlay window, if it exists.
    CloseBlocked,
    /// Close every window except the main one.
    CloseSecondary,
}

/// The characters of the main window's label, `"main"`.
pub open spec fn main_label_chars() -> Seq<char> {
    "main"@
}

/// The characters of the overlay window's label, `"blocked"`.
pub open spec fn blocked_label_chars() -> Seq<char> {
    "blocked"@
}

/// Which `Label` a label string denotes.
pub open spec fn spec_label_of(s: Seq<char>) -> Label {
    if s == main_label_chars() {
        Label::Main
    } else if s == blocked_label_chars() {
        Label::Blocked
    } else {
        Label::Other
    }
}

/// The characters of the "open" menu item's id.
pub open spec fn open_menu_id_chars() -> Seq<char> {
    "open"@
}

/// The characters of the "quit" menu item's id.
pub open spec fn quit_menu_id_chars() -> Seq<char> {
    "quit"@
}

/// Which `MenuChoice` a menu-item id string denotes.
pub open spec fn spec_menu_choice_of(s: Seq<char>) -> MenuChoice {
    if s == open_menu_id_chars() {
        MenuChoice::Open
    } else if s == quit_menu_id_chars() {
        MenuChoice::Quit
    } else {
        MenuChoice::Other
    }
}

/// The main window's label string.
pub fn main_label() -> (s: String)
    ensures
        s@ == main_label_chars(),
{
    String::from_str("main")
}

/// The overlay window's label string.
pub fn blocked_label() -> (s: String)
    ensures
        s@ == blocked_label_chars(),
{
    String::from_str("blocked")
}

/// The "open" menu item's id string.
pub fn open_menu_id() -> (s: String)
    ensures
        s@ == open_menu_id_chars(),
{
    String::from_str("open")
}

/// The "quit" menu item's id string.
pub fn quit_menu_id() -> (s: String)
    ensures
        s@ == quit_menu_id_chars(),
{
    String::from_str("quit")
}

/// Classifies a window label string.
pub fn parse_label(s: &str) -> (l: Label)
    ensures
        l == spec_label_of(s@),
{
    let owned = String::from_str(s);
    if owned == String::from_str("main") {
        Label::Main
    } else if owned == String::from_str("blocked") {
        Label::Blocked
    } else {
        Label::Other
    }
}

/// Classifies a menu-item id string.
pub fn parse_menu_choice(s: &str) -> (c: MenuChoice)
    ensures
        c == spec_menu_choice_of(s@),
{
    let owned = String::from_str(s);
    if owned == String::from_str("open") {
        MenuChoice::Open
    } else if owned == String::from_str("quit") {
        MenuChoice::Quit
    } else {
        MenuChoice::Other
    }
}

} // verus!
