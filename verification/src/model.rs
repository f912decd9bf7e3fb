//! An abstract picture of the window system, and what the controller's plans
//! and responses do to it.
//!
//! The model keeps just enough of the desktop to state the controller's
//! guarantees: whether the main window exists, is visible and is focused,
//! how many windows carry the overlay's label (the window system keys
//! windows by label, so a well-formed desktop has at most one), and how many
//! other secondary windows are open. The spec functions here define the
//! meaning of each `Action` and of an `EventResponse`; the executable
//! functions mirror them exactly, so a run of the shell can be simulated.

use vstd::prelude::*;

use crate::controller::MainSnapshot;
use crate::events::Action;
use crate::events::EventResponse;
use crate::events::Label;
use crate::events::UiEvent;

verus! {

/// The state of the desktop's windows, as far as the controller's guarantees
/// speak of it.
#[derive(Clone, Copy, Debug, PartialEq, Eq, Structural)]
pub struct Desktop {
    pub main_present: bool,
    pub main_visible: bool,
    pub main_focused: bool,
    /// Number of windows carrying the overlay's label.
    pub blocked_windows: u32,
    /// Number of secondary windows other than the overlay.
    pub extra_windows: u32,
}

/// Well-formedness of a desktop: window labels are unique, so at most one
/// window carries the overlay's label.
pub open spec fn desktop_inv(d: Desktop) -> bool {
    d.blocked_windows <= 1
}

/// What a command reads of the main window on this desktop.
pub open spec fn main_snapshot_of(d: Desktop) -> MainSnapshot {
    MainSnapshot { present: d.main_present, visible: d.main_visible }
}

/// The desktop after one action. Every action is guarded the way the shell
/// executes it: an action on a window that does not exist changes nothing.
pub open spec fn action_applied(d: Desktop, a: Action) -> Desktop {
    match a {
        Action::HideMain => if d.main_present {
            Desktop { main_visible: false, main_focused: false, ..d }
        } else {
            d
        },
        Action::ShowFocusMain => if d.main_present {
            Desktop { main_visible: true, main_focused: true, ..d }
        } else {
            d
        },
        Action::EnsureBlocked => if d.blocked_windows == 0 {
            Desktop { blocked_windows: 1, ..d }
        } else {
            d
        },
        Action::CloseBlocked => Desktop { blocked_windows: 0, ..d },
        Action::CloseSecondary => Desktop { blocked_windows: 0, extra_windows: 0, ..d },
    }
}

/// The desktop after a whole plan, first action first.
pub open spec fn plan_applied(d: Desktop, p: Seq<Action>) -> Desktop
    decreases p.len(),
{
    if p.len() == 0 {
        d
    } else {
        plan_applied(action_applied(d, p[0]), p.drop_first())
    }
}

/// How `plan_applied` computes on a plan of one action.
pub proof fn lemma_plan_applied_one(d: Desktop, a0: Action)
    ensures
        plan_applied(d, seq![a0]) == action_applied(d, a0),
{
    let p = seq![a0];
    assert(plan_applied(d, p) == plan_applied(action_applied(d, p[0]), p.drop_first()));
    assert(p.drop_first() =~= Seq::<Action>::empty());
    assert(plan_applied(action_applied(d, a0), Seq::<Action>::empty()) == action_applied(d, a0));
}

/// How `plan_applied` computes on a plan of two actions.
pub proof fn lemma_plan_applied_two(d: Desktop, a0: Action, a1: Action)
    ensures
        plan_applied(d, seq![a0, a1]) == action_applied(action_applied(d, a0), a1),
{
    let p = seq![a0, a1];
    assert(plan_applied(d, p) == plan_applied(action_applied(d, p[0]), p.drop_first()));
    assert(p.drop_first() =~= seq![a1]);
    lemma_plan_applied_one(action_applied(d, a0), a1);
}

/// The desktop after one window is removed: what the window system does when
/// a close request goes through.
pub open spec fn window_removed(d: Desktop, l: Label) -> Desktop {
    match l {
        Label::Main => Desktop { main_present: false, main_visible: false, main_focused: false, ..d },
        Label::Blocked => Desktop { blocked_windows: 0, ..d },
        Label::Other => Desktop {
            extra_windows: if d.extra_windows > 0 {
                (d.extra_windows - 1) as u32
            } else {
                0
            },
            ..d
        },
    }
}

/// The desktop after one window is hidden. Only the main window's visibility
/// is part of the model; hiding any other label changes nothing.
pub open spec fn window_hidden(d: Desktop, l: Label) -> Desktop {
    if l == Label::Main && d.main_present {
        Desktop { main_visible: false, main_focused: false, ..d }
    } else {
        d
    }
}

/// The desktop after an event and the controller's response to it. For a
/// close request, the window system removes the window unless the response
/// prevented the close; then the response's own effects are carried out, in
/// the order the shell performs them: hide the event's window, show and
/// focus the main window, recreate the overlay.
pub open spec fn response_applied(d: Desktop, ev: UiEvent, r: EventResponse) -> Desktop {
    let after_close = match ev {
        UiEvent::CloseRequested(l) => if r.prevent_close {
            d
        } else {
            window_removed(d, l)
        },
        _ => d,
    };
    let after_hide = match ev {
        UiEvent::CloseRequested(l) => if r.hide_target {
            window_hidden(after_close, l)
        } else {
            after_close
        },
        _ => after_close,
    };
    let after_show = if r.show_focus_main {
        action_applied(after_hide, Action::ShowFocusMain)
    } else {
        after_hide
    };
    if r.recreate_blocked {
        action_applied(after_show, Action::EnsureBlocked)
    } else {
        after_show
    }
}

/// Reads the main window's snapshot off a model desktop.
pub fn snapshot_main(d: Desktop) -> (s: MainSnapshot)
    ensures
        s == main_snapshot_of(d),
{
    MainSnapshot { present: d.main_present, visible: d.main_visible }
}

/// Runs one action on a model desktop.
pub fn apply_action(d: Desktop, a: Action) -> (r: Desktop)
    ensures
        r == action_applied(d, a),
{
    match a {
        Action::HideMain => if d.main_present {
            Desktop { main_visible: false, main_focused: false, ..d }
        } else {
            d
        },
        Action::ShowFocusMain => if d.main_present {
            Desktop { main_visible: true, main_focused: true, ..d }
        } else {
            d
        },
        Action::EnsureBlocked => if d.blocked_windows == 0 {
            Desktop { blocked_windows: 1, ..d }
        } else {
            d
        },
        Action::CloseBlocked => Desktop { blocked_windows: 0, ..d },
        Action::CloseSecondary => Desktop { blocked_windows: 0, extra_windows: 0, ..d },
    }
}

/// Runs a whole plan on a model desktop, first action first.
pub fn apply_plan(d: Desktop, p: &Vec<Action>) -> (r: Desktop)
    ensures
        r == plan_applied(d, p@),
{
    let mut cur = d;
    let mut i: usize = 0;
    proof {
        assert(p@.skip(0) =~= p@);
    }
    while i < p.len()
        invariant
            i <= p@.len(),
            plan_applied(cur, p@.skip(i as int)) == plan_applied(d, p@),
        decreases p@.len() - i,
    {
        proof {
            assert(p@.skip(i as int)[0] == p@[i as int]);
            assert(p@.skip(i as int).drop_first() =~= p@.skip(i as int + 1));
        }
        cur = apply_action(cur, p[i]);
        i = i + 1;
    }
    proof {
        assert(p@.skip(p@.len() as int) =~= Seq::<Action>::empty());
    }
    cur
}

/// Runs an event and the controller's response to it on a model desktop.
pub fn apply_event_response(d: Desktop, ev: UiEvent, r: EventResponse) -> (res: Desktop)
    ensures
        res == response_applied(d, ev, r),
{
    let mut cur = d;
    match ev {
        UiEvent::CloseRequested(l) => {
            if !r.prevent_close {
                cur = match l {
                    Label::Main => Desktop {
                        main_present: false,
                        main_visible: false,
                        main_focused: false,
                        ..cur
                    },
                    Label::Blocked => Desktop { blocked_windows: 0, ..cur },
                    Label::Other => Desktop {
                        extra_windows: if cur.extra_windows > 0 {
                            cur.extra_windows - 1
                        } else {
                            0
                        },
                        ..cur
                    },
                };
            }
            if r.hide_target {
                if matches!(l, Label::Main) && cur.main_present {
                    cur = Desktop { main_visible: false, main_focused: false, ..cur };
                }
            }
        },
        _ => {},
    }
    if r.show_focus_main {
        cur = apply_action(cur, Action::ShowFocusMain);
    }
    if r.recreate_blocked {
        cur = apply_action(cur, Action::EnsureBlocked);
    }
    cur
}

} // verus!
