//! The controller's guarantees, proved over the model: how the blocked flag
//! tracks the commands, what the plans do to the desktop, and how the event
//! responses keep the main window alive and the overlay up.

use vstd::prelude::*;

use crate::controller::ControllerState;
use crate::controller::MainSnapshot;
use crate::controller::close_secondary_actions;
use crate::controller::close_secondary_next_state;
use crate::controller::event_response;
use crate::controller::toggle_actions;
use crate::controller::toggle_next_state;
use crate::events::Action;
use crate::events::Label;
use crate::events::UiEvent;
use crate::model::Desktop;
use crate::model::action_applied;
use crate::model::desktop_inv;
use crate::model::lemma_plan_applied_one;
use crate::model::lemma_plan_applied_two;
use crate::model::main_snapshot_of;
use crate::model::plan_applied;
use crate::model::response_applied;

verus! {

/// The controller state after a sequence of `toggle_block_window` calls,
/// each given as the main-window snapshot it read and the flag it was
/// passed.
pub open spec fn toggles_applied(s: ControllerState, calls: Seq<(MainSnapshot, bool)>) -> ControllerState
    decreases calls.len(),
{
    if calls.len() == 0 {
        s
    } else {
        toggles_applied(toggle_next_state(s, calls[0].0, calls[0].1), calls.drop_first())
    }
}

/// After any non-empty sequence of `toggle_block_window` calls, the blocked
/// flag equals the boolean passed in the most recent call.
pub proof fn lemma_blocked_flag_tracks_last_call(s: ControllerState, calls: Seq<(MainSnapshot, bool)>)
    requires
        calls.len() > 0,
    ensures
        toggles_applied(s, calls).is_blocked == calls.last().1,
    decreases calls.len(),
{
    let s1 = toggle_next_state(s, calls[0].0, calls[0].1);
    assert(toggles_applied(s, calls) == toggles_applied(s1, calls.drop_first()));
    if calls.len() == 1 {
        assert(calls.drop_first().len() == 0);
        assert(toggles_applied(s1, calls.drop_first()) == s1);
        assert(calls.last() == calls[0]);
    } else {
        lemma_blocked_flag_tracks_last_call(s1, calls.drop_first());
        assert(calls.drop_first().last() == calls.last());
    }
}

/// Engaging the block twice in a row leaves the desktop and the controller
/// state exactly as one engagement left them — in particular, with a single
/// overlay window, never a second one, and with the captured visibility not
/// overwritten by the second call.
pub proof fn lemma_blocking_twice_is_idempotent(s: ControllerState, d: Desktop)
    requires
        desktop_inv(d),
    ensures
        ({
            let d1 = plan_applied(d, toggle_actions(s, main_snapshot_of(d), true));
            let s1 = toggle_next_state(s, main_snapshot_of(d), true);
            let d2 = plan_applied(d1, toggle_actions(s1, main_snapshot_of(d1), true));
            let s2 = toggle_next_state(s1, main_snapshot_of(d1), true);
            d1.blocked_windows == 1 && d2 == d1 && s2 == s1
        }),
{
    let snap = main_snapshot_of(d);
    if d.main_present {
        assert(toggle_actions(s, snap, true) =~= seq![Action::HideMain, Action::EnsureBlocked]);
        lemma_plan_applied_two(d, Action::HideMain, Action::EnsureBlocked);
        let d1 = plan_applied(d, toggle_actions(s, snap, true));
        let s1 = toggle_next_state(s, snap, true);
        let snap1 = main_snapshot_of(d1);
        assert(toggle_actions(s1, snap1, true) =~= seq![Action::HideMain, Action::EnsureBlocked]);
        lemma_plan_applied_two(d1, Action::HideMain, Action::EnsureBlocked);
    } else {
        assert(toggle_actions(s, snap, true) =~= seq![Action::EnsureBlocked]);
        lemma_plan_applied_one(d, Action::EnsureBlocked);
        let d1 = plan_applied(d, toggle_actions(s, snap, true));
        let s1 = toggle_next_state(s, snap, true);
        let snap1 = main_snapshot_of(d1);
        assert(toggle_actions(s1, snap1, true) =~= seq![Action::EnsureBlocked]);
        lemma_plan_applied_one(d1, Action::EnsureBlocked);
    }
}

/// If the main window was hidden when the block was engaged, releasing the
/// block leaves it hidden: visibility is restored, not forced. The block is
/// engaged from the unblocked state, where the visibility is captured.
pub proof fn lemma_unblock_keeps_hidden_main_hidden(s: ControllerState, d: Desktop)
    requires
        !s.is_blocked,
        d.main_present,
        !d.main_visible,
    ensures
        ({
            let d1 = plan_applied(d, toggle_actions(s, main_snapshot_of(d), true));
            let s1 = toggle_next_state(s, main_snapshot_of(d), true);
            let d2 = plan_applied(d1, toggle_actions(s1, main_snapshot_of(d1), false));
            !d2.main_visible && d2.blocked_windows == 0
        }),
{
    let snap = main_snapshot_of(d);
    assert(toggle_actions(s, snap, true) =~= seq![Action::HideMain, Action::EnsureBlocked]);
    lemma_plan_applied_two(d, Action::HideMain, Action::EnsureBlocked);
    let d1 = plan_applied(d, toggle_actions(s, snap, true));
    let s1 = toggle_next_state(s, snap, true);
    assert(toggle_actions(s1, main_snapshot_of(d1), false) =~= seq![Action::CloseBlocked]);
    lemma_plan_applied_one(d1, Action::CloseBlocked);
}

/// If the main window was visible when the block was engaged, releasing the
/// block closes the overlay and leaves the main window visible and focused.
/// The block is engaged from the unblocked state, where the visibility is
/// captured.
pub proof fn lemma_unblock_restores_visible_main(s: ControllerState, d: Desktop)
    requires
        !s.is_blocked,
        d.main_present,
        d.main_visible,
    ensures
        ({
            let d1 = plan_applied(d, toggle_actions(s, main_snapshot_of(d), true));
            let s1 = toggle_next_state(s, main_snapshot_of(d), true);
            let d2 = plan_applied(d1, toggle_actions(s1, main_snapshot_of(d1), false));
            d2.main_visible && d2.main_focused && d2.blocked_windows == 0
        }),
{
    let snap = main_snapshot_of(d);
    assert(toggle_actions(s, snap, true) =~= seq![Action::HideMain, Action::EnsureBlocked]);
    lemma_plan_applied_two(d, Action::HideMain, Action::EnsureBlocked);
    let d1 = plan_applied(d, toggle_actions(s, snap, true));
    let s1 = toggle_next_state(s, snap, true);
    assert(toggle_actions(s1, main_snapshot_of(d1), false) =~= seq![Action::CloseBlocked,
        Action::ShowFocusMain]);
    lemma_plan_applied_two(d1, Action::CloseBlocked, Action::ShowFocusMain);
}

/// Re-engaging the block does not lose the captured visibility: if the main
/// window was visible when the block was engaged from the unblocked state,
/// then even after a further blocking call — which reads the now-hidden main
/// window — releasing the block still restores the main window.
pub proof fn lemma_reblock_then_unblock_restores_visible_main(s: ControllerState, d: Desktop)
    requires
        !s.is_blocked,
        desktop_inv(d),
        d.main_present,
        d.main_visible,
    ensures
        ({
            let s1 = toggle_next_state(s, main_snapshot_of(d), true);
            let d1 = plan_applied(d, toggle_actions(s, main_snapshot_of(d), true));
            let s2 = toggle_next_state(s1, main_snapshot_of(d1), true);
            let d2 = plan_applied(d1, toggle_actions(s1, main_snapshot_of(d1), true));
            let d3 = plan_applied(d2, toggle_actions(s2, main_snapshot_of(d2), false));
            d3.main_visible && d3.main_focused && d3.blocked_windows == 0
        }),
{
    let snap = main_snapshot_of(d);
    assert(toggle_actions(s, snap, true) =~= seq![Action::HideMain, Action::EnsureBlocked]);
    lemma_plan_applied_two(d, Action::HideMain, Action::EnsureBlocked);
    lemma_blocking_twice_is_idempotent(s, d);
    let s1 = toggle_next_state(s, snap, true);
    let d1 = plan_applied(d, toggle_actions(s, snap, true));
    let s2 = toggle_next_state(s1, main_snapshot_of(d1), true);
    let d2 = plan_applied(d1, toggle_actions(s1, main_snapshot_of(d1), true));
    assert(toggle_actions(s2, main_snapshot_of(d2), false) =~= seq![Action::CloseBlocked,
        Action::ShowFocusMain]);
    lemma_plan_applied_two(d2, Action::CloseBlocked, Action::ShowFocusMain);
}

/// `close_secondary_windows` always leaves the blocked flag off and the
/// desktop with no window but the main one, whatever the prior state; and it
/// restores the main window if it was visible when the block was engaged.
pub proof fn lemma_close_secondary_force_unblocks(s: ControllerState, d: Desktop)
    ensures
        ({
            let s1 = close_secondary_next_state(s);
            let d1 = plan_applied(d, close_secondary_actions(s));
            !s1.is_blocked && d1.blocked_windows == 0 && d1.extra_windows == 0
                && d1.main_present == d.main_present && (s.was_main_visible && d.main_present
                ==> d1.main_visible && d1.main_focused)
        }),
{
    if s.was_main_visible {
        assert(close_secondary_actions(s) =~= seq![Action::CloseSecondary, Action::ShowFocusMain]);
        lemma_plan_applied_two(d, Action::CloseSecondary, Action::ShowFocusMain);
    } else {
        assert(close_secondary_actions(s) =~= seq![Action::CloseSecondary]);
        lemma_plan_applied_one(d, Action::CloseSecondary);
    }
}

/// If the overlay is destroyed while the blocked flag is up, the
/// controller's response recreates it: the desktop ends with an overlay
/// window again.
pub proof fn lemma_destroyed_overlay_self_heals(d: Desktop)
    requires
        d.blocked_windows == 0,
    ensures
        ({
            let r = event_response(true, UiEvent::Destroyed(Label::Blocked));
            r.recreate_blocked && response_applied(d, UiEvent::Destroyed(Label::Blocked),
                r).blocked_windows == 1
        }),
{
}

/// A close request on the main window never closes it: the response prevents
/// the close and hides the window instead, and does not end the process,
/// whatever the blocked flag.
pub proof fn lemma_main_close_request_only_hides(is_blocked: bool, d: Desktop)
    requires
        d.main_present,
    ensures
        ({
            let r = event_response(is_blocked, UiEvent::CloseRequested(Label::Main));
            let d1 = response_applied(d, UiEvent::CloseRequested(Label::Main), r);
            r.prevent_close && !r.exit && d1.main_present && !d1.main_visible
        }),
{
}

/// One action keeps a desktop well-formed.
pub proof fn lemma_action_preserves_desktop_inv(d: Desktop, a: Action)
    requires
        desktop_inv(d),
    ensures
        desktop_inv(action_applied(d, a)),
{
}

/// A whole plan keeps a desktop well-formed.
pub proof fn lemma_plan_preserves_desktop_inv(d: Desktop, p: Seq<Action>)
    requires
        desktop_inv(d),
    ensures
        desktop_inv(plan_applied(d, p)),
    decreases p.len(),
{
    if p.len() > 0 {
        lemma_action_preserves_desktop_inv(d, p[0]);
        lemma_plan_preserves_desktop_inv(action_applied(d, p[0]), p.drop_first());
    }
}

/// An event and its response keep a desktop well-formed.
pub proof fn lemma_response_preserves_desktop_inv(d: Desktop, ev: UiEvent, is_blocked: bool)
    requires
        desktop_inv(d),
    ensures
        desktop_inv(response_applied(d, ev, event_response(is_blocked, ev))),
{
}

} // verus!
