use monexa_shell::controller::greet;
use monexa_shell::controller::blocked_window_config;
use monexa_shell::controller::blocked_window_title;
use monexa_shell::controller::blocked_window_url;
use monexa_shell::controller::close_secondary_windows;
use monexa_shell::controller::create_blocked_window;
use monexa_shell::controller::handle_event;
use monexa_shell::controller::is_secondary;
use monexa_shell::controller::toggle_block_window;
use monexa_shell::controller::ControllerState;
use monexa_shell::controller::MainSnapshot;
use monexa_shell::events::blocked_label;
use monexa_shell::events::main_label;
use monexa_shell::events::open_menu_id;
use monexa_shell::events::parse_label;
use monexa_shell::events::parse_menu_choice;
use monexa_shell::events::quit_menu_id;
use monexa_shell::events::Action;
use monexa_shell::events::Label;
use monexa_shell::events::MenuChoice;
use monexa_shell::events::UiEvent;
use monexa_shell::model::apply_event_response;
use monexa_shell::model::apply_plan;
use monexa_shell::model::snapshot_main;
use monexa_shell::model::Desktop;

fn desktop(main_visible: bool) -> Desktop {
    Desktop {
        main_present: true,
        main_visible,
        main_focused: false,
        blocked_windows: 0,
        extra_windows: 0,
    }
}

#[test]
fn greet_formats_the_name() {
    assert_eq!(greet("World"), "Hello, World! You've been greeted from Rust!");
    assert_eq!(greet(""), "Hello, ! You've been greeted from Rust!");
}

#[test]
fn new_state_starts_unblocked_and_visible() {
    let s = ControllerState::new();
    assert!(!s.is_blocked);
    assert!(s.was_main_visible);
}

#[test]
fn blocked_flag_tracks_the_last_toggle() {
    let mut s = ControllerState::new();
    let snap = MainSnapshot { present: true, visible: true };
    for &b in &[true, true, false, true, false, false] {
        toggle_block_window(&mut s, snap, b);
        assert_eq!(s.is_blocked, b);
    }
}

#[test]
fn toggle_plans_are_exact() {
    let mut s = ControllerState::new();
    let present = MainSnapshot { present: true, visible: true };
    let absent = MainSnapshot { present: false, visible: true };

    let p = toggle_block_window(&mut s, present, true);
    assert_eq!(p, vec![Action::HideMain, Action::EnsureBlocked]);

    let p = toggle_block_window(&mut s, absent, true);
    assert_eq!(p, vec![Action::EnsureBlocked]);

    // was_main_visible is still true: release restores the main window
    let p = toggle_block_window(&mut s, present, false);
    assert_eq!(p, vec![Action::CloseBlocked, Action::ShowFocusMain]);

    // capture a hidden main window, then release: no restore
    let hidden = MainSnapshot { present: true, visible: false };
    toggle_block_window(&mut s, hidden, true);
    let p = toggle_block_window(&mut s, hidden, false);
    assert_eq!(p, vec![Action::CloseBlocked]);
}

#[test]
fn blocking_twice_creates_no_second_overlay() {
    let mut s = ControllerState::new();
    let d0 = desktop(true);

    let p1 = toggle_block_window(&mut s, snapshot_main(d0), true);
    let d1 = apply_plan(d0, &p1);
    assert_eq!(d1.blocked_windows, 1);

    let p2 = toggle_block_window(&mut s, snapshot_main(d1), true);
    let d2 = apply_plan(d1, &p2);
    assert_eq!(d2.blocked_windows, 1);
    assert_eq!(d2, d1);
}

#[test]
fn reblocking_does_not_overwrite_captured_visibility() {
    let mut s = ControllerState::new();
    let d0 = desktop(true);

    let p1 = toggle_block_window(&mut s, snapshot_main(d0), true);
    let d1 = apply_plan(d0, &p1);
    assert!(s.was_main_visible);
    assert!(!d1.main_visible);

    // block again: the main window is now hidden, but the captured value
    // was written on the transition into the blocked state and stays
    let p2 = toggle_block_window(&mut s, snapshot_main(d1), true);
    let d2 = apply_plan(d1, &p2);
    assert!(s.was_main_visible);
    assert_eq!(d2, d1);

    let p3 = toggle_block_window(&mut s, snapshot_main(d2), false);
    let d3 = apply_plan(d2, &p3);
    assert!(d3.main_visible && d3.main_focused);
    assert_eq!(d3.blocked_windows, 0);
}

#[test]
fn hidden_main_stays_hidden_after_unblock() {
    let mut s = ControllerState::new();
    let d0 = desktop(false);

    let p1 = toggle_block_window(&mut s, snapshot_main(d0), true);
    let d1 = apply_plan(d0, &p1);
    let p2 = toggle_block_window(&mut s, snapshot_main(d1), false);
    let d2 = apply_plan(d1, &p2);

    assert!(!d2.main_visible);
    assert_eq!(d2.blocked_windows, 0);
}

#[test]
fn visible_main_is_restored_and_focused_after_unblock() {
    let mut s = ControllerState::new();
    let d0 = desktop(true);

    let p1 = toggle_block_window(&mut s, snapshot_main(d0), true);
    let d1 = apply_plan(d0, &p1);
    assert!(!d1.main_visible);

    let p2 = toggle_block_window(&mut s, snapshot_main(d1), false);
    let d2 = apply_plan(d1, &p2);

    assert!(d2.main_visible);
    assert!(d2.main_focused);
    assert_eq!(d2.blocked_windows, 0);
}

#[test]
fn close_secondary_clears_everything_but_main() {
    let mut s = ControllerState::new();
    let d0 = Desktop {
        main_present: true,
        main_visible: false,
        main_focused: false,
        blocked_windows: 1,
        extra_windows: 3,
    };
    // engage the block first: prior state must not matter
    toggle_block_window(&mut s, snapshot_main(d0), true);
    assert!(s.is_blocked);

    let p = close_secondary_windows(&mut s);
    let d1 = apply_plan(d0, &p);

    assert!(!s.is_blocked);
    assert_eq!(d1.blocked_windows, 0);
    assert_eq!(d1.extra_windows, 0);
    assert!(d1.main_present);
    // the main window was hidden when the block was engaged: not restored
    assert!(!d1.main_visible);
}

#[test]
fn close_secondary_restores_a_visible_main() {
    let mut s = ControllerState::new();
    let d0 = Desktop { blocked_windows: 1, extra_windows: 2, ..desktop(true) };
    toggle_block_window(&mut s, snapshot_main(d0), true);

    let p = close_secondary_windows(&mut s);
    assert_eq!(p, vec![Action::CloseSecondary, Action::ShowFocusMain]);
    let d1 = apply_plan(d0, &p);

    assert!(!s.is_blocked);
    assert_eq!(d1.blocked_windows, 0);
    assert_eq!(d1.extra_windows, 0);
    assert!(d1.main_visible && d1.main_focused);
}

#[test]
fn destroyed_overlay_is_recreated_while_blocked() {
    let d = Desktop { blocked_windows: 0, ..desktop(false) };
    let ev = UiEvent::Destroyed(Label::Blocked);
    let r = handle_event(true, ev);
    assert!(r.recreate_blocked);
    let d1 = apply_event_response(d, ev, r);
    assert_eq!(d1.blocked_windows, 1);
}

#[test]
fn destroyed_overlay_stays_closed_when_unblocked() {
    let d = Desktop { blocked_windows: 0, ..desktop(true) };
    let ev = UiEvent::Destroyed(Label::Blocked);
    let r = handle_event(false, ev);
    assert!(!r.recreate_blocked);
    let d1 = apply_event_response(d, ev, r);
    assert_eq!(d1.blocked_windows, 0);
}

#[test]
fn main_close_request_hides_and_keeps_the_process() {
    for &blocked in &[false, true] {
        let d = desktop(true);
        let ev = UiEvent::CloseRequested(Label::Main);
        let r = handle_event(blocked, ev);
        assert!(r.prevent_close);
        assert!(r.hide_target);
        assert!(!r.exit);
        let d1 = apply_event_response(d, ev, r);
        assert!(d1.main_present);
        assert!(!d1.main_visible);
    }
}

#[test]
fn overlay_close_request_is_prevented_only_while_blocked() {
    let ev = UiEvent::CloseRequested(Label::Blocked);
    let r = handle_event(true, ev);
    assert!(r.prevent_close);
    assert!(!r.hide_target);

    let r = handle_event(false, ev);
    assert!(!r.prevent_close);
    let d = Desktop { blocked_windows: 1, ..desktop(true) };
    let d1 = apply_event_response(d, ev, r);
    assert_eq!(d1.blocked_windows, 0);
}

#[test]
fn menu_and_tray_show_or_quit() {
    let r = handle_event(false, UiEvent::Menu(MenuChoice::Open));
    assert!(r.show_focus_main && !r.exit);

    let r = handle_event(false, UiEvent::Menu(MenuChoice::Quit));
    assert!(r.exit && !r.show_focus_main);

    let r = handle_event(false, UiEvent::Menu(MenuChoice::Other));
    assert!(!r.exit && !r.show_focus_main && !r.prevent_close);

    let r = handle_event(false, UiEvent::TrayClick { left_button: true });
    assert!(r.show_focus_main);

    let r = handle_event(false, UiEvent::TrayClick { left_button: false });
    assert!(!r.show_focus_main);
}

#[test]
fn overlay_creation_is_idempotent() {
    assert_eq!(create_blocked_window(true), None);
    let cfg = create_blocked_window(false).unwrap();
    assert!(cfg.fullscreen);
    assert!(cfg.always_on_top);
    assert!(!cfg.decorations);
    assert!(!cfg.resizable);
    assert!(cfg.visible);
    assert_eq!(cfg, blocked_window_config());
}

#[test]
fn overlay_title_and_url_are_fixed() {
    assert_eq!(blocked_window_title(), "Monexa - Blocked");
    assert_eq!(blocked_window_url(), "index.html#/blocked");
}

#[test]
fn labels_parse_and_print() {
    assert_eq!(main_label(), "main");
    assert_eq!(blocked_label(), "blocked");
    assert_eq!(parse_label("main"), Label::Main);
    assert_eq!(parse_label("blocked"), Label::Blocked);
    assert_eq!(parse_label("settings"), Label::Other);
    assert_eq!(parse_label(main_label().as_str()), Label::Main);
    assert_eq!(parse_label(blocked_label().as_str()), Label::Blocked);
}

#[test]
fn menu_ids_parse_and_print() {
    assert_eq!(open_menu_id(), "open");
    assert_eq!(quit_menu_id(), "quit");
    assert_eq!(parse_menu_choice("open"), MenuChoice::Open);
    assert_eq!(parse_menu_choice("quit"), MenuChoice::Quit);
    assert_eq!(parse_menu_choice("help"), MenuChoice::Other);
}

#[test]
fn every_label_but_main_is_secondary() {
    assert!(!is_secondary(Label::Main));
    assert!(is_secondary(Label::Blocked));
    assert!(is_secondary(Label::Other));
}

#[test]
fn snapshot_reads_the_main_window() {
    let d = Desktop { main_present: true, main_visible: false, ..desktop(false) };
    let snap = snapshot_main(d);
    assert!(snap.present);
    assert!(!snap.visible);
}

#[test]
fn empty_plan_changes_nothing() {
    let d = Desktop { blocked_windows: 1, extra_windows: 2, ..desktop(true) };
    let d1 = apply_plan(d, &Vec::new());
    assert_eq!(d1, d);
}
