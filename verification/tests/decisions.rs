use tray_shell::dispatch::{close_plan, route, route_menu, toggle_plan, OnFailure, Reaction};
use tray_shell::event::{Event, KeyState, MouseButton};
use tray_shell::greet::greet;
use tray_shell::hotkey::{launcher_hotkey, Hotkey, Key, Modifiers};
use tray_shell::menu::{tray_menu, MenuAction};
use tray_shell::setup::{advance, first_stage, Progress, Stage};
use tray_shell::text::same_text;
use tray_shell::window::{Probe, WindowName, WindowOp};

#[test]
fn menu_identifiers_are_routed() {
    let quit = Event::MenuAction { id: "quit".to_string() };
    let show_hide = Event::MenuAction { id: "show_hide".to_string() };
    let toggle_launcher = Event::MenuAction { id: "toggle_launcher".to_string() };
    assert_eq!(route(&quit), Reaction::Exit { code: 0 });
    assert_eq!(route(&show_hide), Reaction::Toggle { window: WindowName::Main });
    assert_eq!(route(&toggle_launcher), Reaction::Toggle { window: WindowName::Launcher });
}

#[test]
fn menu_items_are_routed() {
    assert_eq!(route_menu(MenuAction::Quit), Reaction::Exit { code: 0 });
    assert_eq!(route_menu(MenuAction::ShowHide), Reaction::Toggle { window: WindowName::Main });
    assert_eq!(
        route_menu(MenuAction::ToggleLauncher),
        Reaction::Toggle { window: WindowName::Launcher }
    );
}

#[test]
fn unknown_menu_identifiers_are_ignored() {
    for id in ["", "QUIT", "quit ", "show-hide", "toggle", "toggle_launcher2", "main"] {
        let event = Event::MenuAction { id: id.to_string() };
        assert_eq!(route(&event), Reaction::Ignore);
    }
}

#[test]
fn only_left_click_toggles_main() {
    assert_eq!(
        route(&Event::TrayClick { button: MouseButton::Left }),
        Reaction::Toggle { window: WindowName::Main }
    );
    assert_eq!(route(&Event::TrayClick { button: MouseButton::Right }), Reaction::Ignore);
    assert_eq!(route(&Event::TrayClick { button: MouseButton::Middle }), Reaction::Ignore);
}

#[test]
fn only_hotkey_press_toggles_launcher() {
    assert_eq!(
        route(&Event::Shortcut { state: KeyState::Pressed }),
        Reaction::Toggle { window: WindowName::Launcher }
    );
    assert_eq!(route(&Event::Shortcut { state: KeyState::Released }), Reaction::Ignore);
}

#[test]
fn every_close_request_is_intercepted() {
    for window in ["main", "launcher", "settings", ""] {
        let event = Event::CloseRequested { window: window.to_string() };
        assert_eq!(route(&event), Reaction::HideOnClose);
    }
}

#[test]
fn visible_window_is_hidden_by_toggle() {
    for window in [WindowName::Main, WindowName::Launcher] {
        let plan = toggle_plan(window, Probe::Visible);
        assert_eq!(plan.ops, vec![WindowOp::Hide]);
        assert_eq!(plan.on_failure, OnFailure::Ignore);
        assert!(!plan.cancel_close);
    }
}

#[test]
fn hidden_main_is_shown_and_focused() {
    let plan = toggle_plan(WindowName::Main, Probe::Hidden);
    assert_eq!(plan.ops, vec![WindowOp::Show, WindowOp::Focus]);
    assert_eq!(plan.on_failure, OnFailure::Ignore);
    assert!(!plan.cancel_close);
}

#[test]
fn hidden_launcher_is_shown_restored_and_focused() {
    let plan = toggle_plan(WindowName::Launcher, Probe::Hidden);
    assert_eq!(plan.ops, vec![WindowOp::Show, WindowOp::Unminimize, WindowOp::Focus]);
    assert_eq!(plan.on_failure, OnFailure::Ignore);
    assert!(!plan.cancel_close);
}

#[test]
fn unknown_visibility_counts_as_hidden() {
    assert_eq!(
        toggle_plan(WindowName::Main, Probe::Unknown),
        toggle_plan(WindowName::Main, Probe::Hidden)
    );
    assert_eq!(
        toggle_plan(WindowName::Launcher, Probe::Unknown),
        toggle_plan(WindowName::Launcher, Probe::Hidden)
    );
}

#[test]
fn missing_window_gets_an_empty_plan() {
    for window in [WindowName::Main, WindowName::Launcher] {
        let plan = toggle_plan(window, Probe::Missing);
        assert!(plan.ops.is_empty());
        assert_eq!(plan.on_failure, OnFailure::Ignore);
        assert!(!plan.cancel_close);
    }
}

#[test]
fn close_plan_hides_once_and_cancels() {
    let plan = close_plan();
    assert_eq!(plan.ops, vec![WindowOp::Hide]);
    assert_eq!(plan.ops.iter().filter(|op| **op == WindowOp::Hide).count(), 1);
    assert!(plan.cancel_close);
    assert_eq!(plan.on_failure, OnFailure::Abort);
}

#[test]
fn window_names_have_their_labels() {
    assert_eq!(WindowName::Main.label(), "main");
    assert_eq!(WindowName::Launcher.label(), "launcher");
}

#[test]
fn tray_menu_lists_items_top_to_bottom() {
    let items = tray_menu();
    assert_eq!(items, vec![MenuAction::ToggleLauncher, MenuAction::ShowHide, MenuAction::Quit]);
    let ids: Vec<&str> = items.iter().map(|item| item.id()).collect();
    let labels: Vec<&str> = items.iter().map(|item| item.label()).collect();
    assert_eq!(ids, vec!["toggle_launcher", "show_hide", "quit"]);
    assert_eq!(labels, vec!["Toggle Launcher", "Show / Hide", "Quit"]);
}

#[test]
fn menu_identifiers_read_back() {
    for action in tray_menu() {
        assert_eq!(MenuAction::from_id(action.id()), Some(action));
    }
    assert_eq!(MenuAction::from_id("quit"), Some(MenuAction::Quit));
    assert_eq!(MenuAction::from_id("Quit"), None);
    assert_eq!(MenuAction::from_id("Show / Hide"), None);
    assert_eq!(MenuAction::from_id(""), None);
}

#[test]
fn launcher_hotkey_is_ctrl_alt_a() {
    assert_eq!(
        launcher_hotkey(),
        Hotkey {
            modifiers: Modifiers { ctrl: true, alt: true, shift: false, meta: false },
            key: Key::A,
        }
    );
}

#[test]
fn startup_builds_tray_then_binds_hotkey() {
    assert_eq!(first_stage(), Stage::Tray);
    assert_eq!(advance(Stage::Tray, true), Progress::Next { stage: Stage::Hotkey });
    assert_eq!(
        advance(Stage::Hotkey, true),
        Progress::Ready { hotkey_bound: true, log_failure: false }
    );
}

#[test]
fn failed_tray_aborts_startup() {
    assert_eq!(advance(Stage::Tray, false), Progress::Abort { failed: Stage::Tray });
}

#[test]
fn failed_hotkey_is_logged_and_startup_goes_on() {
    assert_eq!(
        advance(Stage::Hotkey, false),
        Progress::Ready { hotkey_bound: false, log_failure: true }
    );
}

#[test]
fn greeting_wraps_the_name() {
    assert_eq!(greet("World"), "こんにちは、World! Rust側から挨拶が届きました！");
    assert_eq!(greet(""), "こんにちは、! Rust側から挨拶が届きました！");
    assert_eq!(greet("太郎"), "こんにちは、太郎! Rust側から挨拶が届きました！");
}

#[test]
fn same_text_compares_characters() {
    assert!(same_text("main", "main"));
    assert!(same_text("", ""));
    assert!(!same_text("main", "Main"));
    assert!(!same_text("main", "main "));
    assert!(!same_text("main", "launcher"));
}
