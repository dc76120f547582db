use tray_shell::registry::WindowRegistry;
use tray_shell::window::{apply_all, Probe, WindowOp, WindowState};

fn state(visible: bool, minimized: bool, focused: bool) -> WindowState {
    WindowState { visible, minimized, focused }
}

#[test]
fn each_request_has_its_effect() {
    let before = state(true, true, true);
    assert_eq!(WindowOp::Hide.apply(before), state(false, true, false));
    let before = state(false, true, false);
    assert_eq!(WindowOp::Show.apply(before), state(true, true, false));
    assert_eq!(WindowOp::Unminimize.apply(before), state(false, false, false));
    assert_eq!(WindowOp::Focus.apply(before), state(false, true, true));
}

#[test]
fn requests_are_carried_out_in_order() {
    let before = state(false, true, false);
    let ops = vec![WindowOp::Show, WindowOp::Unminimize, WindowOp::Focus];
    assert_eq!(apply_all(before, &ops), state(true, false, true));
    let ops = vec![WindowOp::Show, WindowOp::Focus, WindowOp::Hide];
    assert_eq!(apply_all(before, &ops), state(false, true, false));
    let ops = vec![WindowOp::Hide, WindowOp::Show, WindowOp::Focus];
    assert_eq!(apply_all(before, &ops), state(true, true, true));
    assert_eq!(apply_all(before, &Vec::new()), before);
}

#[test]
fn new_registry_holds_no_window() {
    let windows = WindowRegistry::new();
    assert_eq!(windows.get("main"), None);
    assert_eq!(windows.get(""), None);
    assert_eq!(windows.probe("main"), Probe::Missing);
}

#[test]
fn declared_windows_are_found_by_label() {
    let mut windows = WindowRegistry::new();
    windows.declare("main", state(true, false, true));
    windows.declare("launcher", state(false, true, false));
    assert_eq!(windows.get("main"), Some(state(true, false, true)));
    assert_eq!(windows.get("launcher"), Some(state(false, true, false)));
    assert_eq!(windows.get("Main"), None);
    assert_eq!(windows.probe("main"), Probe::Visible);
    assert_eq!(windows.probe("launcher"), Probe::Hidden);
    assert_eq!(windows.probe("other"), Probe::Missing);
}

#[test]
fn declaring_again_replaces_the_window() {
    let mut windows = WindowRegistry::new();
    windows.declare("main", state(true, false, true));
    windows.declare("launcher", state(true, false, false));
    windows.declare("main", state(false, true, false));
    assert_eq!(windows.get("main"), Some(state(false, true, false)));
    assert_eq!(windows.get("launcher"), Some(state(true, false, false)));
    windows.destroy("main");
    assert_eq!(windows.get("main"), None);
}

#[test]
fn perform_changes_only_the_named_window() {
    let mut windows = WindowRegistry::new();
    windows.declare("main", state(false, false, false));
    windows.declare("launcher", state(false, true, false));
    let ops = vec![WindowOp::Show, WindowOp::Unminimize, WindowOp::Focus];
    assert!(windows.perform("launcher", &ops));
    assert_eq!(windows.get("launcher"), Some(state(true, false, true)));
    assert_eq!(windows.get("main"), Some(state(false, false, false)));
}

#[test]
fn perform_on_missing_window_fails_and_changes_nothing() {
    let mut windows = WindowRegistry::new();
    windows.declare("main", state(true, false, false));
    assert!(!windows.perform("launcher", &vec![WindowOp::Show]));
    assert_eq!(windows.get("launcher"), None);
    assert_eq!(windows.get("main"), Some(state(true, false, false)));
}

#[test]
fn destroy_removes_only_the_named_window() {
    let mut windows = WindowRegistry::new();
    windows.declare("main", state(true, false, false));
    windows.declare("launcher", state(false, false, false));
    windows.declare("settings", state(true, true, false));
    windows.destroy("launcher");
    assert_eq!(windows.get("launcher"), None);
    assert_eq!(windows.get("main"), Some(state(true, false, false)));
    assert_eq!(windows.get("settings"), Some(state(true, true, false)));
    windows.destroy("launcher");
    windows.destroy("nothing");
    assert_eq!(windows.get("main"), Some(state(true, false, false)));
    assert_eq!(windows.get("settings"), Some(state(true, true, false)));
}
