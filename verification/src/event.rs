use vstd::prelude::*;

verus! {

/// The mouse button of a click on the tray icon.
#[derive(Clone, Copy, Debug, PartialEq, Eq, Structural)]
pub enum MouseButton {
    Left,
    Right,
    Middle,
}

/// The two states a global hotkey reports.
#[derive(Clone, Copy, Debug, PartialEq, Eq, Structural)]
pub enum KeyState {
    Pressed,
    Released,
}

/// What the host's event loop can hand to the shell.
#[derive(Debug, PartialEq, Eq)]
pub enum Event {
    /// An item of the tray menu was chosen; `id` is the item's identifier.
    MenuAction { id: String },
    /// The tray icon was clicked.
    TrayClick { button: MouseButton },
    /// The global hotkey changed state.
    Shortcut { state: KeyState },
    /// The user asked to close a window; `window` is the window's label.
    CloseRequested { window: String },
}

} // verus!
