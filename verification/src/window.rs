use vstd::prelude::*;

verus! {

/// The two windows the shell addresses by name.
#[derive(Clone, Copy, Debug, PartialEq, Eq, Structural)]
pub enum WindowName {
    Main,
    Launcher,
}

impl WindowName {
    /// The characters of the window's label.
    pub open spec fn label_text(self) -> Seq<char> {
        match self {
            WindowName::Main => "main"@,
            WindowName::Launcher => "launcher"@,
        }
    }

    /// The label under which the host knows the window.
    pub fn label(self) -> (label: &'static str)
        ensures
            label@ == self.label_text(),
    {
        match self {
            WindowName::Main => "main",
            WindowName::Launcher => "launcher",
        }
    }
}

/// The two labels differ, so the two names never address the same window.
pub proof fn lemma_labels_differ()
    ensures
        WindowName::Main.label_text() != WindowName::Launcher.label_text(),
{
    reveal_strlit("main");
    reveal_strlit("launcher");
    assert("main"@.len() == 4);
    assert("launcher"@.len() == 8);
}

/// What the host knows about one window, as far as the shell cares.
#[derive(Clone, Copy, Debug, PartialEq, Eq, Structural)]
pub struct WindowState {
    /// The window is on the screen.
    pub visible: bool,
    /// The window is minimized.
    pub minimized: bool,
    /// The window has been given the input focus and has not been hidden
    /// since.
    pub focused: bool,
}

/// One request the shell can make of a window.
#[derive(Clone, Copy, Debug, PartialEq, Eq, Structural)]
pub enum WindowOp {
    /// Take the window off the screen; with that it gives up the focus.
    Hide,
    /// Put the window on the screen.
    Show,
    /// Restore the window from the minimized state.
    Unminimize,
    /// Give the window the input focus.
    Focus,
}

impl WindowOp {
    /// The state of a window once the host has carried out the request.
    pub open spec fn effect(self, s: WindowState) -> WindowState {
        match self {
            WindowOp::Hide => WindowState { visible: false, focused: false, ..s },
            WindowOp::Show => WindowState { visible: true, ..s },
            WindowOp::Unminimize => WindowState { minimized: false, ..s },
            WindowOp::Focus => WindowState { focused: true, ..s },
        }
    }

    /// Carries the request out on a window state.
    pub fn apply(self, s: WindowState) -> (after: WindowState)
        ensures
            after == self.effect(s),
    {
        match self {
            WindowOp::Hide => WindowState { visible: false, focused: false, ..s },
            WindowOp::Show => WindowState { visible: true, ..s },
            WindowOp::Unminimize => WindowState { minimized: false, ..s },
            WindowOp::Focus => WindowState { focused: true, ..s },
        }
    }
}

/// The state of a window once the requests have been carried out in order.
pub open spec fn after_ops(s: WindowState, ops: Seq<WindowOp>) -> WindowState
    decreases ops.len(),
{
    if ops.len() == 0 {
        s
    } else {
        ops.last().effect(after_ops(s, ops.drop_last()))
    }
}

/// Carries the requests out on a window state, first to last.
pub fn apply_all(s: WindowState, ops: &Vec<WindowOp>) -> (after: WindowState)
    ensures
        after == after_ops(s, ops@),
{
    let mut current = s;
    let mut i: usize = 0;
    while i < ops.len()
        invariant
            i <= ops.len(),
            current == after_ops(s, ops@.take(i as int)),
        decreases ops.len() - i,
    {
        assert(ops@.take(i + 1).drop_last() == ops@.take(i as int));
        current = ops[i].apply(current);
        i += 1;
    }
    assert(ops@.take(ops.len() as int) == ops@);
    current
}

/// What the host answered when asked about a window.
#[derive(Clone, Copy, Debug, PartialEq, Eq, Structural)]
pub enum Probe {
    /// No window carries the label.
    Missing,
    /// The window exists and is hidden.
    Hidden,
    /// The window exists and is visible.
    Visible,
    /// The window exists, but the host could not say whether it is visible.
    Unknown,
}

} // verus!
