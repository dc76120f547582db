use vstd::prelude::*;
use crate::event::{Event, KeyState, MouseButton};
use crate::menu::MenuAction;
use crate::window::{Probe, WindowName, WindowOp};

verus! {

/// What the shell does about an event.
#[derive(Clone, Copy, Debug, PartialEq, Eq, Structural)]
pub enum Reaction {
    /// Nothing.
    Ignore,
    /// End the process with this exit code.
    Exit { code: i32 },
    /// Hide the named window if it is visible, reveal it otherwise.
    Toggle { window: WindowName },
    /// Hide the window that asked to close, and keep it from closing.
    HideOnClose,
}

/// What to do when the host fails to carry out a request.
#[derive(Clone, Copy, Debug, PartialEq, Eq, Structural)]
pub enum OnFailure {
    /// Go on as if nothing had happened.
    Ignore,
    /// Give up: the failure is fatal.
    Abort,
}

/// The requests to make of one window in answer to an event.
#[derive(Debug, PartialEq, Eq)]
pub struct Plan {
    /// The requests, in the order in which they are made.
    pub ops: Vec<WindowOp>,
    /// What a failed request means.
    pub on_failure: OnFailure,
    /// Whether the close that the event announced is called off afterwards.
    pub cancel_close: bool,
}

/// A plan as a mathematical value.
pub struct PlanView {
    pub ops: Seq<WindowOp>,
    pub on_failure: OnFailure,
    pub cancel_close: bool,
}

impl View for Plan {
    type V = PlanView;

    open spec fn view(&self) -> PlanView {
        PlanView { ops: self.ops@, on_failure: self.on_failure, cancel_close: self.cancel_close }
    }
}

/// The reaction that belongs to a chosen menu item.
pub open spec fn menu_reaction(action: MenuAction) -> Reaction {
    match action {
        MenuAction::ToggleLauncher => Reaction::Toggle { window: WindowName::Launcher },
        MenuAction::ShowHide => Reaction::Toggle { window: WindowName::Main },
        MenuAction::Quit => Reaction::Exit { code: 0 },
    }
}

/// The reaction that belongs to an event.
///
/// A menu identifier that names no item, a click with another button than
/// the left one and a release of the hotkey are ignored. Every close
/// request is met in the same way, whichever window it comes from.
pub open spec fn reaction(event: Event) -> Reaction {
    match event {
        Event::MenuAction { id } => match MenuAction::parse(id@) {
            Some(action) => menu_reaction(action),
            None => Reaction::Ignore,
        },
        Event::TrayClick { button } => if button == MouseButton::Left {
            Reaction::Toggle { window: WindowName::Main }
        } else {
            Reaction::Ignore
        },
        Event::Shortcut { state } => if state == KeyState::Pressed {
            Reaction::Toggle { window: WindowName::Launcher }
        } else {
            Reaction::Ignore
        },
        Event::CloseRequested { .. } => Reaction::HideOnClose,
    }
}

/// Decides what a chosen menu item calls for.
pub fn route_menu(action: MenuAction) -> (r: Reaction)
    ensures
        r == menu_reaction(action),
{
    match action {
        MenuAction::ToggleLauncher => Reaction::Toggle { window: WindowName::Launcher },
        MenuAction::ShowHide => Reaction::Toggle { window: WindowName::Main },
        MenuAction::Quit => Reaction::Exit { code: 0 },
    }
}

/// The single dispatcher: decides what an event calls for.
pub fn route(event: &Event) -> (r: Reaction)
    ensures
        r == reaction(*event),
{
    match event {
        Event::MenuAction { id } => match MenuAction::from_id(id.as_str()) {
            Some(action) => route_menu(action),
            None => Reaction::Ignore,
        },
        Event::TrayClick { button } => match button {
            MouseButton::Left => Reaction::Toggle { window: WindowName::Main },
            _ => Reaction::Ignore,
        },
        Event::Shortcut { state } => match state {
            KeyState::Pressed => Reaction::Toggle { window: WindowName::Launcher },
            KeyState::Released => Reaction::Ignore,
        },
        Event::CloseRequested { .. } => Reaction::HideOnClose,
    }
}

/// The requests that bring a hidden window back: it is shown and given the
/// input focus, and the launcher is restored from the minimized state in
/// between.
pub open spec fn reveal_ops(window: WindowName) -> Seq<WindowOp> {
    match window {
        WindowName::Main => seq![WindowOp::Show, WindowOp::Focus],
        WindowName::Launcher => seq![WindowOp::Show, WindowOp::Unminimize, WindowOp::Focus],
    }
}

/// The requests that toggle a window, given what the host said about it. A
/// window of unknown visibility is taken to be hidden.
pub open spec fn toggle_ops(window: WindowName, probe: Probe) -> Seq<WindowOp> {
    match probe {
        Probe::Missing => seq![],
        Probe::Visible => seq![WindowOp::Hide],
        Probe::Hidden | Probe::Unknown => reveal_ops(window),
    }
}

/// The plan that toggles a window: no failure matters, and no close is
/// called off.
pub open spec fn toggle_plan_view(window: WindowName, probe: Probe) -> PlanView {
    PlanView { ops: toggle_ops(window, probe), on_failure: OnFailure::Ignore, cancel_close: false }
}

/// The plan that answers a close request: one request, to hide, whose
/// failure is fatal, and the close is called off.
pub open spec fn close_plan_view() -> PlanView {
    PlanView { ops: seq![WindowOp::Hide], on_failure: OnFailure::Abort, cancel_close: true }
}

/// Plans a toggle of `window`. Nothing is asked of a missing window, and
/// no request is so important that its failure would matter.
pub fn toggle_plan(window: WindowName, probe: Probe) -> (plan: Plan)
    ensures
        plan@ == toggle_plan_view(window, probe),
{
    let mut ops: Vec<WindowOp> = Vec::new();
    match probe {
        Probe::Missing => {},
        Probe::Visible => {
            ops.push(WindowOp::Hide);
        },
        Probe::Hidden | Probe::Unknown => {
            ops.push(WindowOp::Show);
            match window {
                WindowName::Main => {},
                WindowName::Launcher => {
                    ops.push(WindowOp::Unminimize);
                },
            }
            ops.push(WindowOp::Focus);
        },
    }
    assert(ops@ =~= toggle_ops(window, probe));
    Plan { ops, on_failure: OnFailure::Ignore, cancel_close: false }
}

/// Plans the answer to a close request: the window is hidden, once, and the
/// close is called off, once. A window that cannot be hidden is fatal.
pub fn close_plan() -> (plan: Plan)
    ensures
        plan@ == close_plan_view(),
{
    let mut ops: Vec<WindowOp> = Vec::new();
    ops.push(WindowOp::Hide);
    Plan { ops, on_failure: OnFailure::Abort, cancel_close: true }
}

} // verus!
