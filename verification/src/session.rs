use vstd::prelude::*;
use crate::dispatch::{
    close_plan, close_plan_view, reaction, route, toggle_plan, toggle_plan_view, OnFailure, Plan,
    PlanView, Reaction,
};
use crate::event::Event;
use crate::registry::{probe_of, WindowRegistry};
use crate::window::{after_ops, WindowName, WindowState};

verus! {

/// How far the process has come.
#[derive(Clone, Copy, Debug, PartialEq, Eq, Structural)]
pub enum Status {
    /// The event loop is running.
    Running,
    /// The process has ended with this exit code.
    Exited { code: i32 },
    /// The process has died of a fatal failure.
    Crashed,
}

/// A host and the shell on it, without a windowing system: the windows the
/// host holds, whether the global hotkey was bound at startup, and how far
/// the process has come.
pub struct Session {
    /// The windows the host holds.
    pub windows: WindowRegistry,
    /// Whether the global hotkey was bound at startup.
    pub hotkey_bound: bool,
    /// How far the process has come.
    pub status: Status,
}

/// A session as a mathematical value.
pub struct SessionState {
    pub windows: Map<Seq<char>, WindowState>,
    pub hotkey_bound: bool,
    pub status: Status,
}

impl SessionState {
    /// Whether the host holds the named window.
    pub open spec fn has(self, window: WindowName) -> bool {
        self.windows.contains_key(window.label_text())
    }

    /// The state of the named window.
    pub open spec fn window(self, window: WindowName) -> WindowState
        recommends
            self.has(window),
    {
        self.windows[window.label_text()]
    }

    /// All windows but the one under `label`.
    pub open spec fn others(self, label: Seq<char>) -> Map<Seq<char>, WindowState> {
        self.windows.remove(label)
    }
}

impl View for Session {
    type V = SessionState;

    open spec fn view(&self) -> SessionState {
        SessionState {
            windows: self.windows@,
            hotkey_bound: self.hotkey_bound,
            status: self.status,
        }
    }
}

/// The session after the host has carried a plan out on the window under
/// `label`. On a window that is there every request succeeds. Without the
/// window every request fails, which ends the process where the plan calls
/// a failure fatal and changes nothing otherwise.
pub open spec fn carry_out(s: SessionState, label: Seq<char>, plan: PlanView) -> SessionState {
    if s.windows.contains_key(label) {
        SessionState {
            windows: s.windows.insert(label, after_ops(s.windows[label], plan.ops)),
            ..s
        }
    } else if plan.ops.len() > 0 && plan.on_failure == OnFailure::Abort {
        SessionState { status: Status::Crashed, ..s }
    } else {
        s
    }
}

/// The session after the host has finished a close request: unless the
/// close was called off, the window is destroyed.
pub open spec fn settle_close(s: SessionState, label: Seq<char>, cancelled: bool) -> SessionState {
    if cancelled {
        s
    } else {
        SessionState { windows: s.windows.remove(label), ..s }
    }
}

/// Whether the host hands the event to the shell at all: a process that
/// has ended handles nothing, and a hotkey that was never bound reports
/// nothing.
pub open spec fn delivered(s: SessionState, event: Event) -> bool {
    s.status == Status::Running && (event is Shortcut ==> s.hotkey_bound)
}

/// The session after one event.
pub open spec fn step(s: SessionState, event: Event) -> SessionState {
    if !delivered(s, event) {
        s
    } else {
        match reaction(event) {
            Reaction::Ignore => s,
            Reaction::Exit { code } => SessionState { status: Status::Exited { code }, ..s },
            Reaction::Toggle { window } => {
                let label = window.label_text();
                carry_out(s, label, toggle_plan_view(window, probe_of(s.windows, label)))
            },
            Reaction::HideOnClose => {
                let label = event->window@;
                let plan = close_plan_view();
                let hidden = carry_out(s, label, plan);
                if hidden.status == Status::Running {
                    settle_close(hidden, label, plan.cancel_close)
                } else {
                    hidden
                }
            },
        }
    }
}

/// The session after a sequence of events, first to last.
pub open spec fn run(s: SessionState, events: Seq<Event>) -> SessionState
    decreases events.len(),
{
    if events.len() == 0 {
        s
    } else {
        step(run(s, events.drop_last()), events.last())
    }
}

impl Session {
    /// A running session on the given windows.
    pub fn start(windows: WindowRegistry, hotkey_bound: bool) -> (session: Session)
        ensures
            session@ == (SessionState {
                windows: windows@,
                hotkey_bound,
                status: Status::Running,
            }),
    {
        Session { windows, hotkey_bound, status: Status::Running }
    }

    /// Has the host carry a plan out on the window under `label`.
    fn carry_out(&mut self, label: &str, plan: &Plan)
        ensures
            final(self)@ == carry_out(old(self)@, label@, plan@),
    {
        let found = self.windows.perform(label, &plan.ops);
        if !found && plan.ops.len() > 0 {
            match plan.on_failure {
                OnFailure::Abort => {
                    self.status = Status::Crashed;
                },
                OnFailure::Ignore => {},
            }
        }
    }

    /// Hands one event to the shell and has the host do what the shell
    /// asks for.
    pub fn handle_event(&mut self, event: &Event)
        ensures
            final(self)@ == step(old(self)@, *event),
    {
        match self.status {
            Status::Running => {},
            _ => {
                return ;
            },
        }
        if let Event::Shortcut { .. } = event {
            if !self.hotkey_bound {
                return ;
            }
        }
        match route(event) {
            Reaction::Ignore => {},
            Reaction::Exit { code } => {
                self.status = Status::Exited { code };
            },
            Reaction::Toggle { window } => {
                let probe = self.windows.probe(window.label());
                let plan = toggle_plan(window, probe);
                self.carry_out(window.label(), &plan);
            },
            Reaction::HideOnClose => {
                if let Event::CloseRequested { window } = event {
                    let plan = close_plan();
                    self.carry_out(window.as_str(), &plan);
                    match self.status {
                        Status::Running => {
                            if !plan.cancel_close {
                                self.windows.destroy(window.as_str());
                            }
                        },
                        _ => {},
                    }
                }
            },
        }
    }

    /// Hands the events to the shell one after the other.
    pub fn run(&mut self, events: &Vec<Event>)
        ensures
            final(self)@ == run(old(self)@, events@),
    {
        let mut i: usize = 0;
        while i < events.len()
            invariant
                i <= events.len(),
                self@ == run(old(self)@, events@.take(i as int)),
            decreases events.len() - i,
        {
            assert(events@.take(i + 1).drop_last() == events@.take(i as int));
            self.handle_event(&events[i]);
            i += 1;
        }
        assert(events@.take(events.len() as int) == events@);
    }
}

} // verus!
