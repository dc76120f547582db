use vstd::prelude::*;
use crate::dispatch::{close_plan_view, reaction, reveal_ops, Reaction};
use crate::event::{Event, KeyState, MouseButton};
use crate::menu::{lemma_ids_round_trip, MenuAction};
use crate::session::{delivered, run, step, SessionState, Status};
use crate::setup::{progress, Progress, Stage};
use crate::window::{after_ops, lemma_labels_differ, WindowName, WindowOp, WindowState};

verus! {

/// The event asks for the main window to be toggled: it is the menu item
/// "show_hide" or a left click on the tray icon.
pub open spec fn toggles_main(event: Event) -> bool {
    ||| event matches Event::MenuAction { id } && id@ == MenuAction::ShowHide.id_text()
    ||| event matches Event::TrayClick { button } && button == MouseButton::Left
}

/// The event asks for the launcher to be toggled: it is the menu item
/// "toggle_launcher" or a press of the hotkey.
pub open spec fn toggles_launcher(event: Event) -> bool {
    ||| event matches Event::MenuAction { id } && id@ == MenuAction::ToggleLauncher.id_text()
    ||| event matches Event::Shortcut { state } && state == KeyState::Pressed
}

/// The event is the menu item "quit".
pub open spec fn quits(event: Event) -> bool {
    event matches Event::MenuAction { id } && id@ == MenuAction::Quit.id_text()
}

/// Two sessions hold the same windows and have come equally far.
pub open spec fn same_but_for_hotkey(a: SessionState, b: SessionState) -> bool {
    a.windows == b.windows && a.status == b.status
}

/// What the plans of the shell do to a window: hiding clears visibility and
/// focus; revealing sets both, and restores the launcher besides.
proof fn lemma_plan_effects(w: WindowState)
    ensures
        after_ops(w, seq![WindowOp::Hide]) == (WindowState {
            visible: false,
            focused: false,
            ..w
        }),
        after_ops(w, reveal_ops(WindowName::Main)) == (WindowState {
            visible: true,
            focused: true,
            ..w
        }),
        after_ops(w, reveal_ops(WindowName::Launcher)) == (WindowState {
            visible: true,
            minimized: false,
            focused: true,
        }),
{
    reveal_with_fuel(after_ops, 4);
}

/// An event that toggles the main window is routed to the main window, one
/// that toggles the launcher to the launcher, and "quit" to an exit with
/// code 0.
pub proof fn law_routing(event: Event)
    ensures
        toggles_main(event) ==> reaction(event) == (Reaction::Toggle { window: WindowName::Main }),
        toggles_launcher(event) ==> reaction(event) == (Reaction::Toggle {
            window: WindowName::Launcher,
        }),
        quits(event) ==> reaction(event) == (Reaction::Exit { code: 0 }),
{
    lemma_ids_round_trip(MenuAction::ShowHide);
    lemma_ids_round_trip(MenuAction::ToggleLauncher);
    lemma_ids_round_trip(MenuAction::Quit);
}

/// Every event that toggles the main window flips its visibility, as long
/// as the window is there: the window is visible afterwards exactly if it
/// was not before. Once revealed it has the focus. No other window changes,
/// the launcher in particular, none appears or disappears, and the process
/// keeps running.
pub proof fn law_main_toggle_flips_visibility(s: SessionState, event: Event)
    requires
        s.status == Status::Running,
        toggles_main(event),
        s.has(WindowName::Main),
    ensures
        step(s, event).window(WindowName::Main).visible == !s.window(WindowName::Main).visible,
        step(s, event).window(WindowName::Main).visible ==> step(s, event).window(
            WindowName::Main,
        ).focused,
        step(s, event).windows.dom() == s.windows.dom(),
        step(s, event).others(WindowName::Main.label_text()) == s.others(
            WindowName::Main.label_text(),
        ),
        s.has(WindowName::Launcher) ==> step(s, event).window(WindowName::Launcher) == s.window(
            WindowName::Launcher,
        ),
        step(s, event).status == Status::Running,
{
    law_routing(event);
    lemma_labels_differ();
    lemma_plan_effects(s.window(WindowName::Main));
}

/// Over any sequence of events that toggle the main window, the window's
/// visibility after each event is the negation of its visibility before
/// that event.
pub proof fn law_main_toggles_alternate(s: SessionState, events: Seq<Event>)
    requires
        s.status == Status::Running,
        s.has(WindowName::Main),
        forall|i: int| 0 <= i < events.len() ==> toggles_main(#[trigger] events[i]),
    ensures
        forall|i: int|
            0 <= i < events.len() ==> (#[trigger] run(s, events.take(i + 1))).window(
                WindowName::Main,
            ).visible == !run(s, events.take(i)).window(WindowName::Main).visible,
        run(s, events).windows.dom() == s.windows.dom(),
        run(s, events).status == Status::Running,
    decreases events.len(),
{
    if events.len() > 0 {
        let before = events.drop_last();
        law_main_toggles_alternate(s, before);
        law_main_toggle_flips_visibility(run(s, before), events.last());
        assert forall|i: int| 0 <= i < events.len() implies (#[trigger] run(
            s,
            events.take(i + 1),
        )).window(WindowName::Main).visible == !run(s, events.take(i)).window(
            WindowName::Main,
        ).visible by {
            if i < events.len() - 1 {
                assert(events.take(i + 1) == before.take(i + 1));
                assert(events.take(i) == before.take(i));
            } else {
                assert(events.take(i + 1) == events);
                assert(events.take(i) == before);
            }
        }
    }
}

/// Every delivered event that toggles the launcher while it is hidden
/// reveals it in one go: afterwards the launcher is visible, no longer
/// minimized, and has the focus. The same event on a visible launcher
/// hides it. No other window changes, the main window in particular.
pub proof fn law_launcher_toggle(s: SessionState, event: Event)
    requires
        delivered(s, event),
        toggles_launcher(event),
        s.has(WindowName::Launcher),
    ensures
        !s.window(WindowName::Launcher).visible ==> {
            let launcher = step(s, event).window(WindowName::Launcher);
            launcher.visible && !launcher.minimized && launcher.focused
        },
        s.window(WindowName::Launcher).visible ==> !step(s, event).window(
            WindowName::Launcher,
        ).visible,
        step(s, event).windows.dom() == s.windows.dom(),
        step(s, event).others(WindowName::Launcher.label_text()) == s.others(
            WindowName::Launcher.label_text(),
        ),
        s.has(WindowName::Main) ==> step(s, event).window(WindowName::Main) == s.window(
            WindowName::Main,
        ),
        step(s, event).status == Status::Running,
{
    law_routing(event);
    lemma_labels_differ();
    lemma_plan_effects(s.window(WindowName::Launcher));
}

/// A toggle of a window that the host does not hold is passed over: the
/// session is left exactly as it was.
pub proof fn law_missing_window_is_skipped(s: SessionState, event: Event, window: WindowName)
    requires
        reaction(event) == (Reaction::Toggle { window }),
        !s.has(window),
    ensures
        step(s, event) == s,
{
}

/// "quit" ends a running process with exit code 0 and touches no window.
/// After that nothing changes any more, whatever arrives: a second "quit"
/// leaves the exit code at 0.
pub proof fn law_quit_is_final(s: SessionState, quit: Event, later: Event)
    requires
        s.status == Status::Running,
        quits(quit),
    ensures
        step(s, quit).status == (Status::Exited { code: 0 }),
        step(s, quit).windows == s.windows,
        step(step(s, quit), later) == step(s, quit),
{
    law_routing(quit);
}

/// A close request never destroys a window. The plan that answers it holds
/// exactly one request, to hide, and calls the close off; carried out on a
/// window that is there, it leaves every label resolvable, the closing
/// window hidden, all other windows as they were, and the process running.
pub proof fn law_close_hides_and_keeps(s: SessionState, event: Event)
    requires
        s.status == Status::Running,
        event is CloseRequested,
        s.windows.contains_key(event->window@),
    ensures
        reaction(event) == Reaction::HideOnClose,
        close_plan_view().ops == seq![WindowOp::Hide],
        close_plan_view().cancel_close,
        step(s, event).windows.dom() == s.windows.dom(),
        step(s, event).windows[event->window@] == WindowOp::Hide.effect(
            s.windows[event->window@],
        ),
        !step(s, event).windows[event->window@].visible,
        step(s, event).others(event->window@) == s.others(event->window@),
        step(s, event).status == Status::Running,
{
    lemma_plan_effects(s.windows[event->window@]);
}

/// A close request from a window that the host no longer holds is fatal:
/// the window cannot be hidden, and the process dies without touching any
/// other window.
pub proof fn law_close_of_missing_window_is_fatal(s: SessionState, event: Event)
    requires
        s.status == Status::Running,
        event is CloseRequested,
        !s.windows.contains_key(event->window@),
    ensures
        step(s, event).status == Status::Crashed,
        step(s, event).windows == s.windows,
{
}

/// A hotkey that could not be bound costs nothing but the hotkey. Startup
/// still reaches the event loop, and every event that does not come from
/// the hotkey is handled as it would be with the hotkey bound: two sessions
/// that differ in nothing but the hotkey still do so afterwards.
pub proof fn law_hotkey_failure_is_contained(
    bound: SessionState,
    unbound: SessionState,
    event: Event,
)
    requires
        same_but_for_hotkey(bound, unbound),
        !(event is Shortcut),
    ensures
        progress(Stage::Hotkey, false) == (Progress::Ready {
            hotkey_bound: false,
            log_failure: true,
        }),
        same_but_for_hotkey(step(bound, event), step(unbound, event)),
{
}

} // verus!
