use vstd::prelude::*;

verus! {

/// The modifier keys of a key combination.
#[derive(Clone, Copy, Debug, PartialEq, Eq, Structural)]
pub struct Modifiers {
    pub ctrl: bool,
    pub alt: bool,
    pub shift: bool,
    pub meta: bool,
}

/// The keys the shell binds.
#[derive(Clone, Copy, Debug, PartialEq, Eq, Structural)]
pub enum Key {
    A,
}

/// A key combination that works whichever application has the focus.
#[derive(Clone, Copy, Debug, PartialEq, Eq, Structural)]
pub struct Hotkey {
    pub modifiers: Modifiers,
    pub key: Key,
}

/// Ctrl+Alt+A.
pub open spec fn launcher_combination() -> Hotkey {
    Hotkey {
        modifiers: Modifiers { ctrl: true, alt: true, shift: false, meta: false },
        key: Key::A,
    }
}

/// The one combination the shell binds: it toggles the launcher.
pub fn launcher_hotkey() -> (hotkey: Hotkey)
    ensures
        hotkey == launcher_combination(),
{
    Hotkey {
        modifiers: Modifiers { ctrl: true, alt: true, shift: false, meta: false },
        key: Key::A,
    }
}

} // verus!
