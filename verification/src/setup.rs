use vstd::prelude::*;

verus! {

/// The stages of startup, in the order in which they are attempted.
#[derive(Clone, Copy, Debug, PartialEq, Eq, Structural)]
pub enum Stage {
    /// The tray menu with its three items and the tray icon are built.
    Tray,
    /// The global hotkey is bound.
    Hotkey,
}

/// What follows a stage.
#[derive(Clone, Copy, Debug, PartialEq, Eq, Structural)]
pub enum Progress {
    /// Startup goes on with this stage.
    Next { stage: Stage },
    /// Startup is over and the event loop can run. The hotkey is live only
    /// where `hotkey_bound` says so; `log_failure` asks for a line in the
    /// log about the stage that failed.
    Ready { hotkey_bound: bool, log_failure: bool },
    /// Startup is given up because this stage failed.
    Abort { failed: Stage },
}

/// What follows `stage`, given whether it succeeded.
///
/// A failure to build the tray ends startup. A failure to bind the hotkey
/// does not: it is logged, and the shell runs without its hotkey.
pub open spec fn progress(stage: Stage, succeeded: bool) -> Progress {
    match stage {
        Stage::Tray => if succeeded {
            Progress::Next { stage: Stage::Hotkey }
        } else {
            Progress::Abort { failed: Stage::Tray }
        },
        Stage::Hotkey => Progress::Ready { hotkey_bound: succeeded, log_failure: !succeeded },
    }
}

/// The stage with which startup begins.
pub fn first_stage() -> (stage: Stage)
    ensures
        stage == Stage::Tray,
{
    Stage::Tray
}

/// Decides how startup goes on after `stage`.
pub fn advance(stage: Stage, succeeded: bool) -> (next: Progress)
    ensures
        next == progress(stage, succeeded),
{
    match stage {
        Stage::Tray => if succeeded {
            Progress::Next { stage: Stage::Hotkey }
        } else {
            Progress::Abort { failed: Stage::Tray }
        },
        Stage::Hotkey => Progress::Ready { hotkey_bound: succeeded, log_failure: !succeeded },
    }
}

} // verus!
