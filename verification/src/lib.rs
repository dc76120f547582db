//! Decision core of a tray-resident desktop shell.
//!
//! The shell owns a tray icon with a three-item menu, one global hotkey and a
//! rule for close requests: windows are hidden, never destroyed. Everything
//! the shell decides is a function from an event, and from what the host
//! says about a window, to the operations the host is asked to carry out.
//! An in-memory session stands in for the host, so that whole exchanges can
//! be reasoned about and exercised without a windowing system.

pub mod event;
pub mod window;
pub mod menu;
pub mod hotkey;
pub mod dispatch;
pub mod setup;
pub mod registry;
pub mod session;
pub mod laws;
pub mod greet;
pub mod text;
