//! A minimal desktop-application shell, as a verified core.
//!
//! The library holds everything the shell decides or computes: the greeting
//! command, the static menu-bar plan for platforms with a native top-level
//! menu bar, the strategy choice per platform, the menu-event dispatcher,
//! and the startup state machine. A thin unverified host around it performs
//! the native window and menu work and feeds the results back in.

pub mod dispatch;
pub mod greet;
pub mod laws;
pub mod menu;
pub mod shell;
pub mod text;
