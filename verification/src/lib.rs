//! Application lifecycle and tray-menu coordinator.
//!
//! A background-resident desktop shell keeps exactly one process instance
//! alive, shows a system-tray icon with a dynamically rebuilt menu, hides its
//! main window instead of closing it, and shuts down through a bounded
//! export-then-exit sequence.  This crate holds the decision logic of that
//! coordinator — menu construction, event routing, window-visibility
//! transitions, the quit state machine, and single-instance resolution — as
//! verified code over plain values.  The host process performs the OS-level
//! effects (tray, windows, notifications, timers, process exit) that these
//! decisions call for.

pub mod commands;
pub mod instance;
pub mod menu;
pub mod quit;
pub mod router;
pub mod text;
pub mod tray;
pub mod window;
