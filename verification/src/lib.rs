//! Decision core of a desktop shell that manages a main window, a modal
//! "blocked" overlay window, and a tray menu.
//!
//! The shell's behaviour is split in two: every decision (what to do to which
//! window, and how the shared blocked flag evolves) lives here and is
//! verified; the surrounding binary performs the window-system calls that the
//! plans and responses ask for.

pub mod controller;
pub mod events;
pub mod laws;
pub mod model;
