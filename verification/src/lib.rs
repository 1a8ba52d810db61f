//! Core state machine of a terminal front-end for a service manager:
//! the unit registry with its filtered view, the UI mode state machine,
//! the single-slot task supervisor, and the action dispatcher.

pub mod action;
pub mod commands;
pub mod dbus;
pub mod event;
pub mod home;
pub mod laws;
pub mod layout;
pub mod sorting;
pub mod strings;
pub mod supervisor;
pub mod units;

pub use units::UnitId;
pub use units::UnitScope;
pub use units::UnitWithStatus;
