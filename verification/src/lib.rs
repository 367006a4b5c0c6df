//! Rotation of operating-system focus between a configured set of application
//! windows: the timing policy, the selection rule, the focus retry protocol and
//! the shared rotation state, written without I/O so that every decision is a
//! function of plain values.

pub mod api;
pub mod config;
pub mod focus;
pub mod random;
pub mod session;
pub mod state;
pub mod swapper;
pub mod text;
pub mod time;
pub mod windows;
