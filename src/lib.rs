//! Lifecycle control for a desktop shell: one window, a tray icon, a
//! single running instance, and a two-phase shutdown.
//!
//! The decisions are pure state-machine steps; the host performs the
//! returned actions against the real window, tray and timer.

pub mod lifecycle;
pub mod tray;
pub mod instance;
