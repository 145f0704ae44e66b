//! Startup and single-instance policy of the BetSure Dialer desktop shell.
//!
//! The shell itself is a thin host around a GUI framework. Everything the host
//! has to decide is decided here, as total functions over plain values:
//! which capability plugins are attached and in which order, whether a logging
//! sink is attached and what it lets through, how the process moves from
//! launch to exit, and what a running instance does when a second copy of the
//! program is started.

pub mod capability;
pub mod guard;
pub mod lifecycle;
pub mod logging;
pub mod platform;
pub mod trace;
