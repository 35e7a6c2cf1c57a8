//! Vigil: the decision logic of a terminal system monitor, verified with Verus.
//!
//! The crate holds what the monitor decides: which view is shown and how the
//! keyboard moves between views and settings, how the integer settings step,
//! the bounded metric histories, the alert log with its per-type cooldown,
//! and the static advice tables. Reading the machine, the terminal and the
//! configuration file, and all floating-point arithmetic, live outside it.
#![allow(unused_imports)]

pub mod controls;
pub mod settings;
pub mod history;
pub mod alert;
pub mod suggestions;
pub mod metrics;
pub mod display;
pub mod input;
