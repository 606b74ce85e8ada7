//! A small floating window manager core.
//!
//! The crate holds the decisions of the manager: which windows it tracks,
//! where a new window is placed, how a pointer drag moves or resizes a
//! window, and which commands answer each notification of the display
//! server. It performs no input or output itself: a driver hands it events
//! and replies as plain values and sends the commands it returns.

pub mod protocol;
pub mod geometry;
pub mod placement;
pub mod manager;
