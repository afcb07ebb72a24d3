//! A verified camera feed controller.
//!
//! The controller owns at most one live capture handle, reacts to externally
//! delivered control commands (start processed, start unprocessed, stop) and
//! to a per-render-frame tick that refreshes the displayed image with the
//! newest available frame. Opening a capture session and polling it for a
//! frame are platform operations; the controller receives them as closures
//! and is verified for every outcome those closures can produce.

pub mod controller;
pub mod events;
pub mod laws;
