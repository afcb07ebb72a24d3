//! Events that the display tree delivers to the camera feed controller.

use vstd::prelude::*;

verus! {

/// A control command addressed to the camera feed. Commands are broadcast
/// through the display tree; the controller is the only node that acts on
/// them, every other node passes them through to its children unchanged.
#[derive(Clone, Copy, Debug, PartialEq, Eq)]
pub enum CameraControlEvent {
    /// Restart the capture session in processed mode.
    StartProcessed,
    /// Restart the capture session in unprocessed (raw) mode.
    StartUnprocessed,
    /// Release the capture session, if one is open.
    Stop,
}

impl CameraControlEvent {
    /// Whether this command asks for a (re)start of the capture session.
    pub open spec fn is_start(self) -> bool {
        self !is Stop
    }

    /// For a start command, the requested mode: true means unprocessed.
    pub open spec fn unprocessed_flag(self) -> bool {
        self is StartUnprocessed
    }
}

/// One input to the controller, as the display tree's dispatcher hands it
/// over: the closed set of event kinds the controller can observe.
#[derive(Clone, Copy, Debug, PartialEq, Eq)]
pub enum FeedEvent {
    /// The periodic per-render-frame tick that drives frame refresh.
    Tick,
    /// A control command addressed to the feed.
    Control(CameraControlEvent),
    /// Any other event: the controller ignores it and leaves its state alone.
    Other,
}

} // verus!
