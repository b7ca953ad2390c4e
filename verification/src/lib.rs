//! Screen-capture session core: geometry resolution for capture regions,
//! a per-frame crop/normalize pipeline, a frame channel, and the session
//! state machine that drives a platform capture stream.

use vstd::prelude::*;

pub mod capturer;
pub mod channel;
pub mod frame;
pub mod geometry;
pub mod session;

verus! {

/// The failure kinds of the capture core. Every fallible operation reports
/// one of these; none of them aborts the process.
#[derive(Clone, Copy, Debug, PartialEq, Eq, Structural)]
pub enum CaptureError {
    /// The resolved capture region has zero width or height.
    InvalidRegion,
    /// The platform collaborator refused to start the stream.
    PlatformStart,
    /// A single frame's pixel data could not be obtained.
    BufferExtraction,
    /// The consumer end of the frame channel is gone.
    ChannelClosed,
    /// The operation is not valid in the session's current state.
    InvalidState,
}

} // verus!
