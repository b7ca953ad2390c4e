//! The capture callback handler: for each raw frame delivered by the
//! platform stream it runs the transform pipeline and pushes the result
//! into the frame channel.

use vstd::prelude::*;
use crate::CaptureError;
use crate::channel::FrameSender;
use crate::frame::{buffer_matches, crop_fits, transform_frame, NormalizedFrame};
use crate::geometry::Rect;

verus! {

/// What became of one delivered frame.
#[derive(Clone, Copy, Debug, PartialEq, Eq, Structural)]
pub enum FrameStatus {
    /// The frame was transformed and handed to the channel.
    Delivered,
    /// The frame's pixel data could not be extracted; the frame was
    /// dropped and the session goes on.
    Skipped,
}

/// Whether the transform pipeline accepts a raw frame of the given
/// geometry with the given crop: the buffer has exactly four bytes per
/// pixel and the crop rectangle, if any, lies inside the frame.
pub open spec fn frame_transformable(
    fw: int,
    fh: int,
    data: Seq<u8>,
    crop: Option<Rect>,
) -> bool {
    &&& buffer_matches(data, fw, fh)
    &&& match crop {
        Some(c) => crop_fits(c, fw, fh),
        None => true,
    }
}

/// Relies on std::time::SystemTime::now: the remaining calls only convert
/// the value to nanoseconds since the Unix epoch (zero if the clock reads
/// before the epoch). The reading depends on the machine and the moment —
/// a wall clock may even step backwards — so nothing is promised of it.
/// The handler below clamps each stamp against the previous one, so the
/// stamps it hands out never decrease regardless of what this returns.
#[verifier::external_body]
fn now_nanos() -> (r: u64) {
    match std::time::SystemTime::now().duration_since(std::time::UNIX_EPOCH) {
        Ok(elapsed) => elapsed.as_nanos() as u64,
        Err(_) => 0,
    }
}

/// The per-stream capture handler: owns the producer end of the frame
/// channel, the crop rectangle resolved at session start, and the stamp
/// of the last transformed frame, against which every new stamp is
/// clamped so that capture timestamps are monotonic (non-decreasing) even
/// if the underlying clock steps back.
#[derive(Clone)]
pub struct Capturer {
    pub tx: FrameSender,
    pub crop: Option<Rect>,
    pub last_stamp: u64,
}

impl Capturer {
    /// A handler that sends full uncropped frames over the given sender.
    pub fn new(tx: FrameSender) -> (r: Self)
        ensures
            r.tx == tx,
            r.crop is None,
            r.last_stamp == 0,
    {
        Capturer { tx, crop: None, last_stamp: 0 }
    }

    /// The same handler with the given crop rectangle.
    pub fn with_crop(self, crop: Option<Rect>) -> (r: Self)
        ensures
            r.crop == crop,
            r.tx == self.tx,
            r.last_stamp == self.last_stamp,
    {
        let mut updated = self;
        updated.crop = crop;
        updated
    }

    /// Handles one raw frame from the platform stream: transforms it
    /// (crop, copy, timestamp) and sends the result into the channel. A
    /// frame whose pixel data cannot be extracted is skipped — reported,
    /// never sent — and the session keeps running; a closed channel is
    /// fatal and reported as `CaptureError::ChannelClosed`.
    ///
    /// Every frame this call delivers carries `final(self).last_stamp` as
    /// its capture timestamp: the clock reading taken at transform time,
    /// clamped to the previous stamp. `last_stamp` never decreases, so of
    /// two frames delivered in sequence the later one never carries the
    /// smaller stamp.
    pub fn on_frame_arrived(&mut self, frame_width: u32, frame_height: u32, data: &Vec<u8>) -> (r:
        Result<FrameStatus, CaptureError>)
        ensures
            r == Ok::<FrameStatus, CaptureError>(FrameStatus::Skipped) <==> !frame_transformable(
                frame_width as int,
                frame_height as int,
                data@,
                old(self).crop,
            ),
            r matches Err(e) ==> e == CaptureError::ChannelClosed,
            final(self).tx == old(self).tx,
            final(self).crop == old(self).crop,
            final(self).last_stamp >= old(self).last_stamp,
    {
        let now = now_nanos();
        let display_time: u64 = if now > self.last_stamp {
            now
        } else {
            self.last_stamp
        };
        self.last_stamp = display_time;
        match transform_frame(frame_width, frame_height, data, self.crop, display_time) {
            Ok(frame) => match self.tx.send(frame) {
                Ok(()) => Ok(FrameStatus::Delivered),
                Err(e) => Err(e),
            },
            Err(_) => Ok(FrameStatus::Skipped),
        }
    }

    /// Handles the platform's stream-closed notification; the handler
    /// itself has nothing to release.
    pub fn on_closed(&self) -> (r: Result<(), CaptureError>)
        ensures
            r is Ok,
    {
        Ok(())
    }
}

} // verus!
