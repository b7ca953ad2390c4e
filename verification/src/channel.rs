//! The frame channel: a first-in-first-out conduit carrying normalized
//! frames from the capture callback to application code, backed by a
//! standard-library mpsc channel behind trusted wrappers.

use vstd::prelude::*;
use crate::CaptureError;
use crate::frame::NormalizedFrame;

verus! {

/// Declares std::sync::mpsc::Sender to Verus; its values are opaque here
/// and only move through the wrappers below.
#[verifier::external_type_specification]
#[verifier::external_body]
#[verifier::reject_recursive_types(T)]
pub struct ExSender<T>(std::sync::mpsc::Sender<T>);

/// Declares std::sync::mpsc::Receiver to Verus; its values are opaque here
/// and only move through the wrappers below.
#[verifier::external_type_specification]
#[verifier::external_body]
#[verifier::reject_recursive_types(T)]
pub struct ExReceiver<T>(std::sync::mpsc::Receiver<T>);

/// What one non-blocking poll of the channel found.
#[derive(Debug, PartialEq, Eq)]
pub enum PollOutcome {
    /// The oldest queued frame.
    Frame(NormalizedFrame),
    /// Nothing queued right now; the producer may still send more.
    Empty,
    /// Nothing queued and the producer is gone: end of stream.
    Closed,
}

/// Relies on std::sync::mpsc::Sender::clone: the clone is a producer end
/// of the same channel. Nothing is stated of it: delivery still depends
/// on the receiver being alive at send time.
pub assume_specification<T>[ <std::sync::mpsc::Sender<T> as Clone>::clone ](
    tx: &std::sync::mpsc::Sender<T>,
) -> std::sync::mpsc::Sender<T>;

/// Relies on std::sync::mpsc::channel: creates a connected
/// sender/receiver pair with an unbounded first-in-first-out queue.
#[verifier::external_body]
fn mpsc_channel() -> (r: (std::sync::mpsc::Sender<NormalizedFrame>, std::sync::mpsc::Receiver<
    NormalizedFrame,
>)) {
    std::sync::mpsc::channel()
}

/// Relies on std::sync::mpsc::Sender::send: enqueues the value and returns
/// Ok, or returns Err exactly when the receiving end has been dropped.
/// Whether the consumer is still there depends on the run, so nothing more
/// can be promised of the outcome.
#[verifier::external_body]
fn mpsc_send(tx: &std::sync::mpsc::Sender<NormalizedFrame>, frame: NormalizedFrame) -> (r: bool) {
    tx.send(frame).is_ok()
}

/// Relies on std::sync::mpsc::Receiver::try_recv: returns the oldest
/// queued value without blocking, and otherwise tells an empty queue apart
/// from a disconnected sender. Each arm only moves the value.
#[verifier::external_body]
fn mpsc_try_recv(rx: &std::sync::mpsc::Receiver<NormalizedFrame>) -> (r: PollOutcome) {
    match rx.try_recv() {
        Ok(frame) => PollOutcome::Frame(frame),
        Err(std::sync::mpsc::TryRecvError::Empty) => PollOutcome::Empty,
        Err(std::sync::mpsc::TryRecvError::Disconnected) => PollOutcome::Closed,
    }
}

/// Relies on std::sync::mpsc::Receiver::recv: blocks until a value is
/// queued, and returns None once the sender is gone and the queue is
/// drained (end of stream). Values arrive in the order they were sent.
#[verifier::external_body]
fn mpsc_recv(rx: &std::sync::mpsc::Receiver<NormalizedFrame>) -> (r: Option<NormalizedFrame>) {
    rx.recv().ok()
}

/// The producer end of the frame channel, owned by the capture callback
/// context.
#[derive(Clone)]
pub struct FrameSender {
    pub tx: std::sync::mpsc::Sender<NormalizedFrame>,
}

/// The consumer end of the frame channel, owned by application code,
/// independent of the session's lifetime: frames already queued remain
/// readable after the session stops.
pub struct FrameReceiver {
    pub rx: std::sync::mpsc::Receiver<NormalizedFrame>,
}

/// Creates a connected frame channel: frames sent on the first end come
/// out of the second, in arrival order, with no silent drops.
pub fn frame_channel() -> (FrameSender, FrameReceiver) {
    let (tx, rx) = mpsc_channel();
    (FrameSender { tx }, FrameReceiver { rx })
}

impl FrameSender {
    /// Enqueues a frame for the consumer. Fails with
    /// `CaptureError::ChannelClosed` exactly when the consumer has dropped
    /// the receiving end, which the producer treats as fatal for the
    /// session.
    pub fn send(&self, frame: NormalizedFrame) -> (r: Result<(), CaptureError>)
        ensures
            r matches Err(e) ==> e == CaptureError::ChannelClosed,
    {
        if mpsc_send(&self.tx, frame) {
            Ok(())
        } else {
            Err(CaptureError::ChannelClosed)
        }
    }
}

impl FrameReceiver {
    /// Polls the channel without blocking.
    pub fn try_next(&self) -> PollOutcome {
        mpsc_try_recv(&self.rx)
    }

    /// Waits for the next frame; returns None at end of stream (producer
    /// gone and queue drained).
    pub fn next_frame(&self) -> Option<NormalizedFrame> {
        mpsc_recv(&self.rx)
    }
}

} // verus!
