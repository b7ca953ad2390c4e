use scap::capturer::{Capturer, FrameStatus};
use scap::channel::{frame_channel, PollOutcome};
use scap::frame::{transform_frame, NormalizedFrame};
use scap::geometry::{Extent, Point, Rect};
use scap::CaptureError;

fn rect(x: u32, y: u32, width: u32, height: u32) -> Rect {
    Rect { origin: Point { x, y }, size: Extent { width, height } }
}

fn bytes(n: usize) -> Vec<u8> {
    let mut data = Vec::new();
    for i in 0..n {
        data.push((i % 251) as u8);
    }
    data
}

#[test]
fn full_buffer_transform_copies_everything() {
    let data = bytes(4 * 2 * 4);
    let frame = transform_frame(4, 2, &data, None, 7).unwrap();
    assert_eq!(frame.width, 4);
    assert_eq!(frame.height, 2);
    assert_eq!(frame.display_time, 7);
    assert_eq!(frame.data, data);
}

#[test]
fn crop_extracts_exactly_the_rectangle() {
    // a 4x2 frame: row 0 is bytes 0..16, row 1 is bytes 16..32
    let data = bytes(4 * 2 * 4);
    let frame = transform_frame(4, 2, &data, Some(rect(1, 0, 2, 2)), 0).unwrap();
    assert_eq!(frame.width, 2);
    assert_eq!(frame.height, 2);
    let mut expected: Vec<u8> = Vec::new();
    expected.extend_from_slice(&data[4..12]);
    expected.extend_from_slice(&data[20..28]);
    assert_eq!(frame.data, expected);
}

#[test]
fn full_frame_crop_is_bit_identical_to_uncropped() {
    let data = bytes(6 * 4 * 4);
    let uncropped = transform_frame(6, 4, &data, None, 99).unwrap();
    let cropped = transform_frame(6, 4, &data, Some(rect(0, 0, 6, 4)), 99).unwrap();
    assert_eq!(cropped, uncropped);
}

#[test]
fn wrong_buffer_size_is_a_buffer_extraction_error() {
    let data = bytes(10);
    assert_eq!(transform_frame(4, 2, &data, None, 0), Err(CaptureError::BufferExtraction));
}

#[test]
fn out_of_bounds_crop_is_a_buffer_extraction_error() {
    let data = bytes(4 * 2 * 4);
    assert_eq!(
        transform_frame(4, 2, &data, Some(rect(3, 0, 2, 2)), 0),
        Err(CaptureError::BufferExtraction)
    );
    assert_eq!(
        transform_frame(4, 2, &data, Some(rect(0, 1, 4, 2)), 0),
        Err(CaptureError::BufferExtraction)
    );
}

#[test]
fn frames_arrive_in_send_order() {
    let (tx, rx) = frame_channel();
    let first = NormalizedFrame { display_time: 1, width: 0, height: 0, data: Vec::new() };
    let second = NormalizedFrame { display_time: 2, width: 0, height: 0, data: Vec::new() };
    tx.send(first.clone()).unwrap();
    tx.send(second.clone()).unwrap();
    assert_eq!(rx.next_frame(), Some(first));
    assert_eq!(rx.next_frame(), Some(second));
    drop(tx);
    assert_eq!(rx.next_frame(), None);
}

#[test]
fn send_to_dropped_receiver_fails_with_channel_closed() {
    let (tx, rx) = frame_channel();
    drop(rx);
    let frame = NormalizedFrame { display_time: 0, width: 0, height: 0, data: Vec::new() };
    assert_eq!(tx.send(frame), Err(CaptureError::ChannelClosed));
}

#[test]
fn failed_extraction_is_skipped_and_session_continues() {
    let (tx, rx) = frame_channel();
    let mut capturer = Capturer::new(tx).with_crop(Some(rect(2, 0, 4, 2)));
    // the crop reaches column 6 of a 4-pixel-wide frame: extraction fails
    let data = bytes(4 * 2 * 4);
    assert_eq!(capturer.on_frame_arrived(4, 2, &data), Ok(FrameStatus::Skipped));
    // the bad frame never reached the channel
    assert_eq!(rx.try_next(), PollOutcome::Empty);
    // the session keeps delivering subsequent frames
    let good = bytes(8 * 2 * 4);
    assert_eq!(capturer.on_frame_arrived(8, 2, &good), Ok(FrameStatus::Delivered));
    match rx.try_next() {
        PollOutcome::Frame(frame) => {
            assert_eq!(frame.width, 4);
            assert_eq!(frame.height, 2);
        }
        other => panic!("expected a frame, got {:?}", other),
    }
}

#[test]
fn delivered_stamps_never_decrease() {
    let (tx, rx) = frame_channel();
    let mut capturer = Capturer::new(tx);
    let data = bytes(2 * 2 * 4);
    assert_eq!(capturer.on_frame_arrived(2, 2, &data), Ok(FrameStatus::Delivered));
    assert_eq!(capturer.on_frame_arrived(2, 2, &data), Ok(FrameStatus::Delivered));
    let first = rx.next_frame().unwrap();
    let second = rx.next_frame().unwrap();
    assert!(second.display_time >= first.display_time);
}

#[test]
fn uncropped_capturer_delivers_full_frames() {
    let (tx, rx) = frame_channel();
    let mut capturer = Capturer::new(tx);
    let data = bytes(2 * 2 * 4);
    assert_eq!(capturer.on_frame_arrived(2, 2, &data), Ok(FrameStatus::Delivered));
    match rx.try_next() {
        PollOutcome::Frame(frame) => {
            assert_eq!(frame.width, 2);
            assert_eq!(frame.height, 2);
            assert_eq!(frame.data, data);
        }
        other => panic!("expected a frame, got {:?}", other),
    }
    assert!(capturer.on_closed().is_ok());
}
