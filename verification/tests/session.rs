use scap::capturer::Capturer;
use scap::channel::frame_channel;
use scap::geometry::{DisplayMetadata, Extent, Options, OutputResolution, Point, Rect};
use scap::session::{CaptureSession, SessionState};
use scap::CaptureError;

fn full_display_options() -> Options {
    Options { source_rect: None, output_resolution: OutputResolution::Captured }
}

#[test]
fn start_resolves_geometry_and_runs() {
    let display = DisplayMetadata { width: 1920, height: 1080 };
    let mut session = CaptureSession::new(full_display_options());
    assert_eq!(session.state, SessionState::Idle);
    let cfg = session.start(&display).unwrap();
    assert_eq!(session.state, SessionState::Running);
    assert!(session.has_stream);
    assert_eq!(cfg.source_rect.origin, Point { x: 0, y: 0 });
    assert_eq!(cfg.source_rect.size, Extent { width: 1920, height: 1080 });
    assert_eq!((cfg.output_width, cfg.output_height), (1920, 1080));
    assert_eq!(session.resolved, Some(cfg));
}

#[test]
fn zero_area_region_refuses_to_start() {
    let display = DisplayMetadata { width: 0, height: 0 };
    let mut session = CaptureSession::new(full_display_options());
    assert_eq!(session.start(&display), Err(CaptureError::InvalidRegion));
    assert_eq!(session.state, SessionState::Idle);
    assert!(!session.has_stream);
}

#[test]
fn double_start_is_an_invalid_state_error() {
    let display = DisplayMetadata { width: 1920, height: 1080 };
    let mut session = CaptureSession::new(full_display_options());
    session.start(&display).unwrap();
    assert_eq!(session.start(&display), Err(CaptureError::InvalidState));
    assert_eq!(session.state, SessionState::Running);
}

#[test]
fn platform_refusal_surfaces_and_returns_to_idle() {
    let display = DisplayMetadata { width: 1920, height: 1080 };
    let mut session = CaptureSession::new(full_display_options());
    session.start(&display).unwrap();
    assert_eq!(session.platform_start_result(false), Err(CaptureError::PlatformStart));
    assert_eq!(session.state, SessionState::Idle);
    assert!(!session.has_stream);
    assert_eq!(session.resolved, None);
}

#[test]
fn platform_acceptance_keeps_running() {
    let display = DisplayMetadata { width: 1920, height: 1080 };
    let mut session = CaptureSession::new(full_display_options());
    session.start(&display).unwrap();
    assert_eq!(session.platform_start_result(true), Ok(()));
    assert_eq!(session.state, SessionState::Running);
}

#[test]
fn stop_twice_errors_once_stopped() {
    let display = DisplayMetadata { width: 1920, height: 1080 };
    let mut session = CaptureSession::new(full_display_options());
    session.start(&display).unwrap();
    assert!(session.has_stream);
    assert_eq!(session.stop(), Ok(()));
    assert_eq!(session.state, SessionState::Stopped);
    assert!(!session.has_stream);
    // the second stop reports the misuse and releases nothing
    assert_eq!(session.stop(), Err(CaptureError::InvalidState));
    assert_eq!(session.state, SessionState::Stopped);
    assert!(!session.has_stream);
}

#[test]
fn stop_when_idle_is_an_invalid_state_error() {
    let mut session = CaptureSession::new(full_display_options());
    assert_eq!(session.stop(), Err(CaptureError::InvalidState));
    assert_eq!(session.state, SessionState::Idle);
}

#[test]
fn stream_closed_notification_stops_a_running_session() {
    let display = DisplayMetadata { width: 1920, height: 1080 };
    let mut session = CaptureSession::new(full_display_options());
    session.start(&display).unwrap();
    session.stream_closed();
    assert_eq!(session.state, SessionState::Stopped);
    assert!(!session.has_stream);
    // once stopped, a second notification changes nothing
    session.stream_closed();
    assert_eq!(session.state, SessionState::Stopped);
}

#[test]
fn requested_region_flows_into_the_stream_config() {
    let display = DisplayMetadata { width: 1920, height: 1080 };
    let options = Options {
        source_rect: Some(Rect {
            origin: Point { x: 10, y: 20 },
            size: Extent { width: 101, height: 51 },
        }),
        output_resolution: OutputResolution::Captured,
    };
    let mut session = CaptureSession::new(options);
    let cfg = session.start(&display).unwrap();
    assert_eq!(cfg.source_rect.origin, Point { x: 10, y: 20 });
    assert_eq!(cfg.source_rect.size, Extent { width: 102, height: 52 });
    assert_eq!((cfg.output_width, cfg.output_height), (102, 52));
}

#[test]
fn dropped_consumer_fails_send_and_session_moves_toward_stopped() {
    let display = DisplayMetadata { width: 4, height: 2 };
    let mut session = CaptureSession::new(full_display_options());
    session.start(&display).unwrap();

    let (tx, rx) = frame_channel();
    let mut capturer = Capturer::new(tx);
    drop(rx);

    let mut data: Vec<u8> = Vec::new();
    for i in 0..(4 * 2 * 4) {
        data.push(i as u8);
    }
    assert_eq!(capturer.on_frame_arrived(4, 2, &data), Err(CaptureError::ChannelClosed));
    // the producer treats the closed channel as fatal and stops the session
    assert_eq!(session.stop(), Ok(()));
    assert_eq!(session.state, SessionState::Stopped);
}
