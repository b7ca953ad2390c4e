//! The capture session state machine: resolves geometry once at start,
//! tracks the platform stream handle, and rules on every lifecycle
//! transition. The platform stream itself lives outside; the session
//! decides, and its caller performs the start and stop it orders.

use vstd::prelude::*;
use crate::CaptureError;
use crate::geometry::{
    get_output_frame_size, get_source_rect, output_height, output_width, resolved_source_height,
    resolved_source_origin, resolved_source_width, DisplayMetadata, Options, Rect,
};

verus! {

/// The lifecycle of a session. There is no way back to `Running` from
/// `Stopped`: a new session must be constructed to capture again.
#[derive(Clone, Copy, Debug, PartialEq, Eq, Structural)]
pub enum SessionState {
    Idle,
    Running,
    Stopped,
}

/// The geometry a started session captures with: the resolved source
/// rectangle and the resolved output frame size.
#[derive(Clone, Copy, Debug, PartialEq, Eq, Structural)]
pub struct StreamConfig {
    pub source_rect: Rect,
    pub output_width: u32,
    pub output_height: u32,
}

/// Options the session can resolve geometry for: a requested dimension
/// must leave room for rounding up to even.
pub open spec fn options_valid(options: Options) -> bool {
    options.source_rect matches Some(s) ==> s.size.width < u32::MAX && s.size.height < u32::MAX
}

/// The capture session. It owns the decision who may hold the platform
/// stream handle: `has_stream` says the handle is out with the platform,
/// and every transition that clears it stands for the one release of that
/// handle.
pub struct CaptureSession {
    pub state: SessionState,
    pub options: Options,
    pub resolved: Option<StreamConfig>,
    pub has_stream: bool,
}

impl CaptureSession {
    /// The session's invariant: a running session holds the stream handle
    /// and a resolved geometry; a session that is not running holds no
    /// handle, so the handle is never released twice.
    pub open spec fn wf(self) -> bool {
        &&& options_valid(self.options)
        &&& self.state == SessionState::Running ==> self.has_stream && self.resolved is Some
        &&& self.state != SessionState::Running ==> !self.has_stream
    }

    /// A new session: configured, not running, no stream handle.
    pub fn new(options: Options) -> (s: Self)
        requires
            options_valid(options),
        ensures
            s.state == SessionState::Idle,
            s.options == options,
            s.resolved is None,
            !s.has_stream,
            s.wf(),
    {
        CaptureSession { state: SessionState::Idle, options, resolved: None, has_stream: false }
    }

    /// Starts the session: valid only from `Idle`. Resolves the geometry
    /// once; a zero-area source region fails with
    /// `CaptureError::InvalidRegion` and changes nothing, before any
    /// platform stream is started. Otherwise the session transitions to
    /// `Running` and returns the stream configuration its caller must
    /// start the platform stream with, completing the start with
    /// `platform_start_result`.
    pub fn start(&mut self, display: &DisplayMetadata) -> (r: Result<StreamConfig, CaptureError>)
        requires
            old(self).wf(),
        ensures
            final(self).wf(),
            final(self).options == old(self).options,
            old(self).state != SessionState::Idle ==> r == Err::<StreamConfig, CaptureError>(
                CaptureError::InvalidState,
            ) && *final(self) == *old(self),
            old(self).state == SessionState::Idle && (resolved_source_width(
                old(self).options,
                *display,
            ) == 0 || resolved_source_height(old(self).options, *display) == 0) ==> r == Err::<
                StreamConfig,
                CaptureError,
            >(CaptureError::InvalidRegion) && *final(self) == *old(self),
            old(self).state == SessionState::Idle && resolved_source_width(
                old(self).options,
                *display,
            ) != 0 && resolved_source_height(old(self).options, *display) != 0 ==> {
                &&& r matches Ok(cfg)
                &&& final(self).state == SessionState::Running
                &&& final(self).has_stream
                &&& final(self).resolved == Some(cfg)
                &&& cfg.source_rect.origin == resolved_source_origin(old(self).options, *display)
                &&& cfg.source_rect.size.width as int == resolved_source_width(
                    old(self).options,
                    *display,
                )
                &&& cfg.source_rect.size.height as int == resolved_source_height(
                    old(self).options,
                    *display,
                )
                &&& cfg.output_width as int == output_width(
                    old(self).options.output_resolution,
                    resolved_source_width(old(self).options, *display),
                    resolved_source_height(old(self).options, *display),
                )
                &&& cfg.output_height as int == output_height(
                    old(self).options.output_resolution,
                    resolved_source_width(old(self).options, *display),
                    resolved_source_height(old(self).options, *display),
                )
            },
    {
        match self.state {
            SessionState::Idle => {
                let source_rect = get_source_rect(&self.options, display);
                if source_rect.size.width == 0 || source_rect.size.height == 0 {
                    return Err(CaptureError::InvalidRegion);
                }
                let (output_w, output_h) = get_output_frame_size(&self.options, display);
                let cfg = StreamConfig {
                    source_rect,
                    output_width: output_w,
                    output_height: output_h,
                };
                self.resolved = Some(cfg);
                self.state = SessionState::Running;
                self.has_stream = true;
                Ok(cfg)
            },
            _ => Err(CaptureError::InvalidState),
        }
    }

    /// Completes a start with the platform collaborator's verdict. A
    /// refusal (`started` false) surfaces as `CaptureError::PlatformStart`
    /// and puts the session back to `Idle` with nothing resolved and no
    /// handle, as if `start` had never succeeded.
    pub fn platform_start_result(&mut self, started: bool) -> (r: Result<(), CaptureError>)
        requires
            old(self).wf(),
        ensures
            final(self).wf(),
            final(self).options == old(self).options,
            old(self).state != SessionState::Running ==> r == Err::<(), CaptureError>(
                CaptureError::InvalidState,
            ) && *final(self) == *old(self),
            old(self).state == SessionState::Running && started ==> r is Ok && *final(self)
                == *old(self),
            old(self).state == SessionState::Running && !started ==> r == Err::<(), CaptureError>(
                CaptureError::PlatformStart,
            ) && final(self).state == SessionState::Idle && !final(self).has_stream
                && final(self).resolved is None,
    {
        match self.state {
            SessionState::Running => {
                if started {
                    Ok(())
                } else {
                    self.state = SessionState::Idle;
                    self.has_stream = false;
                    self.resolved = None;
                    Err(CaptureError::PlatformStart)
                }
            },
            _ => Err(CaptureError::InvalidState),
        }
    }

    /// Stops the session: valid only from `Running`; the one release of
    /// the stream handle. From any other state it fails with
    /// `CaptureError::InvalidState` and changes nothing.
    pub fn stop(&mut self) -> (r: Result<(), CaptureError>)
        requires
            old(self).wf(),
        ensures
            final(self).wf(),
            r == stop_result(*old(self)),
            *final(self) == stop_next(*old(self)),
            old(self).state == SessionState::Running ==> r is Ok && final(self).state
                == SessionState::Stopped && !final(self).has_stream,
            old(self).state != SessionState::Running ==> r == Err::<(), CaptureError>(
                CaptureError::InvalidState,
            ) && *final(self) == *old(self),
    {
        match self.state {
            SessionState::Running => {
                self.state = SessionState::Stopped;
                self.has_stream = false;
                Ok(())
            },
            _ => Err(CaptureError::InvalidState),
        }
    }

    /// Takes the platform's notification that the stream ended on its own
    /// (window closed, permission revoked): a running session transitions
    /// to `Stopped` and gives up the handle; otherwise nothing changes.
    pub fn stream_closed(&mut self)
        requires
            old(self).wf(),
        ensures
            final(self).wf(),
            *final(self) == stop_next(*old(self)),
            old(self).state == SessionState::Running ==> final(self).state
                == SessionState::Stopped && !final(self).has_stream,
            old(self).state != SessionState::Running ==> *final(self) == *old(self),
    {
        match self.state {
            SessionState::Running => {
                self.state = SessionState::Stopped;
                self.has_stream = false;
            },
            _ => {},
        }
    }
}

/// What `stop` returns when called on a session in the given state.
pub open spec fn stop_result(s: CaptureSession) -> Result<(), CaptureError> {
    if s.state == SessionState::Running {
        Ok(())
    } else {
        Err(CaptureError::InvalidState)
    }
}

/// The session after `stop`: stopped and without the stream handle if it
/// was running, unchanged otherwise.
pub open spec fn stop_next(s: CaptureSession) -> CaptureSession {
    if s.state == SessionState::Running {
        CaptureSession { state: SessionState::Stopped, has_stream: false, ..s }
    } else {
        s
    }
}

/// Law: stopping twice in a row releases the stream handle exactly once.
/// The first stop succeeds and gives up the handle; the second fails with
/// `CaptureError::InvalidState` and leaves the session — handle included —
/// exactly as the first left it.
pub proof fn lemma_stop_idempotent(s: CaptureSession)
    requires
        s.state == SessionState::Running,
    ensures
        stop_result(s) == Ok::<(), CaptureError>(()),
        stop_next(s).state == SessionState::Stopped,
        !stop_next(s).has_stream,
        stop_result(stop_next(s)) == Err::<(), CaptureError>(CaptureError::InvalidState),
        stop_next(stop_next(s)) == stop_next(s),
{
}

} // verus!
