//! Decisions of a session played by a generic media pipeline: size changes
//! of decoded frames, and what each pipeline bus event leads to.
use crate::engine::texture::payload::{packed_rows, rows_in_bounds, RawRgbaFrame};
use crate::engine::types::PlaybinConfig;
use crate::text::{decimal, to_decimal};
use vstd::prelude::*;

verus! {

/// The session's configuration.
pub struct PlaybinSession {
    config: PlaybinConfig,
    session_id: i64,
}

impl PlaybinSession {
    pub closed spec fn uri(&self) -> Seq<char> {
        self.config.uri@
    }

    pub closed spec fn muted(&self) -> bool {
        self.config.mute
    }

    pub closed spec fn id(&self) -> i64 {
        self.session_id
    }

    pub fn new(config: PlaybinConfig, session_id: i64) -> (s: Self)
        ensures
            s.uri() == config.uri@,
            s.muted() == config.mute,
            s.id() == session_id,
    {
        PlaybinSession { config, session_id }
    }

    /// Whether the pipeline is told to mute audio.
    pub fn mute_audio(&self) -> (r: bool)
        ensures
            r == self.muted(),
    {
        self.config.mute
    }

    /// The URI the pipeline plays.
    pub fn uri_str(&self) -> (r: &str)
        ensures
            r@ == self.uri(),
    {
        self.config.uri.as_str()
    }
}

/// A decoded RGBA frame from the pipeline's sink, and the size to report
/// when it differs from the last one seen: rows `stride` bytes apart are
/// packed when the stride has padding, the plane is taken as is otherwise.
pub fn frame_from_sample(width: u32, height: u32, stride: usize, plane: &[u8], last_size: &mut (u32, u32)) -> (r: (RawRgbaFrame, Option<(u64, u64)>))
    requires
        width * 4 <= usize::MAX,
        rows_in_bounds(plane@.len(), width as nat * 4, stride as nat, height as nat),
    ensures
        r.0.width == width,
        r.0.height == height,
        stride == width * 4 ==> r.0.data@ == plane@,
        stride != width * 4 ==> r.0.data@ == packed_rows(plane@, width as nat * 4, stride as nat, height as nat),
        *old(last_size) != (width, height) ==> r.1 == Some((width as u64, height as u64)),
        *old(last_size) == (width, height) ==> r.1 is None,
        *final(last_size) == (width, height),
{
    let changed = last_size.0 != width || last_size.1 != height;
    let report = if changed {
        *last_size = (width, height);
        Some((width as u64, height as u64))
    } else {
        None
    };
    let expected_stride = width as usize * 4;
    let frame = if stride == expected_stride {
        RawRgbaFrame { width, height, data: vstd::slice::slice_to_vec(plane) }
    } else {
        RawRgbaFrame::from_padded_rows(width, height, stride, plane)
    };
    (frame, report)
}

/// Events of the pipeline's bus, and the end of the event channel.
#[derive(Debug, Clone)]
pub enum GstBusEvent {
    Error(String),
    Warning(String),
    Eos,
    Buffering(i32),
    StateChanged,
    ChannelClosed,
}

/// What the session loop does.
pub enum PlaybinStep {
    /// Keep waiting.
    Continue,
    /// Stop the pipeline and end normally.
    StopPipeline,
    /// Stop the pipeline, report the stream stopped, and end normally.
    StopAtEnd,
    /// Report the error, stop the pipeline, and end with the error.
    Fail(String),
    /// The event channel closed: end normally.
    Leave,
    /// Buffering fell below full: pause the pipeline and report loading.
    Pause,
    /// Buffering is full again: set the pipeline playing and report playing.
    Resume,
}

/// A shutdown stops the pipeline; an error is reported and ends the
/// session with it; the end of the stream stops the pipeline and reports
/// the stream stopped; buffering below 100 % pauses a playing pipeline and
/// buffering at 100 % resumes a paused one (`paused` says whether buffering
/// paused it); other buffering, warnings and state changes are only logged;
/// a closed event channel ends the loop.
pub fn playbin_loop_step(shutdown: bool, paused: bool, event: Option<GstBusEvent>) -> (r: PlaybinStep)
    requires
        shutdown || event is Some,
    ensures
        shutdown ==> r is StopPipeline,
        !shutdown ==> match event {
            Some(GstBusEvent::Error(m)) => (r matches PlaybinStep::Fail(x) && x@ == m@),
            Some(GstBusEvent::Eos) => r is StopAtEnd,
            Some(GstBusEvent::ChannelClosed) => r is Leave,
            Some(GstBusEvent::Buffering(pct)) => if pct < 100 && !paused {
                r is Pause
            } else if pct >= 100 && paused {
                r is Resume
            } else {
                r is Continue
            },
            Some(_) => r is Continue,
            None => false,
        },
{
    if shutdown {
        return PlaybinStep::StopPipeline;
    }
    match event {
        Some(GstBusEvent::Error(m)) => PlaybinStep::Fail(m),
        Some(GstBusEvent::Eos) => PlaybinStep::StopAtEnd,
        Some(GstBusEvent::ChannelClosed) => PlaybinStep::Leave,
        Some(GstBusEvent::Buffering(pct)) => if pct < 100 && !paused {
            PlaybinStep::Pause
        } else if pct >= 100 && paused {
            PlaybinStep::Resume
        } else {
            PlaybinStep::Continue
        },
        Some(_) => PlaybinStep::Continue,
        None => PlaybinStep::Leave,
    }
}

/// A signed number written in decimal.
pub open spec fn signed_decimal(n: i64) -> Seq<char> {
    if n < 0 { "-"@ + decimal((-(n as int)) as nat) } else { decimal(n as nat) }
}

/// `n` written in decimal, with a minus sign when negative.
pub fn to_signed_decimal(n: i64) -> (s: String)
    ensures
        s@ == signed_decimal(n),
{
    if n < 0 {
        let magnitude: u64 = if n == i64::MIN { 9223372036854775808u64 } else { (-n) as u64 };
        let mut s = String::from_str("-");
        s.append(to_decimal(magnitude).as_str());
        s
    } else {
        to_decimal(n as u64)
    }
}

/// The text a pipeline error of session `session_id` is reported with.
pub fn bus_error_text(session_id: i64, error: &str) -> (r: String)
    ensures
        r@ == "GStreamer error ["@ + signed_decimal(session_id) + "]: "@ + error@,
{
    let mut r = String::from_str("GStreamer error [");
    r.append(to_signed_decimal(session_id).as_str());
    r.append("]: ");
    r.append(error);
    r
}

/// The text a pipeline warning of session `session_id` is logged with.
pub fn bus_warning_text(session_id: i64, warning: &str) -> (r: String)
    ensures
        r@ == "GStreamer warning ["@ + signed_decimal(session_id) + "]: "@ + warning@,
{
    let mut r = String::from_str("GStreamer warning [");
    r.append(to_signed_decimal(session_id).as_str());
    r.append("]: ");
    r.append(warning);
    r
}

/// Why a seek or speed change could not be done.
#[derive(Debug, Clone, Copy, PartialEq, Eq, Structural)]
pub enum PlaybinControlError {
    /// No pipeline is playing.
    NoActivePipeline,
}

/// A seek target in nanoseconds for a position in milliseconds; refused
/// without a playing pipeline.
pub fn seek_position_ns(has_pipeline: bool, ts_ms: u64) -> (r: Result<u64, PlaybinControlError>)
    requires
        ts_ms * 1_000_000 <= u64::MAX,
    ensures
        !has_pipeline ==> r == Err::<u64, PlaybinControlError>(PlaybinControlError::NoActivePipeline),
        has_pipeline ==> r == Ok::<u64, PlaybinControlError>((ts_ms * 1_000_000) as u64),
{
    if !has_pipeline {
        return Err(PlaybinControlError::NoActivePipeline);
    }
    Ok(ts_ms * 1_000_000)
}

} // verus!
