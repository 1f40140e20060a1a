//! State and decisions of a decoding session: its lifecycle, its command
//! handling, the outcome of each packet read and of each streaming pass.
use crate::dart_types::StreamState;
use crate::engine::input::{InputCommand, InputEvent};
use crate::engine::software_decoder::{
    frame_interval_nanos, is_hls_uri, is_rtsp_uri, sanitize_dimensions, sanitized, stream_is_seekable,
    uri_is_rtsp, DimensionError,
};
use crate::engine::texture::payload::{PayloadHolder, RawRgbaFrame};
use crate::engine::types::{VideoDimensions, VideoInfo};
use std::sync::Arc;
use vstd::prelude::*;

verus! {

/// How a streaming pass over an open stream ended.
#[derive(Debug, Clone, Copy, PartialEq, Eq, Structural)]
pub enum StreamExitResult {
    LegalExit,
    EOF,
    Error,
}

/// Why a stream could not be opened for decoding.
#[derive(Debug, Clone, Copy, PartialEq, Eq, Structural)]
pub enum StreamError {
    /// The decoder reports a frame side of zero.
    InvalidData,
}

/// Scaling algorithms, tried in this order when building a scaler.
#[derive(Debug, Clone, Copy, PartialEq, Eq, Structural)]
pub enum ScalingAlgorithm {
    FastBilinear,
    Bilinear,
    Point,
}

/// The state of one decoding session. The codec objects live with the
/// caller; this holds what the session decides with.
pub struct FfmpegVideoSession {
    video_info: VideoInfo,
    kill_sig: bool,
    session_id: i64,
    ffmpeg_options: Option<Vec<(String, String)>>,
    seekable: bool,
    output_dimensions: VideoDimensions,
    has_decoding_context: bool,
    framerate: u32,
}

/// What opening a stream decided about its scaler.
#[derive(Debug, Clone, Copy, PartialEq, Eq, Structural)]
pub enum ScalerPlan {
    /// The decoder does not know its frame size yet: build the scaler on the
    /// first decoded frame.
    Deferred,
    /// Build a scaler now from the decoder's size to the output size.
    Build { src_width: u32, src_height: u32, dst: VideoDimensions },
}

impl FfmpegVideoSession {
    pub closed spec fn info(&self) -> VideoInfo {
        self.video_info
    }

    pub closed spec fn terminated(&self) -> bool {
        self.kill_sig
    }

    pub closed spec fn id(&self) -> i64 {
        self.session_id
    }

    pub closed spec fn is_seekable_stream(&self) -> bool {
        self.seekable
    }

    pub closed spec fn output_size(&self) -> VideoDimensions {
        self.output_dimensions
    }

    pub closed spec fn has_context(&self) -> bool {
        self.has_decoding_context
    }

    pub closed spec fn frame_rate(&self) -> u32 {
        self.framerate
    }

    pub closed spec fn options(&self) -> Option<Vec<(String, String)>> {
        self.ffmpeg_options
    }

    /// A session that has not opened its stream yet, writing frames of
    /// `initial_dimensions`.
    pub fn new(
        video_info: VideoInfo,
        session_id: i64,
        ffmpeg_options: Option<Vec<(String, String)>>,
        initial_dimensions: VideoDimensions,
    ) -> (s: Self)
        ensures
            s.info() == video_info,
            s.id() == session_id,
            s.options() == ffmpeg_options,
            !s.terminated(),
            !s.is_seekable_stream(),
            !s.has_context(),
            s.output_size() == initial_dimensions,
    {
        FfmpegVideoSession {
            video_info,
            kill_sig: false,
            session_id,
            ffmpeg_options,
            seekable: false,
            output_dimensions: initial_dimensions,
            has_decoding_context: false,
            framerate: 0,
        }
    }

    /// The URI of the stream.
    pub fn uri(&self) -> (r: &String)
        ensures
            *r == self.info().uri,
    {
        &self.video_info.uri
    }

    /// The options handed to the demuxer when the stream is opened.
    pub fn ffmpeg_options(&self) -> (r: &Option<Vec<(String, String)>>)
        ensures
            *r == self.options(),
    {
        &self.ffmpeg_options
    }

    /// The size frames are scaled to.
    pub fn output_dimensions(&self) -> (r: VideoDimensions)
        ensures
            r == self.output_size(),
    {
        self.output_dimensions
    }

    /// Whether the stream was found seekable when it was opened.
    pub fn is_seekable(&self) -> (r: bool)
        ensures
            r == self.is_seekable_stream(),
    {
        self.seekable
    }

    /// Frames too large or of zero size are refused before a scaler is built.
    pub fn validate_stream_compatibility(width: u32, height: u32) -> (r: Result<(), StreamError>)
        ensures
            r is Err <==> (width == 0 || height == 0),
    {
        if width == 0 || height == 0 {
            return Err(StreamError::InvalidData);
        }
        Ok(())
    }

    /// The scaling algorithm to try after `failed` attempts failed; `None`
    /// once all three were tried.
    pub fn create_scaler_with_fallbacks(failed: usize) -> (r: Option<ScalingAlgorithm>)
        ensures
            failed == 0 ==> r == Some(ScalingAlgorithm::FastBilinear),
            failed == 1 ==> r == Some(ScalingAlgorithm::Bilinear),
            failed == 2 ==> r == Some(ScalingAlgorithm::Point),
            failed >= 3 ==> r is None,
    {
        if failed == 0 {
            Some(ScalingAlgorithm::FastBilinear)
        } else if failed == 1 {
            Some(ScalingAlgorithm::Bilinear)
        } else if failed == 2 {
            Some(ScalingAlgorithm::Point)
        } else {
            None
        }
    }

    /// Decides how the scaler of a stream being opened is built, for a
    /// decoder reporting `decoder_width` x `decoder_height`: later, on the
    /// first frame, when the size is not known yet; now, from that size to
    /// the output size, otherwise. A known frame size must be valid. The
    /// session is not changed: it counts as open only once
    /// `commit_stream` records the stream, after the scaler was built.
    pub fn initialize_stream(&self, decoder_width: u32, decoder_height: u32) -> (r: Result<ScalerPlan, StreamError>)
        ensures
            (decoder_width == 0 || decoder_height == 0) ==> r == Ok::<ScalerPlan, StreamError>(ScalerPlan::Deferred),
            (decoder_width != 0 && decoder_height != 0) ==> r == Ok::<ScalerPlan, StreamError>(ScalerPlan::Build {
                src_width: decoder_width,
                src_height: decoder_height,
                dst: self.output_size(),
            }),
    {
        if decoder_width == 0 || decoder_height == 0 {
            Ok(ScalerPlan::Deferred)
        } else {
            match Self::validate_stream_compatibility(decoder_width, decoder_height) {
                Ok(()) => {},
                Err(e) => return Err(e),
            }
            Ok(ScalerPlan::Build { src_width: decoder_width, src_height: decoder_height, dst: self.output_dimensions })
        }
    }

    /// Records that the stream is open, with its scaler built or deferred,
    /// playing at `framerate` frames per second; HLS and RTSP streams are
    /// seekable.
    pub fn commit_stream(&mut self, framerate: u32)
        ensures
            final(self).has_context(),
            final(self).frame_rate() == framerate,
            final(self).is_seekable_stream() == (is_hls_uri(old(self).info().uri@) || is_rtsp_uri(old(self).info().uri@)),
            final(self).info() == old(self).info(),
            final(self).id() == old(self).id(),
            final(self).options() == old(self).options(),
            final(self).terminated() == old(self).terminated(),
            final(self).output_size() == old(self).output_size(),
    {
        let seekable = stream_is_seekable(self.video_info.uri.as_str());
        self.has_decoding_context = true;
        self.framerate = framerate;
        self.seekable = seekable;
    }

    /// Whether the session was asked to stop.
    pub fn asked_for_termination(&self) -> (r: bool)
        ensures
            r == self.terminated(),
    {
        self.kill_sig
    }

    /// A line describing why the streaming loop ended.
    pub fn log_stream_exit(&self, reason: &str) -> (line: String)
        ensures
            line@ == seq!['S', 't', 'r', 'e', 'a', 'm', ' ', 'e', 'x', 'i', 't', ' ', '('] + reason@
                + seq![')', ' '] + self.info().uri@,
    {
        let mut line = String::from_str("Stream exit (");
        proof {
            reveal_strlit("Stream exit (");
            reveal_strlit(") ");
        }
        line.append(reason);
        line.append(") ");
        line.append(self.video_info.uri.as_str());
        assert(line@ =~= seq!['S', 't', 'r', 'e', 'a', 'm', ' ', 'e', 'x', 'i', 't', ' ', '('] + reason@
            + seq![')', ' '] + self.info().uri@);
        line
    }

    /// Asks the session to stop.
    pub fn destroy_stream(&mut self)
        ensures
            final(self).terminated(),
            final(self).info() == old(self).info(),
            final(self).id() == old(self).id(),
            final(self).options() == old(self).options(),
            final(self).output_size() == old(self).output_size(),
            final(self).has_context() == old(self).has_context(),
            final(self).is_seekable_stream() == old(self).is_seekable_stream(),
            final(self).frame_rate() == old(self).frame_rate(),
    {
        self.kill_sig = true;
    }

    /// Ends a streaming pass. With an open stream the decoder is told that
    /// the input ended.
    pub fn terminate(&self, has_open_context: bool) -> (send_eof: bool)
        ensures
            send_eof == has_open_context,
    {
        has_open_context
    }

    /// The demuxer position for a seek to `timestamp_us`: the same instant,
    /// since requests and the demuxer both count microseconds. `None` when
    /// no stream is open, in which case nothing happens.
    pub fn seek(&self, timestamp_us: i64) -> (r: Option<i64>)
        ensures
            self.has_context() ==> r == Some(timestamp_us),
            !self.has_context() ==> r is None,
    {
        if self.has_decoding_context {
            Some(timestamp_us)
        } else {
            None
        }
    }

    /// Validates a resize. `Ok(None)`: the size is unchanged and nothing is
    /// to be done; `Ok(Some(d))`: the scaler is to be rebuilt for `d`.
    pub fn resize_stream(&self, new_width: u32, new_height: u32) -> (r: Result<Option<VideoDimensions>, DimensionError>)
        ensures
            match sanitized(new_width, new_height) {
                Err(e) => r == Err::<Option<VideoDimensions>, DimensionError>(e),
                Ok((w, h)) => if w == self.output_size().width && h == self.output_size().height {
                    r == Ok::<Option<VideoDimensions>, DimensionError>(None)
                } else {
                    r == Ok::<Option<VideoDimensions>, DimensionError>(Some(VideoDimensions { width: w, height: h }))
                },
            },
    {
        let (w, h) = match sanitize_dimensions(new_width, new_height) {
            Ok(d) => d,
            Err(e) => return Err(e),
        };
        if self.output_dimensions.width == w && self.output_dimensions.height == h {
            return Ok(None);
        }
        Ok(Some(VideoDimensions { width: w, height: h }))
    }

    /// Whether rebuilding the scaler for a new size happens now: only with an
    /// open stream whose decoder knows its frame size.
    pub fn update_scaler(&self, decoder_width: u32, decoder_height: u32) -> (rebuild_now: bool)
        ensures
            rebuild_now == (self.has_context() && decoder_width != 0 && decoder_height != 0),
    {
        self.has_decoding_context && decoder_width != 0 && decoder_height != 0
    }

    /// Records the new output size once the scaler accepted it.
    pub fn commit_output_dimensions(&mut self, dims: VideoDimensions)
        ensures
            final(self).output_size() == dims,
            final(self).info() == old(self).info(),
            final(self).id() == old(self).id(),
            final(self).options() == old(self).options(),
            final(self).terminated() == old(self).terminated(),
            final(self).has_context() == old(self).has_context(),
            final(self).is_seekable_stream() == old(self).is_seekable_stream(),
            final(self).frame_rate() == old(self).frame_rate(),
    {
        self.output_dimensions = dims;
    }

    /// Nanoseconds to wait between frames; none for RTSP streams, which are
    /// paced by the source, and none when the frame rate is unknown.
    pub fn frame_sleep_nanos(&self) -> (r: Option<u64>)
        ensures
            (self.frame_rate() == 0 || is_rtsp_uri(self.info().uri@)) ==> r is None,
            (self.frame_rate() > 0 && !is_rtsp_uri(self.info().uri@)) ==> r == Some(
                (1_000_000_000u32 / self.frame_rate()) as u64,
            ),
    {
        if self.framerate > 0 && !uri_is_rtsp(self.video_info.uri.as_str()) {
            frame_interval_nanos(self.framerate)
        } else {
            None
        }
    }

    /// Fills the screen after a resize: the previous frame rescaled to the
    /// new size when the scaler produced one of exactly that size, otherwise
    /// a black frame of the new size.
    pub fn update_texture_with_placeholder(
        holder: &mut PayloadHolder,
        new_width: u32,
        new_height: u32,
        rescaled: Option<RawRgbaFrame>,
    ) -> (used_rescaled: bool)
        requires
            new_width * new_height * 4 <= u32::MAX,
        ensures
            used_rescaled == (rescaled matches Some(f) && f.width == new_width && f.height == new_height),
            used_rescaled ==> PayloadHolder::set_payload_post(*old(holder), *final(holder), rescaled->0),
            !used_rescaled ==> final(holder).previous() == old(holder).current(),
            !used_rescaled ==> (final(holder).current() matches Some(c) && c.width == new_width
                && c.height == new_height && c.data@.len() == new_width * new_height * 4),
    {
        if Self::rescale_and_set_previous_frame(holder, rescaled, new_width, new_height) {
            true
        } else {
            holder.set_payload(Arc::new(RawRgbaFrame::black(new_width, new_height)));
            false
        }
    }

    /// Puts the rescaled previous frame on screen if it has exactly the new
    /// size; reports whether it did.
    pub fn rescale_and_set_previous_frame(
        holder: &mut PayloadHolder,
        rescaled: Option<RawRgbaFrame>,
        new_width: u32,
        new_height: u32,
    ) -> (done: bool)
        ensures
            done == (rescaled matches Some(f) && f.width == new_width && f.height == new_height),
            done ==> PayloadHolder::set_payload_post(*old(holder), *final(holder), rescaled->0),
            !done ==> *final(holder) == *old(holder),
    {
        match rescaled {
            Some(frame) => {
                if frame.width == new_width && frame.height == new_height {
                    holder.set_payload(Arc::new(frame));
                    true
                } else {
                    false
                }
            },
            None => false,
        }
    }

    /// What to do with the result of asking the decoder for a frame: stop
    /// when it has none ready or failed, flush and drop the scaler when the
    /// input changed, otherwise scale the frame, building a scaler to the
    /// output size first when there is none.
    pub fn on_new_sample(&self, received: FrameReceive, scaler_ready: bool) -> (r: SampleAction)
        ensures
            match received {
                FrameReceive::Frame => if scaler_ready {
                    r == SampleAction::Scale { build_scaler_to: None }
                } else {
                    r == SampleAction::Scale { build_scaler_to: Some(self.output_size()) }
                },
                FrameReceive::InputChanged => r == SampleAction::FlushAndResetScaler,
                FrameReceive::Again => r == SampleAction::Stop,
                FrameReceive::Failed => r == SampleAction::Stop,
            },
    {
        match received {
            FrameReceive::Frame => if scaler_ready {
                SampleAction::Scale { build_scaler_to: None }
            } else {
                SampleAction::Scale { build_scaler_to: Some(self.output_dimensions) }
            },
            FrameReceive::InputChanged => SampleAction::FlushAndResetScaler,
            FrameReceive::Again => SampleAction::Stop,
            FrameReceive::Failed => SampleAction::Stop,
        }
    }

    /// After a scaled frame was put on screen: keep draining the decoder
    /// unless the session was asked to stop.
    pub fn continue_after_frame(&self) -> (r: bool)
        ensures
            r == !self.terminated(),
    {
        !self.kill_sig
    }
}


/// The result of reading the next packet from the demuxer.
#[derive(Debug, Clone, Copy, PartialEq, Eq, Structural)]
pub enum PacketRead {
    /// A packet of the video stream.
    Video,
    /// A packet of another stream.
    Other,
    /// The input ended.
    Eof,
    /// Nothing available right now; ask again.
    Again,
    /// The read timed out.
    TimedOut,
    /// Any other read error.
    Failed,
}

/// Whether the current pass has reported playback, and whether it is
/// waiting for data after a timeout.
#[derive(Debug, Clone, Copy, PartialEq, Eq, Structural)]
pub struct StreamPassState {
    pub is_playing: bool,
    pub stalled: bool,
}

/// What the streaming pass does after a packet read.
#[derive(Debug, Clone, Copy, PartialEq, Eq, Structural)]
pub enum PassStep {
    /// Read again, after sleeping this many nanoseconds when given.
    Continue { sleep_nanos: Option<u64> },
    /// End the pass with this result.
    Exit(StreamExitResult),
}

/// Everything a packet read leads to: the next step, an event to send, and
/// whether the packet is decoded or the decoder told that input ended.
pub struct PacketOutcome {
    pub step: PassStep,
    pub event: Option<InputEvent>,
    pub decode: bool,
    pub send_eof: bool,
}

/// Nanoseconds to wait before reading again after a timed-out read.
pub const STALL_RETRY_NANOS: u64 = 200_000_000;

/// Message reported when a read fails for good.
pub open spec fn corrupted_message() -> Seq<char> {
    seq!['S', 't', 'r', 'e', 'a', 'm', ' ', 'c', 'o', 'r', 'r', 'u', 'p', 't', 'e', 'd']
}

/// What the session does once a command has been applied.
pub enum CommandEffect {
    /// Stop the session.
    Terminate,
    /// Seek the demuxer to this position, if a stream is open.
    Seek(Option<i64>),
    /// The validated resize: rebuild the scaler for the size when there is
    /// one, and announce a frame when the resize was accepted.
    Resize(Result<Option<VideoDimensions>, DimensionError>),
}

/// What the outer loop does after a streaming pass.
#[derive(Debug, Clone, Copy, PartialEq, Eq, Structural)]
pub enum RestartStep {
    /// Leave the loop.
    Stop,
    /// Open the stream again after `delay_ms`, first reporting the stream
    /// stopped when `report_stopped` holds.
    Restart { report_stopped: bool, delay_ms: u64 },
}

/// The validated resize for a requested size, given the current output
/// size: the sanitizer's error, `None` when the sanitized size is the
/// current one, else the new size.
pub open spec fn resize_outcome(width: u32, height: u32, current: VideoDimensions) -> Result<Option<VideoDimensions>, DimensionError> {
    match sanitized(width, height) {
        Err(e) => Err(e),
        Ok((w, h)) => if w == current.width && h == current.height {
            Ok(None)
        } else {
            Ok(Some(VideoDimensions { width: w, height: h }))
        },
    }
}

/// The effect of a command on a session that has (or has not) an open
/// stream and writes frames of size `current`.
pub open spec fn command_effect(command: InputCommand, has_context: bool, current: VideoDimensions) -> CommandEffect {
    match command {
        InputCommand::Terminate => CommandEffect::Terminate,
        InputCommand::Seek { ts } => CommandEffect::Seek(if has_context { Some(ts) } else { None }),
        InputCommand::Resize { width, height } => CommandEffect::Resize(resize_outcome(width, height, current)),
    }
}

impl FfmpegVideoSession {
    /// Applies a command: terminate stops the session, a seek is planned,
    /// a resize is validated.
    pub fn handle_command(&mut self, command: InputCommand) -> (r: CommandEffect)
        ensures
            r == command_effect(command, old(self).has_context(), old(self).output_size()),
            match command {
                InputCommand::Terminate => r is Terminate && final(self).terminated(),
                InputCommand::Seek { ts } => (r matches CommandEffect::Seek(p)
                    && p == (if old(self).has_context() { Some(ts) } else { None }))
                    && final(self).terminated() == old(self).terminated(),
                InputCommand::Resize { width, height } => (r matches CommandEffect::Resize(res)
                    && res == match sanitized(width, height) {
                        Err(e) => Err::<Option<VideoDimensions>, DimensionError>(e),
                        Ok((w, h)) => if w == old(self).output_size().width && h == old(self).output_size().height {
                            Ok::<Option<VideoDimensions>, DimensionError>(None)
                        } else {
                            Ok::<Option<VideoDimensions>, DimensionError>(Some(VideoDimensions { width: w, height: h }))
                        },
                    }) && final(self).terminated() == old(self).terminated(),
            },
            final(self).info() == old(self).info(),
            final(self).output_size() == old(self).output_size(),
            final(self).has_context() == old(self).has_context(),
            final(self).is_seekable_stream() == old(self).is_seekable_stream(),
            final(self).frame_rate() == old(self).frame_rate(),
    {
        match command {
            InputCommand::Terminate => {
                self.destroy_stream();
                CommandEffect::Terminate
            },
            InputCommand::Seek { ts } => CommandEffect::Seek(self.seek(ts)),
            InputCommand::Resize { width, height } => CommandEffect::Resize(self.resize_stream(width, height)),
        }
    }

    /// Applies every queued command in order and reports whether one of them
    /// asked the session to stop, with the effect of each.
    pub fn drain_commands(&mut self, commands: Vec<InputCommand>) -> (r: (bool, Vec<CommandEffect>))
        ensures
            r.0 == exists|i: int| 0 <= i < commands@.len() && (#[trigger] commands@[i]) is Terminate,
            r.1@.len() == commands@.len(),
            forall|i: int| 0 <= i < commands@.len() ==> #[trigger] r.1@[i] == command_effect(
                commands@[i],
                old(self).has_context(),
                old(self).output_size(),
            ),
            r.0 ==> final(self).terminated(),
            !r.0 ==> final(self).terminated() == old(self).terminated(),
            final(self).info() == old(self).info(),
            final(self).output_size() == old(self).output_size(),
            final(self).has_context() == old(self).has_context(),
            final(self).is_seekable_stream() == old(self).is_seekable_stream(),
            final(self).frame_rate() == old(self).frame_rate(),
    {
        let mut should_terminate = false;
        let mut effects: Vec<CommandEffect> = Vec::new();
        let mut i: usize = 0;
        while i < commands.len()
            invariant
                i <= commands@.len(),
                effects@.len() == i,
                should_terminate == exists|j: int| 0 <= j < i && (#[trigger] commands@[j]) is Terminate,
                should_terminate ==> self.terminated(),
                !should_terminate ==> self.terminated() == old(self).terminated(),
                self.info() == old(self).info(),
                self.output_size() == old(self).output_size(),
                self.has_context() == old(self).has_context(),
                self.is_seekable_stream() == old(self).is_seekable_stream(),
                self.frame_rate() == old(self).frame_rate(),
                forall|j: int| 0 <= j < i ==> #[trigger] effects@[j] == command_effect(
                    commands@[j],
                    old(self).has_context(),
                    old(self).output_size(),
                ),
            decreases commands@.len() - i,
        {
            let command = commands[i];
            let is_terminate = match command {
                InputCommand::Terminate => true,
                _ => false,
            };
            let effect = self.handle_command(command);
            let ghost before = should_terminate;
            if is_terminate {
                should_terminate = true;
            }
            effects.push(effect);
            proof {
                if should_terminate {
                    if !before {
                        assert(commands@[i as int] is Terminate);
                    }
                } else {
                    assert forall|j: int| 0 <= j < i + 1 implies !(#[trigger] commands@[j] is Terminate) by {
                        if j == i {
                        }
                    }
                }
            }
            i = i + 1;
        }
        (should_terminate, effects)
    }

    /// Whether a streaming pass ends before reading: when the session was
    /// asked to stop, or a drained command asked it.
    pub fn pass_should_exit(&self, drained_terminate: bool) -> (r: bool)
        ensures
            r == (self.terminated() || drained_terminate),
    {
        self.kill_sig || drained_terminate
    }

    /// Decides what a packet read leads to, updating the pass state. A
    /// video packet is decoded and, the first time, playback is reported; a
    /// timeout reports loading once and waits 200 ms; the end of input ends
    /// the pass; a failed read reports the stream corrupted and ends it.
    pub fn on_packet(&self, state: &mut StreamPassState, read: PacketRead, texture_id: i64) -> (r: PacketOutcome)
        ensures
            match read {
                PacketRead::Video => {
                    &&& r.decode && !r.send_eof
                    &&& r.step == PassStep::Continue { sleep_nanos: frame_sleep_spec(*self) }
                    &&& final(state).is_playing
                    &&& !old(state).is_playing ==> !final(state).stalled && (r.event matches Some(InputEvent::State(StreamState::Playing { texture_id: t, seekable: s }))
                        && t == texture_id && s == self.is_seekable_stream())
                    &&& old(state).is_playing ==> r.event is None && final(state).stalled == old(state).stalled
                },
                PacketRead::Other => {
                    &&& !r.decode && !r.send_eof && r.event is None
                    &&& r.step == PassStep::Continue { sleep_nanos: frame_sleep_spec(*self) }
                    &&& *final(state) == *old(state)
                },
                PacketRead::Eof => {
                    &&& !r.decode && r.send_eof && r.event is None
                    &&& r.step == PassStep::Exit(StreamExitResult::EOF)
                },
                PacketRead::Again => {
                    &&& !r.decode && !r.send_eof && r.event is None
                    &&& r.step == PassStep::Continue { sleep_nanos: None }
                    &&& *final(state) == *old(state)
                },
                PacketRead::TimedOut => {
                    &&& !r.decode && !r.send_eof
                    &&& r.step == PassStep::Continue { sleep_nanos: Some(STALL_RETRY_NANOS) }
                    &&& final(state).stalled
                    &&& !old(state).stalled ==> (r.event matches Some(InputEvent::State(StreamState::Loading)))
                        && !final(state).is_playing
                    &&& old(state).stalled ==> r.event is None && *final(state) == *old(state)
                },
                PacketRead::Failed => {
                    &&& !r.decode && !r.send_eof
                    &&& r.step == PassStep::Exit(StreamExitResult::Error)
                    &&& (r.event matches Some(InputEvent::State(StreamState::Error(m))) && m@ == corrupted_message())
                },
            },
    {
        match read {
            PacketRead::Video => {
                let mut event: Option<InputEvent> = None;
                if !state.is_playing {
                    state.stalled = false;
                    event = Some(InputEvent::State(StreamState::Playing { texture_id, seekable: self.seekable }));
                    state.is_playing = true;
                }
                PacketOutcome {
                    step: PassStep::Continue { sleep_nanos: self.frame_sleep_nanos() },
                    event,
                    decode: true,
                    send_eof: false,
                }
            },
            PacketRead::Other => PacketOutcome {
                step: PassStep::Continue { sleep_nanos: self.frame_sleep_nanos() },
                event: None,
                decode: false,
                send_eof: false,
            },
            PacketRead::Eof => PacketOutcome {
                step: PassStep::Exit(StreamExitResult::EOF),
                event: None,
                decode: false,
                send_eof: true,
            },
            PacketRead::Again => PacketOutcome {
                step: PassStep::Continue { sleep_nanos: None },
                event: None,
                decode: false,
                send_eof: false,
            },
            PacketRead::TimedOut => {
                let mut event: Option<InputEvent> = None;
                if !state.stalled {
                    event = Some(InputEvent::State(StreamState::Loading));
                    state.stalled = true;
                    state.is_playing = false;
                }
                PacketOutcome {
                    step: PassStep::Continue { sleep_nanos: Some(STALL_RETRY_NANOS) },
                    event,
                    decode: false,
                    send_eof: false,
                }
            },
            PacketRead::Failed => {
                let msg = String::from_str("Stream corrupted");
                proof {
                    reveal_strlit("Stream corrupted");
                    assert(msg@ =~= corrupted_message());
                }
                PacketOutcome {
                    step: PassStep::Exit(StreamExitResult::Error),
                    event: Some(InputEvent::State(StreamState::Error(msg))),
                    decode: false,
                    send_eof: false,
                }
            },
        }
    }

    /// After a pass: a legal exit ends the loop; the end of input restarts
    /// after 100 ms, reporting the stream stopped, when the session restarts
    /// automatically and ends the loop otherwise; an error restarts after
    /// 100 ms.
    pub fn after_pass(&self, result: StreamExitResult) -> (r: RestartStep)
        ensures
            r == match result {
                StreamExitResult::LegalExit => RestartStep::Stop,
                StreamExitResult::EOF => if self.info().auto_restart {
                    RestartStep::Restart { report_stopped: true, delay_ms: 100 }
                } else {
                    RestartStep::Stop
                },
                StreamExitResult::Error => RestartStep::Restart { report_stopped: false, delay_ms: 100 },
            },
    {
        match result {
            StreamExitResult::LegalExit => RestartStep::Stop,
            StreamExitResult::EOF => if self.video_info.auto_restart {
                RestartStep::Restart { report_stopped: true, delay_ms: 100 }
            } else {
                RestartStep::Stop
            },
            StreamExitResult::Error => RestartStep::Restart { report_stopped: false, delay_ms: 100 },
        }
    }

    /// Milliseconds to wait before opening the stream again after it failed
    /// to open.
    pub fn init_retry_delay_ms(&self) -> (r: u64)
        ensures
            r == 1000,
    {
        1000
    }

    /// Why the outer loop ended, for the exit log line.
    pub fn exit_reason(&self) -> (r: &'static str)
        ensures
            self.terminated() ==> r@ == seq!['t', 'e', 'r', 'm', 'i', 'n', 'a', 't', 'e', 'd'],
            !self.terminated() ==> r@ == seq!['l', 'o', 'o', 'p', '-', 'e', 'x', 'i', 't'],
    {
        proof {
            reveal_strlit("terminated");
            reveal_strlit("loop-exit");
        }
        if self.kill_sig {
            let r = "terminated";
            assert(r@ =~= seq!['t', 'e', 'r', 'm', 'i', 'n', 'a', 't', 'e', 'd']);
            r
        } else {
            let r = "loop-exit";
            assert(r@ =~= seq!['l', 'o', 'o', 'p', '-', 'e', 'x', 'i', 't']);
            r
        }
    }
}

/// The frame pacing of a session: none for RTSP or an unknown frame rate.
pub open spec fn frame_sleep_spec(s: FfmpegVideoSession) -> Option<u64> {
    if s.frame_rate() > 0 && !is_rtsp_uri(s.info().uri@) {
        Some((1_000_000_000u32 / s.frame_rate()) as u64)
    } else {
        None
    }
}

/// The result of asking the decoder for the next frame.
#[derive(Debug, Clone, Copy, PartialEq, Eq, Structural)]
pub enum FrameReceive {
    Frame,
    Again,
    InputChanged,
    Failed,
}

/// What the decoding loop does with a frame request's result.
#[derive(Debug, Clone, Copy, PartialEq, Eq, Structural)]
pub enum SampleAction {
    Stop,
    FlushAndResetScaler,
    Scale { build_scaler_to: Option<VideoDimensions> },
}

} // verus!
