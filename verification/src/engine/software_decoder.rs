//! Decoder-side logic that does not touch the codec: frame packing, the
//! double buffer of decoded frames, resize validation and the timeline
//! arithmetic that makes HLS live windows seekable.
use crate::dart_types::StreamState;
use crate::engine::ffmpeg_private::{HLSContext, Playlist};
use crate::engine::types::{VideoDimensions, VideoInfo};
use crate::engine::texture::payload::{pack_rows, packed_rows, rows_in_bounds};
use crate::text::{contains_seq, str_contains, str_equals, str_starts_with};
use vstd::prelude::*;

verus! {

/// Marker for "no timestamp".
pub const AV_NOPTS_VALUE: i64 = i64::MIN;

/// Ticks per second of the demuxer's internal time base.
pub const AV_TIME_BASE: i64 = 1000000;

/// Largest magnitude of a time-base count that can be converted without
/// overflowing the intermediate product.
pub const MAX_CONVERTIBLE_TICKS: i64 = 9223372036854;

/// Whether a time-base count can be converted to microseconds.
pub open spec fn convertible(t: int) -> bool {
    -MAX_CONVERTIBLE_TICKS <= t <= MAX_CONVERTIBLE_TICKS
}

/// Converts a count of internal time-base ticks to microseconds.
pub fn time_base_to_us(t: i64) -> (us: i64)
    requires
        convertible(t as int),
    ensures
        us == t,
{
    let scaled: i64 = t * 1000000;
    assert(scaled / 1000000 == t) by (nonlinear_arith)
        requires scaled == t * 1000000;
    scaled / AV_TIME_BASE
}

// ---------------------------------------------------------------------------
// Frames
// ---------------------------------------------------------------------------

/// A decoded RGBA frame: the decoder's buffer with its row stride, and, when
/// the rows carry padding, a tightly packed copy.
#[derive(Clone)]
pub struct FFmpegFrameWrapper {
    pub width: u32,
    pub height: u32,
    pub stride: usize,
    pub frame_data: Vec<u8>,
    pub packed: Option<Vec<u8>>,
}

impl FFmpegFrameWrapper {
    /// The bytes the texture reads.
    pub open spec fn pixels(&self) -> Seq<u8> {
        match self.packed {
            Some(p) => p@,
            None => self.frame_data@,
        }
    }

    /// Wraps a decoded frame. When its stride equals `width * 4` the
    /// decoder's buffer is used as is; otherwise the rows are copied into a
    /// contiguous buffer without their padding.
    pub fn from_frame(width: u32, height: u32, stride: usize, data: Vec<u8>) -> (f: Self)
        requires
            width * 4 <= usize::MAX,
            rows_in_bounds(data@.len(), width as nat * 4, stride as nat, height as nat),
        ensures
            f.width == width,
            f.height == height,
            f.stride == stride,
            f.frame_data@ == data@,
            stride == width * 4 ==> f.packed is None,
            stride != width * 4 ==> (f.packed matches Some(p)
                && p@ == packed_rows(data@, width as nat * 4, stride as nat, height as nat)),
    {
        let expected_stride = width as usize * 4;
        if stride == expected_stride {
            FFmpegFrameWrapper { width, height, stride, frame_data: data, packed: None }
        } else {
            let buffer = pack_rows(data.as_slice(), expected_stride, stride, height as usize);
            FFmpegFrameWrapper { width, height, stride, frame_data: data, packed: Some(buffer) }
        }
    }

    /// The pixel bytes handed to the texture: the packed copy when there is
    /// one, the decoder's buffer otherwise.
    pub fn get(&self) -> (r: &[u8])
        ensures
            r@ == self.pixels(),
    {
        match &self.packed {
            Some(p) => p.as_slice(),
            None => self.frame_data.as_slice(),
        }
    }

    /// Two frames with the same size, stride and bytes.
    pub open spec fn same_frame(&self, other: &Self) -> bool {
        &&& self.width == other.width
        &&& self.height == other.height
        &&& self.stride == other.stride
        &&& self.frame_data@ == other.frame_data@
        &&& self.packed is Some <==> other.packed is Some
        &&& self.pixels() == other.pixels()
    }

    /// An exact copy of this frame.
    pub fn duplicate(&self) -> (r: Self)
        ensures
            r.same_frame(self),
    {
        let packed = match &self.packed {
            Some(p) => Some(vstd::slice::slice_to_vec(p.as_slice())),
            None => None,
        };
        let r = FFmpegFrameWrapper {
            width: self.width,
            height: self.height,
            stride: self.stride,
            frame_data: vstd::slice::slice_to_vec(self.frame_data.as_slice()),
            packed,
        };
        assert(r.frame_data@ == self.frame_data@);
        r
    }

    /// The frame shown when nothing was decoded yet: 640x480, zeroed.
    pub fn placeholder() -> (f: Self)
        ensures
            f.width == 640,
            f.height == 480,
            f.packed is None,
            f.frame_data@.len() == 640 * 480 * 4,
            forall|i: int| 0 <= i < f.frame_data@.len() ==> f.frame_data@[i] == 0,
    {
        let n: usize = 640 * 480 * 4;
        let mut data: Vec<u8> = Vec::with_capacity(n);
        let mut i: usize = 0;
        while i < n
            invariant
                i <= n,
                n == 640 * 480 * 4,
                data@.len() == i,
                forall|k: int| 0 <= k < i ==> data@[k] == 0,
            decreases n - i,
        {
            data.push(0u8);
            i = i + 1;
        }
        FFmpegFrameWrapper { width: 640, height: 480, stride: 640 * 4, frame_data: data, packed: None }
    }
}

/// The decoder's double buffer: the frame on screen and the one before it.
pub struct PayloadHolder {
    current_frame: Option<Box<FFmpegFrameWrapper>>,
    previous_frame: Option<Box<FFmpegFrameWrapper>>,
}

impl PayloadHolder {
    /// The frame on screen, if any.
    pub closed spec fn current(&self) -> Option<FFmpegFrameWrapper> {
        match self.current_frame {
            Some(f) => Some(*f),
            None => None,
        }
    }

    /// The frame shown before the current one, if any.
    pub closed spec fn previous(&self) -> Option<FFmpegFrameWrapper> {
        match self.previous_frame {
            Some(f) => Some(*f),
            None => None,
        }
    }

    /// An empty holder.
    pub fn new() -> (h: Self)
        ensures
            h.current() is None,
            h.previous() is None,
    {
        PayloadHolder { current_frame: None, previous_frame: None }
    }

    /// Puts `payload` on screen; what was on screen becomes the previous frame.
    pub fn set_payload(&mut self, payload: Box<FFmpegFrameWrapper>)
        ensures
            final(self).current() == Some(*payload),
            final(self).previous() == old(self).current(),
    {
        let prev = self.current_frame.take();
        self.previous_frame = prev;
        self.current_frame = Some(payload);
    }

    /// The frame shown before the current one.
    pub fn previous_frame(&self) -> (r: Option<&FFmpegFrameWrapper>)
        ensures
            match r {
                Some(f) => self.previous() == Some(*f),
                None => self.previous() is None,
            },
    {
        match &self.previous_frame {
            Some(f) => Some(&**f),
            None => None,
        }
    }

    /// What the texture shows: a copy of the current frame, else of the
    /// previous one, else the placeholder frame.
    pub fn get_payload(&self) -> (r: Box<FFmpegFrameWrapper>)
        ensures
            match self.current() {
                Some(c) => r.same_frame(&c),
                None => match self.previous() {
                    Some(p) => r.same_frame(&p),
                    None => r.width == 640 && r.height == 480 && r.packed is None
                        && r.frame_data@.len() == 640 * 480 * 4,
                },
            },
    {
        match &self.current_frame {
            Some(f) => Box::new(f.duplicate()),
            None => match &self.previous_frame {
                Some(f) => Box::new(f.duplicate()),
                None => Box::new(FFmpegFrameWrapper::placeholder()),
            },
        }
    }
}

// ---------------------------------------------------------------------------
// Resize validation
// ---------------------------------------------------------------------------

/// Why a requested output size was refused.
#[derive(Debug, Clone, Copy, PartialEq, Eq, Structural)]
pub enum DimensionError {
    /// A side was zero.
    Invalid { width: u32, height: u32 },
    /// A side, after rounding down to even, exceeds 7680.
    TooLarge { width: u32, height: u32 },
    /// A side, after rounding down to even, is below 2.
    TooSmall { width: u32, height: u32 },
}

/// Largest accepted side of an output surface.
pub const MAX_DIMENSION: u32 = 7680;

/// Smallest accepted side of an output surface.
pub const MIN_DIMENSION: u32 = 2;

/// An odd side rounded down to even, but never below 2.
pub open spec fn even_side(x: u32) -> u32 {
    if x % 2 != 0 {
        if x >= 3 { (x - 1) as u32 } else { 2u32 }
    } else {
        x
    }
}

/// The outcome of validating a requested output size.
pub open spec fn sanitized(width: u32, height: u32) -> Result<(u32, u32), DimensionError> {
    let w = even_side(width);
    let h = even_side(height);
    if width == 0 || height == 0 {
        Err(DimensionError::Invalid { width, height })
    } else if w > MAX_DIMENSION || h > MAX_DIMENSION {
        Err(DimensionError::TooLarge { width: w, height: h })
    } else if w < MIN_DIMENSION || h < MIN_DIMENSION {
        Err(DimensionError::TooSmall { width: w, height: h })
    } else {
        Ok((w, h))
    }
}

fn round_to_even(x: u32) -> (r: u32)
    ensures
        r == even_side(x),
{
    if x % 2 != 0 {
        let down = x.saturating_sub(1);
        if down < 2 { 2 } else { down }
    } else {
        x
    }
}

/// Validates a requested output size: zero sides are refused, odd sides are
/// rounded down to even (to at least 2), and the result must lie within
/// `2..=7680` on both sides.
pub fn sanitize_dimensions(width: u32, height: u32) -> (r: Result<(u32, u32), DimensionError>)
    ensures
        r == sanitized(width, height),
{
    if width == 0 || height == 0 {
        return Err(DimensionError::Invalid { width, height });
    }
    let new_width = round_to_even(width);
    let new_height = round_to_even(height);
    if new_width > MAX_DIMENSION || new_height > MAX_DIMENSION {
        return Err(DimensionError::TooLarge { width: new_width, height: new_height });
    }
    if new_width < MIN_DIMENSION || new_height < MIN_DIMENSION {
        return Err(DimensionError::TooSmall { width: new_width, height: new_height });
    }
    Ok((new_width, new_height))
}

/// Every accepted size is even on both sides and within the limits.
pub proof fn lemma_sanitized_sizes_are_even_and_bounded(width: u32, height: u32)
    ensures
        sanitized(width, height) matches Ok((w, h)) ==> w % 2 == 0 && h % 2 == 0
            && MIN_DIMENSION <= w <= MAX_DIMENSION && MIN_DIMENSION <= h <= MAX_DIMENSION,
{
}

/// Validation leaves an already valid size unchanged.
pub proof fn lemma_sanitize_is_idempotent(width: u32, height: u32)
    ensures
        sanitized(width, height) matches Ok((w, h)) ==> sanitized(w, h) == Ok::<(u32, u32), DimensionError>((w, h)),
{
}

// ---------------------------------------------------------------------------
// Timelines
// ---------------------------------------------------------------------------

/// Timeline of an HLS live window. The start of the window in stream time is
/// the timestamp of a packet minus the duration of the segments before the
/// one being played.
#[derive(Debug, Clone, Copy, PartialEq, Eq, Structural)]
pub struct HLSTimelineContext {
    /// Virtual start time in microseconds, or the "no timestamp" marker.
    pub hls_start_time: i64,
    /// Microseconds from the start of the playlist to the current segment.
    pub hls_cur_duration: i64,
    /// Sequence number seen at the last update, or the marker.
    pub hls_prev_seq_no: i64,
    /// Last packet timestamp, or the marker.
    pub last_packet_timestamp: i64,
    /// Whether the timeline was updated from a playlist at least once.
    pub is_initialized: bool,
}

/// Whether a playlist can be read for a timeline update without overflow.
pub open spec fn playlist_ready(p: Playlist) -> bool {
    &&& p.wf()
    &&& p.sums_fit(p.segments_before(p.cur_seq_no as int))
    &&& convertible(elapsed_before_current(p))
}

/// Duration of the segments before the one being played.
pub open spec fn elapsed_before_current(p: Playlist) -> int {
    p.prefix_duration(p.segments_before(p.cur_seq_no as int))
}

impl HLSTimelineContext {
    /// The state right after creation: nothing known yet.
    pub open spec fn initial() -> Self {
        HLSTimelineContext {
            hls_start_time: AV_NOPTS_VALUE,
            hls_cur_duration: 0,
            hls_prev_seq_no: AV_NOPTS_VALUE,
            last_packet_timestamp: AV_NOPTS_VALUE,
            is_initialized: false,
        }
    }

    /// Whether `format_name` and `hls` describe an HLS demuxer with a playlist.
    pub open spec fn can_track(format_name: Seq<char>, hls: Option<HLSContext>) -> bool {
        &&& format_name == seq!['h', 'l', 's']
        &&& (hls matches Some(h) && h.playlist_at(0) is Some)
    }

    /// Starts tracking an HLS demuxer; `None` when the format is not HLS or
    /// there is no context or no playlist.
    pub fn new(format_name: &str, hls: Option<&HLSContext>) -> (r: Option<Self>)
        requires
            hls matches Some(h) ==> h.wf(),
        ensures
            r is Some <==> Self::can_track(format_name@, match hls { Some(h) => Some(*h), None => None }),
            r matches Some(c) ==> c == Self::initial(),
    {
        let expected = "hls";
        proof {
            reveal_strlit("hls");
            assert(expected@ =~= seq!['h', 'l', 's']);
        }
        if !str_equals(format_name, expected) {
            return None;
        }
        match hls {
            None => None,
            Some(h) => match h.get_first_playlist() {
                None => None,
                Some(_) => Some(HLSTimelineContext {
                    hls_start_time: AV_NOPTS_VALUE,
                    hls_cur_duration: 0,
                    hls_prev_seq_no: AV_NOPTS_VALUE,
                    last_packet_timestamp: AV_NOPTS_VALUE,
                    is_initialized: false,
                }),
            },
        }
    }

    /// The state after reading playlist `p`: on the first read, or when the
    /// sequence number moved, the elapsed duration is taken from the playlist;
    /// when it moved, the start time is forgotten too.
    pub open spec fn after_playlist(self, p: Playlist) -> Self {
        let cur = p.cur_seq_no;
        let d = elapsed_before_current(p) as i64;
        if self.hls_prev_seq_no != AV_NOPTS_VALUE && cur != self.hls_prev_seq_no {
            HLSTimelineContext {
                hls_prev_seq_no: cur,
                hls_start_time: AV_NOPTS_VALUE,
                hls_cur_duration: d,
                is_initialized: true,
                ..self
            }
        } else if self.hls_prev_seq_no == AV_NOPTS_VALUE {
            HLSTimelineContext {
                hls_prev_seq_no: cur,
                hls_cur_duration: d,
                is_initialized: true,
                ..self
            }
        } else {
            HLSTimelineContext { is_initialized: true, ..self }
        }
    }

    /// Reads the playlist; with no playlist nothing changes.
    pub fn update_hls_timeline(&mut self, playlist: Option<&Playlist>)
        requires
            playlist matches Some(p) ==> playlist_ready(*p),
        ensures
            match playlist {
                Some(p) => *final(self) == old(self).after_playlist(*p),
                None => *final(self) == *old(self),
            },
    {
        let p = match playlist {
            Some(p) => p,
            None => return,
        };
        let cur_seq_no = p.cur_seq_no;
        let duration_until_seq = p.calculate_duration_until_seq(cur_seq_no);
        let prev_seq_no = self.hls_prev_seq_no;
        if prev_seq_no != AV_NOPTS_VALUE && cur_seq_no != prev_seq_no {
            self.hls_prev_seq_no = cur_seq_no;
            self.hls_start_time = AV_NOPTS_VALUE;
            self.hls_cur_duration = time_base_to_us(duration_until_seq);
        } else if prev_seq_no == AV_NOPTS_VALUE {
            self.hls_prev_seq_no = cur_seq_no;
            self.hls_cur_duration = time_base_to_us(duration_until_seq);
        }
        self.is_initialized = true;
    }

    /// Whether a packet timestamp can be taken without overflow.
    pub open spec fn packet_ok(self, ts: i64) -> bool {
        ts == AV_NOPTS_VALUE || !(self.hls_start_time == AV_NOPTS_VALUE && self.hls_cur_duration > 0)
            || ts - self.hls_cur_duration >= i64::MIN
    }

    /// The state after seeing a packet at `ts`: the timestamp is remembered,
    /// and the start time, when still unknown and the elapsed duration is
    /// positive, becomes `ts` minus that duration.
    pub open spec fn after_packet(self, ts: i64) -> Self {
        if ts == AV_NOPTS_VALUE {
            self
        } else if self.hls_start_time == AV_NOPTS_VALUE && self.hls_cur_duration > 0 {
            HLSTimelineContext {
                last_packet_timestamp: ts,
                hls_start_time: (ts - self.hls_cur_duration) as i64,
                ..self
            }
        } else {
            HLSTimelineContext { last_packet_timestamp: ts, ..self }
        }
    }

    /// Takes the timestamp of a packet.
    pub fn update_start_time_from_packet(&mut self, packet_timestamp_us: i64)
        requires
            old(self).packet_ok(packet_timestamp_us),
        ensures
            *final(self) == old(self).after_packet(packet_timestamp_us),
    {
        if packet_timestamp_us == AV_NOPTS_VALUE {
            return;
        }
        self.last_packet_timestamp = packet_timestamp_us;
        if self.hls_start_time == AV_NOPTS_VALUE && self.hls_cur_duration > 0 {
            self.hls_start_time = packet_timestamp_us - self.hls_cur_duration;
        }
    }

    /// Whether a periodic update with context `h` runs without overflow.
    pub open spec fn update_ok(self, h: HLSContext) -> bool {
        &&& h.wf()
        &&& h.playlist_at(0) matches Some(p) ==> playlist_ready(p)
        &&& h.first_timestamp != AV_NOPTS_VALUE ==> convertible(h.first_timestamp as int)
        &&& h.first_timestamp != AV_NOPTS_VALUE ==> self.after_first_playlist(h).packet_ok(h.first_timestamp)
    }

    /// The state after reading the first playlist of `h`, if there is one.
    pub open spec fn after_first_playlist(self, h: HLSContext) -> Self {
        match h.playlist_at(0) {
            Some(p) => self.after_playlist(p),
            None => self,
        }
    }

    /// The state after a periodic update: the first playlist is read, then,
    /// if the start time is still unknown, the elapsed duration positive and
    /// the demuxer has a first timestamp, that timestamp is taken as a packet.
    pub open spec fn after_update(self, h: HLSContext) -> Self {
        let s = self.after_first_playlist(h);
        if s.hls_start_time == AV_NOPTS_VALUE && s.hls_cur_duration > 0
            && h.first_timestamp != AV_NOPTS_VALUE {
            s.after_packet(h.first_timestamp)
        } else {
            s
        }
    }

    /// Periodic update from the demuxer's HLS context.
    pub fn update_timeline(&mut self, hls: &HLSContext)
        requires
            old(self).update_ok(*hls),
        ensures
            *final(self) == old(self).after_update(*hls),
    {
        self.update_hls_timeline(hls.get_first_playlist());
        if self.hls_start_time == AV_NOPTS_VALUE && self.hls_cur_duration > 0
            && hls.first_timestamp != AV_NOPTS_VALUE {
            let first_timestamp_us = time_base_to_us(hls.first_timestamp);
            self.update_start_time_from_packet(first_timestamp_us);
        }
    }

    /// The demuxer's first timestamp in microseconds, 0 when it has none.
    pub open spec fn first_timestamp_us(h: HLSContext) -> int {
        if h.first_timestamp != AV_NOPTS_VALUE { h.first_timestamp as int } else { 0 }
    }

    /// Where a seek to `ts` lands: unchanged while the start time is unknown,
    /// otherwise shifted by the start time and back by the first timestamp.
    pub open spec fn adjusted(self, ts: i64, h: HLSContext) -> int {
        if self.hls_start_time == AV_NOPTS_VALUE {
            ts as int
        } else {
            ts + self.hls_start_time - Self::first_timestamp_us(h)
        }
    }

    /// Whether adjusting `ts` runs without overflow.
    pub open spec fn adjust_ok(self, ts: i64, h: HLSContext) -> bool {
        self.hls_start_time != AV_NOPTS_VALUE ==> {
            &&& h.first_timestamp != AV_NOPTS_VALUE ==> convertible(h.first_timestamp as int)
            &&& i64::MIN <= ts + self.hls_start_time <= i64::MAX
            &&& i64::MIN <= self.adjusted(ts, h) <= i64::MAX
        }
    }

    /// Maps a requested position on the virtual timeline to a demuxer
    /// timestamp.
    pub fn adjust_seek_timestamp(&self, timestamp_us: i64, hls: &HLSContext) -> (r: i64)
        requires
            self.adjust_ok(timestamp_us, *hls),
        ensures
            r == self.adjusted(timestamp_us, *hls),
    {
        if self.hls_start_time == AV_NOPTS_VALUE {
            return timestamp_us;
        }
        let first_timestamp: i64 = if hls.first_timestamp != AV_NOPTS_VALUE {
            time_base_to_us(hls.first_timestamp)
        } else {
            0
        };
        timestamp_us + self.hls_start_time - first_timestamp
    }

    /// The start of the window, 0 while unknown.
    pub fn get_time_offset(&self) -> (r: i64)
        ensures
            r == (if self.hls_start_time != AV_NOPTS_VALUE { self.hls_start_time } else { 0 }),
    {
        if self.hls_start_time != AV_NOPTS_VALUE {
            self.hls_start_time
        } else {
            0
        }
    }

    /// Seeking needs an initialized timeline with a known start time.
    pub fn is_seekable(&self) -> (r: bool)
        ensures
            r == (self.is_initialized && self.hls_start_time != AV_NOPTS_VALUE),
    {
        self.is_initialized && self.hls_start_time != AV_NOPTS_VALUE
    }
}

/// A fresh timeline becomes seekable once it has read a playlist with
/// segments before the current one and then seen a packet: its window then
/// starts at the packet's timestamp minus the elapsed duration.
pub proof fn lemma_hls_seekable_after_playlist_and_packet(p: Playlist, ts: i64)
    requires
        playlist_ready(p),
        elapsed_before_current(p) > 0,
        ts != AV_NOPTS_VALUE,
        ts - elapsed_before_current(p) > i64::MIN,
    ensures
        ({
            let s = HLSTimelineContext::initial().after_playlist(p).after_packet(ts);
            &&& s.is_initialized
            &&& s.hls_start_time != AV_NOPTS_VALUE
            &&& s.hls_start_time == ts - elapsed_before_current(p)
        }),
{
}

/// When the playlist's sequence number moves, the window start is forgotten,
/// so seeking is refused until the next packet.
pub proof fn lemma_hls_sequence_change_resets_start(s: HLSTimelineContext, p: Playlist)
    requires
        s.hls_prev_seq_no != AV_NOPTS_VALUE,
        p.cur_seq_no != s.hls_prev_seq_no,
    ensures
        s.after_playlist(p).hls_start_time == AV_NOPTS_VALUE,
        s.after_playlist(p).hls_prev_seq_no == p.cur_seq_no,
{
}

/// A playlist read takes the elapsed duration from the playlist whenever
/// the sequence number is new to the timeline (the first read, or a read
/// after it moved): it becomes the summed durations of the segments before
/// the current sequence number. A read at an unchanged sequence number
/// keeps the elapsed duration and the window start.
pub proof fn lemma_hls_elapsed_follows_playlist(s: HLSTimelineContext, p: Playlist)
    requires
        playlist_ready(p),
    ensures
        (s.hls_prev_seq_no == AV_NOPTS_VALUE || p.cur_seq_no != s.hls_prev_seq_no)
            ==> s.after_playlist(p).hls_cur_duration == p.prefix_duration(p.segments_before(p.cur_seq_no as int)),
        (s.hls_prev_seq_no != AV_NOPTS_VALUE && p.cur_seq_no == s.hls_prev_seq_no)
            ==> s.after_playlist(p).hls_cur_duration == s.hls_cur_duration
            && s.after_playlist(p).hls_start_time == s.hls_start_time,
        s.after_playlist(p).hls_prev_seq_no == p.cur_seq_no,
        s.after_playlist(p).is_initialized,
{
}

/// Once a playlist read at a new sequence number is followed by a packet at
/// `ts`, a seek to `req` on the virtual timeline lands `req` after the window
/// start, which is the packet's time minus the summed durations of the
/// segments before the current one (for a demuxer without a first
/// timestamp; a window start equal to the "no timestamp" value is left out).
pub proof fn lemma_hls_seek_lands_in_window(s: HLSTimelineContext, p: Playlist, ts: i64, req: i64, h: HLSContext)
    requires
        playlist_ready(p),
        (s.hls_prev_seq_no != AV_NOPTS_VALUE && p.cur_seq_no != s.hls_prev_seq_no)
            || (s.hls_prev_seq_no == AV_NOPTS_VALUE && s.hls_start_time == AV_NOPTS_VALUE),
        ts != AV_NOPTS_VALUE,
        p.prefix_duration(p.segments_before(p.cur_seq_no as int)) > 0,
        ts - p.prefix_duration(p.segments_before(p.cur_seq_no as int)) > i64::MIN,
        h.first_timestamp == AV_NOPTS_VALUE,
    ensures
        s.after_playlist(p).after_packet(ts).adjusted(req, h)
            == req + ts - p.prefix_duration(p.segments_before(p.cur_seq_no as int)),
{
    let d = p.prefix_duration(p.segments_before(p.cur_seq_no as int));
    assert(convertible(d));
    assert(s.after_playlist(p).hls_cur_duration == d as i64);
    assert(i64::MIN < ts - d <= i64::MAX);
}

/// Seeking is never allowed before the first playlist read.
pub proof fn lemma_hls_not_seekable_before_init(s: HLSTimelineContext)
    requires
        !s.is_initialized,
    ensures
        !(s.is_initialized && s.hls_start_time != AV_NOPTS_VALUE),
{
}

/// Timeline of a stream without segments: a fixed start time.
#[derive(Debug, Clone, Copy, PartialEq, Eq, Structural)]
pub struct StandardTimelineContext {
    /// Stream start time in microseconds.
    pub start_time: i64,
}

impl StandardTimelineContext {
    pub fn new(start_time: i64) -> (r: Self)
        ensures
            r.start_time == start_time,
    {
        StandardTimelineContext { start_time }
    }

    /// A requested position plus the stream's start time.
    pub fn adjust_seek_timestamp(&self, timestamp_us: i64) -> (r: i64)
        requires
            i64::MIN <= timestamp_us + self.start_time <= i64::MAX,
        ensures
            r == timestamp_us + self.start_time,
    {
        timestamp_us + self.start_time
    }

    pub fn get_time_offset(&self) -> (r: i64)
        ensures
            r == self.start_time,
    {
        self.start_time
    }

    pub fn is_seekable(&self) -> (r: bool)
        ensures
            r,
    {
        true
    }
}

/// The timeline a decoding context keeps for its stream.
#[derive(Debug, Clone, Copy, PartialEq, Eq, Structural)]
pub enum TimelineContext {
    Hls(HLSTimelineContext),
    Standard(StandardTimelineContext),
}

/// Whether a URI names an HLS stream.
pub open spec fn is_hls_uri(uri: Seq<char>) -> bool {
    contains_seq(uri, seq!['.', 'm', '3', 'u', '8']) || contains_seq(uri, seq!['h', 'l', 's'])
}

/// Whether a URI names an RTSP stream.
pub open spec fn is_rtsp_uri(uri: Seq<char>) -> bool {
    seq!['r', 't', 's', 'p'].is_prefix_of(uri)
}

/// Whether the stream at `uri` is an HLS stream.
pub fn uri_is_hls(uri: &str) -> (r: bool)
    ensures
        r == is_hls_uri(uri@),
{
    let m3u8 = ".m3u8";
    let hls = "hls";
    proof {
        reveal_strlit(".m3u8");
        reveal_strlit("hls");
        assert(m3u8@ =~= seq!['.', 'm', '3', 'u', '8']);
        assert(hls@ =~= seq!['h', 'l', 's']);
    }
    str_contains(uri, m3u8) || str_contains(uri, hls)
}

/// Whether the stream at `uri` is an RTSP stream.
pub fn uri_is_rtsp(uri: &str) -> (r: bool)
    ensures
        r == is_rtsp_uri(uri@),
{
    let rtsp = "rtsp";
    proof {
        reveal_strlit("rtsp");
        assert(rtsp@ =~= seq!['r', 't', 's', 'p']);
    }
    str_starts_with(uri, rtsp)
}

/// A stream is offered as seekable when it is HLS or RTSP.
pub fn stream_is_seekable(uri: &str) -> (r: bool)
    ensures
        r == (is_hls_uri(uri@) || is_rtsp_uri(uri@)),
{
    uri_is_hls(uri) || uri_is_rtsp(uri)
}

/// The start time of a container in microseconds, 0 when unknown.
pub open spec fn container_start_us(start_time: i64) -> i64 {
    if start_time != AV_NOPTS_VALUE { start_time } else { 0 }
}

impl TimelineContext {
    /// The timeline chosen when a stream is opened: an HLS timeline when the
    /// URI names HLS and the demuxer is HLS with a playlist, otherwise a
    /// fixed timeline at the container's start time.
    pub fn for_stream(uri: &str, format_name: &str, hls: Option<&HLSContext>, container_start_time: i64) -> (r: Self)
        requires
            hls matches Some(h) ==> h.wf(),
            container_start_time != AV_NOPTS_VALUE ==> convertible(container_start_time as int),
        ensures
            (is_hls_uri(uri@) && HLSTimelineContext::can_track(format_name@, match hls { Some(h) => Some(*h), None => None }))
                ==> r == TimelineContext::Hls(HLSTimelineContext::initial()),
            !(is_hls_uri(uri@) && HLSTimelineContext::can_track(format_name@, match hls { Some(h) => Some(*h), None => None }))
                ==> r == TimelineContext::Standard(StandardTimelineContext { start_time: container_start_us(container_start_time) }),
    {
        let start_time: i64 = if container_start_time != AV_NOPTS_VALUE {
            time_base_to_us(container_start_time)
        } else {
            0
        };
        if uri_is_hls(uri) {
            match HLSTimelineContext::new(format_name, hls) {
                Some(ctx) => TimelineContext::Hls(ctx),
                None => TimelineContext::Standard(StandardTimelineContext::new(start_time)),
            }
        } else {
            TimelineContext::Standard(StandardTimelineContext::new(start_time))
        }
    }

    pub fn is_seekable(&self) -> (r: bool)
        ensures
            r == match self {
                TimelineContext::Hls(c) => c.is_initialized && c.hls_start_time != AV_NOPTS_VALUE,
                TimelineContext::Standard(_) => true,
            },
    {
        match self {
            TimelineContext::Hls(c) => c.is_seekable(),
            TimelineContext::Standard(c) => c.is_seekable(),
        }
    }

    pub fn get_time_offset(&self) -> (r: i64)
        ensures
            r == match self {
                TimelineContext::Hls(c) => if c.hls_start_time != AV_NOPTS_VALUE { c.hls_start_time } else { 0 },
                TimelineContext::Standard(c) => c.start_time,
            },
    {
        match self {
            TimelineContext::Hls(c) => c.get_time_offset(),
            TimelineContext::Standard(c) => c.get_time_offset(),
        }
    }

    /// Where a seek to `ts` lands on this timeline.
    pub open spec fn adjusted(self, ts: i64, h: HLSContext) -> int {
        match self {
            TimelineContext::Hls(c) => c.adjusted(ts, h),
            TimelineContext::Standard(c) => ts + c.start_time,
        }
    }

    /// Whether adjusting `ts` runs without overflow.
    pub open spec fn adjust_ok(self, ts: i64, h: HLSContext) -> bool {
        match self {
            TimelineContext::Hls(c) => c.adjust_ok(ts, h),
            TimelineContext::Standard(c) => i64::MIN <= ts + c.start_time <= i64::MAX,
        }
    }

    pub fn adjust_seek_timestamp(&self, timestamp_us: i64, hls: &HLSContext) -> (r: i64)
        requires
            self.adjust_ok(timestamp_us, *hls),
        ensures
            r == self.adjusted(timestamp_us, *hls),
    {
        match self {
            TimelineContext::Hls(c) => c.adjust_seek_timestamp(timestamp_us, hls),
            TimelineContext::Standard(c) => c.adjust_seek_timestamp(timestamp_us),
        }
    }

    /// Periodic update: HLS timelines read the demuxer context, fixed ones
    /// stay as they are.
    pub fn update_timeline(&mut self, hls: &HLSContext)
        requires
            *old(self) matches TimelineContext::Hls(c) ==> c.update_ok(*hls),
        ensures
            match *old(self) {
                TimelineContext::Hls(c) => *final(self) == TimelineContext::Hls(c.after_update(*hls)),
                TimelineContext::Standard(c) => *final(self) == *old(self),
            },
    {
        match self {
            TimelineContext::Hls(c) => c.update_timeline(hls),
            TimelineContext::Standard(_) => {},
        }
    }

    /// Takes a packet timestamp: HLS timelines may learn their start time,
    /// fixed ones ignore it.
    pub fn update_from_packet(&mut self, packet_timestamp_us: i64)
        requires
            *old(self) matches TimelineContext::Hls(c) ==> c.packet_ok(packet_timestamp_us),
        ensures
            match *old(self) {
                TimelineContext::Hls(c) => *final(self) == TimelineContext::Hls(c.after_packet(packet_timestamp_us)),
                TimelineContext::Standard(c) => *final(self) == *old(self),
            },
    {
        match self {
            TimelineContext::Hls(c) => c.update_start_time_from_packet(packet_timestamp_us),
            TimelineContext::Standard(_) => {},
        }
    }
}

/// Why a seek could not be planned.
#[derive(Debug, Clone, Copy, PartialEq, Eq, Structural)]
pub enum SeekError {
    /// No stream is open.
    NoContext,
    /// The HLS timeline has not seen enough to place a seek.
    TimelineNotReady,
}

/// The demuxer position a seek to `ts` goes to: `ts` clamped at 0, moved
/// onto the demuxer's timeline, clamped at 0 again.
pub open spec fn seek_position(t: TimelineContext, ts: i64, h: HLSContext) -> int {
    let clamped = if ts < 0 { 0i64 } else { ts };
    let adjusted = t.adjusted(clamped, h);
    if adjusted < 0 { 0 } else { adjusted }
}

/// Plans a seek: refuses when there is no stream or the timeline is not yet
/// seekable, and otherwise returns the demuxer position in microseconds.
pub fn plan_seek(timeline: Option<&TimelineContext>, hls: &HLSContext, timestamp_us: i64) -> (r: Result<i64, SeekError>)
    requires
        timeline matches Some(t) ==> t.adjust_ok(if timestamp_us < 0 { 0i64 } else { timestamp_us }, *hls),
    ensures
        match timeline {
            None => r == Err::<i64, SeekError>(SeekError::NoContext),
            Some(t) => if !(match *t {
                TimelineContext::Hls(c) => c.is_initialized && c.hls_start_time != AV_NOPTS_VALUE,
                TimelineContext::Standard(_) => true,
            }) {
                r == Err::<i64, SeekError>(SeekError::TimelineNotReady)
            } else {
                (r matches Ok(pos) && pos == seek_position(*t, timestamp_us, *hls))
            },
        },
{
    let t = match timeline {
        None => return Err(SeekError::NoContext),
        Some(t) => t,
    };
    let clamped = if timestamp_us < 0 { 0i64 } else { timestamp_us };
    if !t.is_seekable() {
        return Err(SeekError::TimelineNotReady);
    }
    let adjusted = t.adjust_seek_timestamp(clamped, hls);
    let position = if adjusted < 0 { 0i64 } else { adjusted };
    Ok(position)
}

/// A planned seek never targets a negative position.
pub proof fn lemma_seek_position_nonnegative(t: TimelineContext, ts: i64, h: HLSContext)
    ensures
        seek_position(t, ts, h) >= 0,
{
}

/// The steps of a seek once its position is planned: flush the decoder and
/// seek with the position as the latest allowed timestamp; if that fails,
/// seek again with it as the earliest allowed one.
#[derive(Debug, Clone, Copy, PartialEq, Eq, Structural)]
pub enum SeekStep {
    /// Flush the decoder, then seek to the position, landing at or before it.
    FlushThenForward(i64),
    /// Seek to the position, landing at or after it.
    Backward(i64),
    /// The stream is at the new position: drop the frame-pacing state and
    /// report success.
    Done,
    /// Both seeks failed: report the failure.
    Failed,
}

/// The step after a seek attempt that succeeded or not.
pub open spec fn step_after_attempt(step: SeekStep, succeeded: bool) -> SeekStep {
    match step {
        SeekStep::FlushThenForward(p) => if succeeded { SeekStep::Done } else { SeekStep::Backward(p) },
        SeekStep::Backward(_) => if succeeded { SeekStep::Done } else { SeekStep::Failed },
        _ => step,
    }
}

/// Whether a seek first clears the demuxer's "unseekable" flag: for the HLS
/// demuxer only, whose live streams are marked unseekable.
pub fn clears_unseekable_flag(format_name: &str) -> (r: bool)
    ensures
        r == (format_name@ == "hls"@),
{
    str_equals(format_name, "hls")
}

/// What follows a seek attempt: success ends the seek; a failed forward seek
/// is retried backward at the same position; a failed backward seek fails.
pub fn after_seek_attempt(step: SeekStep, succeeded: bool) -> (r: SeekStep)
    ensures
        r == step_after_attempt(step, succeeded),
{
    match step {
        SeekStep::FlushThenForward(p) => if succeeded { SeekStep::Done } else { SeekStep::Backward(p) },
        SeekStep::Backward(_) => if succeeded { SeekStep::Done } else { SeekStep::Failed },
        _ => step,
    }
}

/// A seek to a planned position succeeds exactly when the forward attempt
/// or the backward retry does, and it makes at most these two attempts, both
/// at the planned position.
pub proof fn lemma_seek_succeeds_iff_an_attempt_does(position: i64, forward_ok: bool, backward_ok: bool)
    ensures
        ({
            let after_forward = step_after_attempt(SeekStep::FlushThenForward(position), forward_ok);
            let last = if after_forward == SeekStep::Backward(position) {
                step_after_attempt(after_forward, backward_ok)
            } else {
                after_forward
            };
            &&& (last == SeekStep::Done) <==> (forward_ok || backward_ok)
            &&& (last == SeekStep::Failed) <==> (!forward_ok && !backward_ok)
            &&& forward_ok ==> after_forward == SeekStep::Done
            &&& !forward_ok ==> after_forward == SeekStep::Backward(position)
        }),
{
}

/// A seek to a time before the start goes where a seek to the start goes.
pub proof fn lemma_negative_seek_is_seek_to_start(t: TimelineContext, ts: i64, h: HLSContext)
    requires
        ts < 0,
    ensures
        seek_position(t, ts, h) == seek_position(t, 0, h),
{
}

/// How a streaming pass over an open stream ended.
#[derive(Debug, Clone, Copy, PartialEq, Eq, Structural)]
pub enum StreamExitResult {
    LegalExit,
    EOF,
    Error,
}

/// Nanoseconds between frames at `framerate` frames per second; none when
/// the rate is unknown (zero).
pub fn frame_interval_nanos(framerate: u32) -> (r: Option<u64>)
    ensures
        framerate == 0 ==> r is None,
        framerate > 0 ==> r == Some((1_000_000_000u32 / framerate) as u64),
{
    if framerate > 0 {
        Some((1_000_000_000u32 / framerate) as u64)
    } else {
        None
    }
}

// ---------------------------------------------------------------------------
// Decoder session
// ---------------------------------------------------------------------------

/// Why a stream could not be opened for decoding.
#[derive(Debug, Clone, Copy, PartialEq, Eq, Structural)]
pub enum DecoderError {
    /// The decoder reports a frame side of zero.
    InvalidData,
}

/// Why a resize could not be done.
#[derive(Debug, Clone, Copy, PartialEq, Eq, Structural)]
pub enum ResizeError {
    Dimensions(DimensionError),
    /// No stream is open.
    NoContext,
}

/// The state of a decoding session with HLS-aware seeking. The codec
/// objects live with the caller; this holds what the session decides with.
pub struct SoftwareDecoder {
    video_info: VideoInfo,
    kill_sig: bool,
    session_id: i64,
    ffmpeg_options: Option<Vec<(String, String)>>,
    seekable: bool,
    output_dimensions: VideoDimensions,
    timeline: Option<TimelineContext>,
    framerate: u32,
}

/// What a packet read in a streaming pass amounts to.
#[derive(Debug, Clone, Copy, PartialEq, Eq, Structural)]
pub enum DecoderRead {
    /// A packet of the video stream, with its timestamp (presentation, else
    /// decoding) in stream time-base ticks when it has one, and whether the
    /// decoder took it.
    Video { timestamp: Option<i64>, sent: bool },
    /// A packet of another stream.
    Other,
    /// The input ended.
    Eof,
    /// Nothing available right now.
    Again,
    /// Any other read error.
    Failed,
}

/// What a streaming pass does after a packet read.
#[derive(Debug, Clone, Copy, PartialEq, Eq, Structural)]
pub enum DecoderStep {
    /// Read again, after sleeping this many nanoseconds when given.
    Continue { sleep_nanos: Option<u64> },
    /// End the pass with this result.
    Exit(StreamExitResult),
}

/// Nanoseconds to wait before reading again when nothing was available.
pub const AGAIN_RETRY_NANOS: u64 = 10_000_000;

/// Microseconds per tick of a stream time base `num/den`, as an integer.
pub open spec fn time_base_us(num: i32, den: i32) -> int {
    (num as int * 1000000) / (den as int)
}

impl SoftwareDecoder {
    pub closed spec fn info(&self) -> VideoInfo {
        self.video_info
    }

    pub closed spec fn terminated(&self) -> bool {
        self.kill_sig
    }

    pub closed spec fn is_seekable_stream(&self) -> bool {
        self.seekable
    }

    pub closed spec fn output_size(&self) -> VideoDimensions {
        self.output_dimensions
    }

    pub closed spec fn timeline_ctx(&self) -> Option<TimelineContext> {
        self.timeline
    }

    pub closed spec fn frame_rate(&self) -> u32 {
        self.framerate
    }

    pub closed spec fn demuxer_options(&self) -> Option<Vec<(String, String)>> {
        self.ffmpeg_options
    }

    /// A session that has not opened its stream yet, writing frames of
    /// `initial_dimensions`.
    pub fn new(
        video_info: VideoInfo,
        session_id: i64,
        ffmpeg_options: Option<Vec<(String, String)>>,
        initial_dimensions: VideoDimensions,
    ) -> (s: Self)
        ensures
            s.info() == video_info,
            !s.terminated(),
            !s.is_seekable_stream(),
            s.output_size() == initial_dimensions,
            s.timeline_ctx() is None,
            s.demuxer_options() == ffmpeg_options,
    {
        SoftwareDecoder {
            video_info,
            kill_sig: false,
            session_id,
            ffmpeg_options,
            seekable: false,
            output_dimensions: initial_dimensions,
            timeline: None,
            framerate: 0,
        }
    }

    /// The options handed to the demuxer when the stream is opened.
    pub fn ffmpeg_options(&self) -> (r: &Option<Vec<(String, String)>>)
        ensures
            *r == self.demuxer_options(),
    {
        &self.ffmpeg_options
    }

    /// The size frames are scaled to.
    pub fn output_dimensions(&self) -> (r: VideoDimensions)
        ensures
            r == self.output_size(),
    {
        self.output_dimensions
    }

    /// Frames of zero size are refused.
    pub fn validate_stream_compatibility(width: u32, height: u32) -> (r: Result<(), DecoderError>)
        ensures
            r is Err <==> (width == 0 || height == 0),
    {
        if width == 0 || height == 0 {
            return Err(DecoderError::InvalidData);
        }
        Ok(())
    }

    /// Records that the stream was opened: the decoder's frame size must be
    /// valid; the timeline is chosen from the URI and the demuxer; the
    /// stream is offered as seekable when it is HLS or RTSP. Returns the
    /// scaler to build, from the decoder's size to the output size.
    pub fn initialize_stream(
        &mut self,
        decoder_width: u32,
        decoder_height: u32,
        framerate: u32,
        format_name: &str,
        hls: Option<&HLSContext>,
        container_start_time: i64,
    ) -> (r: Result<(u32, u32, VideoDimensions), DecoderError>)
        requires
            hls matches Some(h) ==> h.wf(),
            container_start_time != AV_NOPTS_VALUE ==> convertible(container_start_time as int),
        ensures
            (decoder_width == 0 || decoder_height == 0) ==> r == Err::<(u32, u32, VideoDimensions), DecoderError>(DecoderError::InvalidData)
                && *final(self) == *old(self),
            (decoder_width != 0 && decoder_height != 0) ==> {
                &&& r == Ok::<(u32, u32, VideoDimensions), DecoderError>((decoder_width, decoder_height, old(self).output_size()))
                &&& final(self).timeline_ctx() matches Some(t)
                &&& (is_hls_uri(old(self).info().uri@) && HLSTimelineContext::can_track(format_name@, match hls { Some(h) => Some(*h), None => None }))
                    ==> final(self).timeline_ctx() == Some(TimelineContext::Hls(HLSTimelineContext::initial()))
                &&& !(is_hls_uri(old(self).info().uri@) && HLSTimelineContext::can_track(format_name@, match hls { Some(h) => Some(*h), None => None }))
                    ==> final(self).timeline_ctx() == Some(TimelineContext::Standard(StandardTimelineContext { start_time: container_start_us(container_start_time) }))
                &&& final(self).is_seekable_stream() == (is_hls_uri(old(self).info().uri@) || is_rtsp_uri(old(self).info().uri@))
                &&& final(self).frame_rate() == framerate
                &&& final(self).info() == old(self).info()
                &&& final(self).output_size() == old(self).output_size()
                &&& final(self).terminated() == old(self).terminated()
            },
    {
        match Self::validate_stream_compatibility(decoder_width, decoder_height) {
            Ok(()) => {},
            Err(e) => return Err(e),
        }
        let timeline = TimelineContext::for_stream(self.video_info.uri.as_str(), format_name, hls, container_start_time);
        let seekable = stream_is_seekable(self.video_info.uri.as_str());
        self.timeline = Some(timeline);
        self.framerate = framerate;
        self.seekable = seekable;
        Ok((decoder_width, decoder_height, self.output_dimensions))
    }

    /// Whether the session was asked to stop.
    pub fn asked_for_termination(&self) -> (r: bool)
        ensures
            r == self.terminated(),
    {
        self.kill_sig
    }

    /// Asks the session to stop.
    pub fn destroy_stream(&mut self)
        ensures
            final(self).terminated(),
            final(self).info() == old(self).info(),
            final(self).output_size() == old(self).output_size(),
            final(self).timeline_ctx() == old(self).timeline_ctx(),
    {
        self.kill_sig = true;
    }

    /// Ends a streaming pass: with an open stream the decoder is told that
    /// the input ended.
    pub fn terminate(&self, has_open_context: bool) -> (send_eof: bool)
        ensures
            send_eof == has_open_context,
    {
        has_open_context
    }

    /// The periodic timeline update at the top of each read.
    pub fn update_timeline(&mut self, hls: &HLSContext)
        requires
            old(self).timeline_ctx() matches Some(TimelineContext::Hls(c)) ==> c.update_ok(*hls),
        ensures
            match old(self).timeline_ctx() {
                Some(TimelineContext::Hls(c)) => final(self).timeline_ctx() == Some(TimelineContext::Hls(c.after_update(*hls))),
                _ => final(self).timeline_ctx() == old(self).timeline_ctx(),
            },
            final(self).info() == old(self).info(),
            final(self).terminated() == old(self).terminated(),
            final(self).is_seekable_stream() == old(self).is_seekable_stream(),
            final(self).frame_rate() == old(self).frame_rate(),
            final(self).output_size() == old(self).output_size(),
    {
        match &mut self.timeline {
            Some(t) => t.update_timeline(hls),
            None => {},
        }
    }

    /// Decides what a packet read leads to. A video packet's timestamp is
    /// converted to microseconds with the stream's time base and handed to
    /// the timeline; a packet the decoder took reports playback the first
    /// time; the end of input ends the pass; nothing available waits 10 ms;
    /// a failed read reports the stream corrupted and ends the pass.
    pub fn stream_impl(
        &mut self,
        read: DecoderRead,
        tb_num: i32,
        tb_den: i32,
        is_playing: &mut bool,
        texture_id: i64,
    ) -> (r: (DecoderStep, Option<StreamState>))
        requires
            tb_den > 0,
            tb_num >= 0,
            read matches DecoderRead::Video { timestamp: Some(ts), sent: _ } ==> {
                &&& i64::MIN <= tb_num * 1000000 <= i64::MAX
                &&& i64::MIN <= ts * time_base_us(tb_num, tb_den) <= i64::MAX
                &&& (old(self).timeline_ctx() matches Some(TimelineContext::Hls(c))
                    ==> c.packet_ok((ts * time_base_us(tb_num, tb_den)) as i64))
            },
        ensures
            final(self).info() == old(self).info(),
            final(self).terminated() == old(self).terminated(),
            final(self).output_size() == old(self).output_size(),
            match read {
                DecoderRead::Video { timestamp, sent } => {
                    &&& r.0 == DecoderStep::Continue { sleep_nanos: if old(self).frame_rate() > 0 {
                        Some((1_000_000_000u32 / old(self).frame_rate()) as u64)
                    } else {
                        None
                    } }
                    &&& (sent && !*old(is_playing)) ==> (r.1 matches Some(StreamState::Playing { texture_id: t, seekable: s })
                        && t == texture_id && s) && *final(is_playing)
                    &&& !(sent && !*old(is_playing)) ==> r.1 is None && *final(is_playing) == *old(is_playing)
                    &&& match timestamp {
                        Some(ts) => match old(self).timeline_ctx() {
                            Some(TimelineContext::Hls(c)) => final(self).timeline_ctx() == Some(TimelineContext::Hls(
                                c.after_packet((ts * time_base_us(tb_num, tb_den)) as i64))),
                            _ => final(self).timeline_ctx() == old(self).timeline_ctx(),
                        },
                        None => final(self).timeline_ctx() == old(self).timeline_ctx(),
                    }
                },
                DecoderRead::Other => r.0 == (DecoderStep::Continue { sleep_nanos: if old(self).frame_rate() > 0 {
                        Some((1_000_000_000u32 / old(self).frame_rate()) as u64)
                    } else {
                        None
                    } }) && r.1 is None && final(self).timeline_ctx() == old(self).timeline_ctx(),
                DecoderRead::Eof => r.0 == DecoderStep::Exit(StreamExitResult::EOF) && r.1 is None,
                DecoderRead::Again => r.0 == (DecoderStep::Continue { sleep_nanos: Some(AGAIN_RETRY_NANOS) }) && r.1 is None,
                DecoderRead::Failed => r.0 == DecoderStep::Exit(StreamExitResult::Error)
                    && (r.1 matches Some(StreamState::Error(m)) && m@ == "Stream corrupted"@),
            },
    {
        let sleep = frame_interval_nanos(self.framerate);
        match read {
            DecoderRead::Video { timestamp, sent } => {
                match timestamp {
                    Some(ts) => {
                        let scaled: i64 = tb_num as i64 * 1000000;
                        let tb_us: i64 = scaled / tb_den as i64;
                        assert(tb_us == time_base_us(tb_num, tb_den));
                        let packet_us = ts * tb_us;
                        match &mut self.timeline {
                            Some(t) => t.update_from_packet(packet_us),
                            None => {},
                        }
                    },
                    None => {},
                }
                let mut state: Option<StreamState> = None;
                if sent && !*is_playing {
                    state = Some(StreamState::Playing { texture_id, seekable: true });
                    *is_playing = true;
                }
                (DecoderStep::Continue { sleep_nanos: sleep }, state)
            },
            DecoderRead::Other => (DecoderStep::Continue { sleep_nanos: sleep }, None),
            DecoderRead::Eof => (DecoderStep::Exit(StreamExitResult::EOF), None),
            DecoderRead::Again => (DecoderStep::Continue { sleep_nanos: Some(AGAIN_RETRY_NANOS) }, None),
            DecoderRead::Failed => {
                let msg = String::from_str("Stream corrupted");
                (DecoderStep::Exit(StreamExitResult::Error), Some(StreamState::Error(msg)))
            },
        }
    }

    /// After a pass: a legal exit ends the loop; the end of input restarts
    /// after 800 ms, reporting the stream stopped, when the session restarts
    /// automatically and ends the loop otherwise; an error restarts after
    /// 2 s. The second value is the delay, the third whether to report the
    /// stream stopped; a `false` first value ends the loop.
    pub fn stream(&self, result: StreamExitResult) -> (r: (bool, u64, bool))
        ensures
            r == match result {
                StreamExitResult::LegalExit => (false, 0u64, false),
                StreamExitResult::EOF => if self.info().auto_restart { (true, 800u64, true) } else { (false, 0u64, false) },
                StreamExitResult::Error => (true, 2000u64, false),
            },
    {
        match result {
            StreamExitResult::LegalExit => (false, 0, false),
            StreamExitResult::EOF => if self.video_info.auto_restart { (true, 800, true) } else { (false, 0, false) },
            StreamExitResult::Error => (true, 2000, false),
        }
    }

    /// Plans a seek to `timestamp_us`: refused without an open stream or
    /// before the timeline can place it; otherwise the demuxer position.
    pub fn seek(&self, hls: &HLSContext, timestamp_us: i64) -> (r: Result<i64, SeekError>)
        requires
            self.timeline_ctx() matches Some(t) ==> t.adjust_ok(if timestamp_us < 0 { 0i64 } else { timestamp_us }, *hls),
        ensures
            match self.timeline_ctx() {
                None => r == Err::<i64, SeekError>(SeekError::NoContext),
                Some(t) => if !(match t {
                    TimelineContext::Hls(c) => c.is_initialized && c.hls_start_time != AV_NOPTS_VALUE,
                    TimelineContext::Standard(_) => true,
                }) {
                    r == Err::<i64, SeekError>(SeekError::TimelineNotReady)
                } else {
                    (r matches Ok(pos) && pos == seek_position(t, timestamp_us, *hls))
                },
            },
    {
        match &self.timeline {
            Some(t) => plan_seek(Some(t), hls, timestamp_us),
            None => plan_seek(None, hls, timestamp_us),
        }
    }

    /// Validates a resize: `Ok(None)` when the size is unchanged, the size
    /// to rebuild the scaler for otherwise; refused without an open stream.
    pub fn resize_stream(&self, new_width: u32, new_height: u32) -> (r: Result<Option<VideoDimensions>, ResizeError>)
        ensures
            match sanitized(new_width, new_height) {
                Err(e) => r == Err::<Option<VideoDimensions>, ResizeError>(ResizeError::Dimensions(e)),
                Ok((w, h)) => if w == self.output_size().width && h == self.output_size().height {
                    r == Ok::<Option<VideoDimensions>, ResizeError>(None)
                } else if self.timeline_ctx() is None {
                    r == Err::<Option<VideoDimensions>, ResizeError>(ResizeError::NoContext)
                } else {
                    r == Ok::<Option<VideoDimensions>, ResizeError>(Some(VideoDimensions { width: w, height: h }))
                },
            },
    {
        let (w, h) = match sanitize_dimensions(new_width, new_height) {
            Ok(d) => d,
            Err(e) => return Err(ResizeError::Dimensions(e)),
        };
        if self.output_dimensions.width == w && self.output_dimensions.height == h {
            return Ok(None);
        }
        match self.update_scaler() {
            Ok(()) => Ok(Some(VideoDimensions { width: w, height: h })),
            Err(e) => Err(e),
        }
    }

    /// Rebuilding the scaler needs an open stream.
    pub fn update_scaler(&self) -> (r: Result<(), ResizeError>)
        ensures
            self.timeline_ctx() is Some ==> r is Ok,
            self.timeline_ctx() is None ==> r == Err::<(), ResizeError>(ResizeError::NoContext),
    {
        if self.timeline.is_some() {
            Ok(())
        } else {
            Err(ResizeError::NoContext)
        }
    }

    /// Records the new output size once the scaler accepted it.
    pub fn commit_output_dimensions(&mut self, dims: VideoDimensions)
        ensures
            final(self).output_size() == dims,
            final(self).info() == old(self).info(),
            final(self).terminated() == old(self).terminated(),
            final(self).timeline_ctx() == old(self).timeline_ctx(),
            final(self).frame_rate() == old(self).frame_rate(),
    {
        self.output_dimensions = dims;
    }

    /// Puts the rescaled previous frame on screen if it has exactly the new
    /// size; reports whether it did.
    pub fn rescale_and_set_previous_frame(
        holder: &mut PayloadHolder,
        rescaled: Option<FFmpegFrameWrapper>,
        new_width: u32,
        new_height: u32,
    ) -> (done: bool)
        ensures
            done == (rescaled matches Some(f) && f.width == new_width && f.height == new_height),
            done ==> final(holder).current() == Some(rescaled->0) && final(holder).previous() == old(holder).current(),
            !done ==> final(holder).current() == old(holder).current() && final(holder).previous() == old(holder).previous(),
    {
        match rescaled {
            Some(frame) => {
                if frame.width == new_width && frame.height == new_height {
                    holder.set_payload(Box::new(frame));
                    true
                } else {
                    false
                }
            },
            None => false,
        }
    }

    /// Puts a black frame of the given size on screen. The decoder's buffer
    /// has rows `stride` bytes apart; every 4-byte pixel of it, padding
    /// included, is made black and opaque before the rows are packed.
    pub fn create_black_frame(holder: &mut PayloadHolder, width: u32, height: u32, stride: usize)
        requires
            width * 4 <= stride,
            stride % 4 == 0,
            stride * height <= usize::MAX,
        ensures
            final(holder).previous() == old(holder).current(),
            final(holder).current() matches Some(f) && f.width == width && f.height == height
                && f.frame_data@.len() == stride * height
                && forall|i: int| 0 <= i < f.frame_data@.len() ==> f.frame_data@[i] == (if i % 4 == 3 { 255u8 } else { 0u8 }),
    {
        let n: usize = stride * height as usize;
        let mut data: Vec<u8> = Vec::with_capacity(n);
        let mut i: usize = 0;
        while i < n
            invariant
                i <= n,
                data@.len() == i,
                forall|k: int| 0 <= k < i ==> data@[k] == (if k % 4 == 3 { 255u8 } else { 0u8 }),
            decreases n - i,
        {
            let v: u8 = if i % 4 == 3 { 255 } else { 0 };
            data.push(v);
            i = i + 1;
        }
        proof {
            if height > 0 {
                assert((height - 1) * stride + width * 4 <= stride * height) by (nonlinear_arith)
                    requires width * 4 <= stride, height > 0;
            }
        }
        let frame = FFmpegFrameWrapper::from_frame(width, height, stride, data);
        holder.set_payload(Box::new(frame));
    }

    /// Fills the screen after a resize: the previous frame rescaled when the
    /// scaler produced one of exactly the new size, otherwise a black frame.
    /// Reports whether the rescaled frame was used.
    pub fn update_texture_with_placeholder(
        holder: &mut PayloadHolder,
        rescaled: Option<FFmpegFrameWrapper>,
        new_width: u32,
        new_height: u32,
        black_stride: usize,
    ) -> (used_rescaled: bool)
        requires
            new_width * 4 <= black_stride,
            black_stride % 4 == 0,
            black_stride * new_height <= usize::MAX,
        ensures
            used_rescaled == (rescaled matches Some(f) && f.width == new_width && f.height == new_height),
            final(holder).previous() == old(holder).current(),
            used_rescaled ==> final(holder).current() == Some(rescaled->0),
            !used_rescaled ==> (final(holder).current() matches Some(f) && f.width == new_width && f.height == new_height),
    {
        if Self::rescale_and_set_previous_frame(holder, rescaled, new_width, new_height) {
            true
        } else {
            Self::create_black_frame(holder, new_width, new_height, black_stride);
            false
        }
    }
}

} // verus!
