//! Plain-value model of the demuxer's private HLS bookkeeping: a context owns
//! an array of playlists, each playlist an array of segments. A missing array
//! or a missing entry reads as absent, exactly as a null pointer would.
use vstd::prelude::*;

verus! {

/// Opaque AES state of the demuxer.
pub struct AVAES {
    opaque: (),
}

/// Opaque class descriptor of a demuxer object.
pub struct AVClass {
    opaque: (),
}

/// Opaque byte-stream I/O context.
pub struct AVIOContext {
    opaque: (),
}

/// Opaque container format context.
pub struct AVFormatContext {
    opaque: (),
}

/// Opaque compressed packet.
pub struct AVPacket {
    opaque: (),
}

/// Opaque elementary stream.
pub struct AVStream {
    opaque: (),
}

/// Opaque key/value option dictionary.
pub struct AVDictionary {
    opaque: (),
}

/// Internal I/O context wrapper; only its size matters to the layout.
pub struct FFIOContext {
    opaque: [u8; 512],
}

/// One media segment of a playlist.
#[derive(Debug, Clone, Copy, PartialEq, Eq, Structural)]
pub struct Segment {
    /// Duration of the segment in time-base units (microseconds).
    pub duration: i64,
}

/// A media playlist: `n_segments` declares how many entries of `segments`
/// are live; `segments == None` stands for an unset array.
pub struct Playlist {
    pub n_segments: i32,
    pub segments: Option<Vec<Option<Segment>>>,
    /// Sequence number of the segment being played.
    pub cur_seq_no: i64,
    /// Sequence number of the first segment of the playlist.
    pub start_seq_no: i64,
}

/// The demuxer's HLS context.
pub struct HLSContext {
    pub n_playlists: i32,
    pub playlists: Option<Vec<Option<Playlist>>>,
    /// First timestamp seen by the demuxer, or the "no timestamp" marker.
    pub first_timestamp: i64,
}

impl Playlist {
    /// The declared segment count never exceeds the array that backs it.
    pub open spec fn wf(&self) -> bool {
        &&& self.n_segments >= 0
        &&& self.segments matches Some(v) ==> self.n_segments <= v@.len()
    }

    /// The segment at `i`, if it is declared and present.
    pub open spec fn segment_at(&self, i: int) -> Option<Segment> {
        if 0 <= i < self.n_segments {
            match self.segments {
                Some(v) => v@[i],
                None => None,
            }
        } else {
            None
        }
    }

    /// Duration that segment `i` contributes to a sum: zero when absent.
    pub open spec fn duration_at(&self, i: int) -> int {
        match self.segment_at(i) {
            Some(s) => s.duration as int,
            None => 0,
        }
    }

    /// Sum of the durations of the first `k` segment slots.
    pub open spec fn prefix_duration(&self, k: int) -> int
        decreases k,
    {
        if k <= 0 {
            0
        } else {
            self.prefix_duration(k - 1) + self.duration_at(k - 1)
        }
    }

    /// Number of segment slots that lie before sequence number `seq_no`:
    /// none before the playlist's start, at most all of them.
    pub open spec fn segments_before(&self, seq_no: int) -> int {
        let d = seq_no - self.start_seq_no;
        if d <= 0 { 0 } else if d < self.n_segments as int { d } else { self.n_segments as int }
    }

    /// Every running sum over the first `k` slots fits in an `i64`.
    pub open spec fn sums_fit(&self, k: int) -> bool {
        forall|j: int| 0 <= j <= k ==> i64::MIN <= #[trigger] self.prefix_duration(j) <= i64::MAX
    }

    /// The segment at `index`, or `None` when the index is past the declared
    /// count or the entry is missing.
    pub fn get_segment(&self, index: usize) -> (r: Option<&Segment>)
        requires
            self.wf(),
        ensures
            r == (match self.segment_at(index as int) {
                Some(s) => Some(&s),
                None => None,
            }),
    {
        if index < self.n_segments as usize {
            match &self.segments {
                Some(v) => match &v[index] {
                    Some(s) => Some(s),
                    None => None,
                },
                None => None,
            }
        } else {
            None
        }
    }

    /// Sum of the durations of all declared segments.
    pub fn calculate_total_duration(&self) -> (total: i64)
        requires
            self.wf(),
            self.sums_fit(self.n_segments as int),
        ensures
            total == self.prefix_duration(self.n_segments as int),
    {
        let n = self.n_segments as usize;
        let mut total: i64 = 0;
        let mut i: usize = 0;
        while i < n
            invariant
                self.wf(),
                self.sums_fit(self.n_segments as int),
                n == self.n_segments,
                i <= n,
                total == self.prefix_duration(i as int),
            decreases n - i,
        {
            assert(self.prefix_duration(i as int + 1) == self.prefix_duration(i as int)
                + self.duration_at(i as int));
            match self.get_segment(i) {
                Some(seg) => {
                    total = total + seg.duration;
                },
                None => {},
            }
            i = i + 1;
        }
        total
    }

    /// Sum of the durations of the segments that precede `seq_no`: the first
    /// `min(seq_no - start_seq_no, n_segments)` slots, none (a sum of 0) for a
    /// sequence number at or before the playlist's start.
    pub fn calculate_duration_until_seq(&self, seq_no: i64) -> (total: i64)
        requires
            self.wf(),
            self.sums_fit(self.segments_before(seq_no as int)),
        ensures
            total == self.prefix_duration(self.segments_before(seq_no as int)),
            seq_no <= self.start_seq_no ==> total == 0,
    {
        let d: i128 = seq_no as i128 - self.start_seq_no as i128;
        let n: usize = if d <= 0 {
            0
        } else if d < self.n_segments as i128 {
            d as usize
        } else {
            self.n_segments as usize
        };
        let mut total: i64 = 0;
        let mut i: usize = 0;
        while i < n
            invariant
                self.wf(),
                n == self.segments_before(seq_no as int),
                self.sums_fit(n as int),
                i <= n,
                total == self.prefix_duration(i as int),
            decreases n - i,
        {
            assert(self.prefix_duration(i as int + 1) == self.prefix_duration(i as int)
                + self.duration_at(i as int));
            match self.get_segment(i) {
                Some(seg) => {
                    total = total + seg.duration;
                },
                None => {},
            }
            i = i + 1;
        }
        total
    }
}

impl HLSContext {
    /// The declared playlist count never exceeds the array that backs it.
    pub open spec fn wf(&self) -> bool {
        &&& self.n_playlists >= 0
        &&& self.playlists matches Some(v) ==> self.n_playlists <= v@.len()
    }

    /// The playlist at `i`, if it is declared and present.
    pub open spec fn playlist_at(&self, i: int) -> Option<Playlist> {
        if 0 <= i < self.n_playlists {
            match self.playlists {
                Some(v) => v@[i],
                None => None,
            }
        } else {
            None
        }
    }

    /// The first playlist, the one a single-variant stream plays.
    pub fn get_first_playlist(&self) -> (r: Option<&Playlist>)
        requires
            self.wf(),
        ensures
            r == (match self.playlist_at(0) {
                Some(p) => Some(&p),
                None => None,
            }),
    {
        self.get_playlist(0)
    }

    /// The playlist at `index`, or `None` when the index is past the declared
    /// count or the entry is missing.
    pub fn get_playlist(&self, index: usize) -> (r: Option<&Playlist>)
        requires
            self.wf(),
        ensures
            r == (match self.playlist_at(index as int) {
                Some(p) => Some(&p),
                None => None,
            }),
    {
        if index < self.n_playlists as usize {
            match &self.playlists {
                Some(v) => match &v[index] {
                    Some(p) => Some(p),
                    None => None,
                },
                None => None,
            }
        } else {
            None
        }
    }
}

/// Counting every declared segment slot gives the playlist's total duration:
/// the duration up to the sequence number just past the last segment equals
/// the total.
pub proof fn lemma_duration_until_end_is_total(p: Playlist, seq_no: int)
    requires
        p.wf(),
        seq_no >= p.start_seq_no + p.n_segments,
    ensures
        p.prefix_duration(p.segments_before(seq_no)) == p.prefix_duration(p.n_segments as int),
{
}

/// With non-negative segment durations, the duration up to a sequence number
/// never decreases as the sequence number grows.
pub proof fn lemma_duration_until_seq_monotone(p: Playlist, s1: int, s2: int)
    requires
        p.wf(),
        s1 <= s2,
        forall|i: int| 0 <= i < p.n_segments ==> p.duration_at(i) >= 0,
    ensures
        p.prefix_duration(p.segments_before(s1)) <= p.prefix_duration(p.segments_before(s2)),
{
    lemma_prefix_monotone(p, p.segments_before(s1), p.segments_before(s2));
}

/// Running sums over non-negative durations are monotone in the slot count.
pub proof fn lemma_prefix_monotone(p: Playlist, a: int, b: int)
    requires
        p.wf(),
        0 <= a <= b <= p.n_segments,
        forall|i: int| 0 <= i < p.n_segments ==> p.duration_at(i) >= 0,
    ensures
        p.prefix_duration(a) <= p.prefix_duration(b),
    decreases b - a,
{
    if a < b {
        lemma_prefix_monotone(p, a, b - 1);
        assert(p.duration_at(b - 1) >= 0);
    }
}

} // verus!
