//! RGBA frames and the double buffer that hands the latest one to the
//! texture.
use std::sync::Arc;
use vstd::prelude::*;

verus! {

/// Byte `i` of a black, fully opaque RGBA image: colour channels are zero,
/// every fourth byte (alpha) is 255.
pub open spec fn black_byte(i: int) -> u8 {
    if i % 4 == 3 { 255u8 } else { 0u8 }
}

/// Rows `0..rows` of a padded image, each `row_len` bytes long and starting
/// `stride` bytes after the previous one, laid end to end.
pub open spec fn packed_rows(data: Seq<u8>, row_len: nat, stride: nat, rows: nat) -> Seq<u8>
    decreases rows,
{
    if rows == 0 {
        Seq::empty()
    } else {
        let y = (rows - 1) as nat;
        packed_rows(data, row_len, stride, y) + data.subrange((y * stride) as int, (y * stride + row_len) as int)
    }
}

/// The bytes of rows `0..rows` lie inside `data`.
pub open spec fn rows_in_bounds(len: nat, row_len: nat, stride: nat, rows: nat) -> bool {
    rows == 0 || (rows - 1) * stride + row_len <= len
}

proof fn lemma_packed_rows_len(data: Seq<u8>, row_len: nat, stride: nat, rows: nat)
    requires
        rows_in_bounds(data.len(), row_len, stride, rows),
    ensures
        packed_rows(data, row_len, stride, rows).len() == rows * row_len,
    decreases rows,
{
    if rows > 0 {
        let y = (rows - 1) as nat;
        if y > 0 {
            assert((y - 1) * stride <= y * stride) by (nonlinear_arith)
                requires y > 0;
        }
        lemma_packed_rows_len(data, row_len, stride, y);
        assert(rows * row_len == y * row_len + row_len) by (nonlinear_arith)
            requires rows == y + 1;
        let piece = data.subrange((y * stride) as int, (y * stride + row_len) as int);
        assert(piece.len() == row_len);
        assert(packed_rows(data, row_len, stride, rows) == packed_rows(data, row_len, stride, y) + piece);
    } else {
        assert(rows * row_len == 0) by (nonlinear_arith)
            requires rows == 0;
    }
}

/// Copies rows `0..rows` of a padded image into one contiguous buffer,
/// dropping the padding at the end of each row.
pub fn pack_rows(data: &[u8], row_len: usize, stride: usize, rows: usize) -> (out: Vec<u8>)
    requires
        rows_in_bounds(data@.len(), row_len as nat, stride as nat, rows as nat),
    ensures
        out@ == packed_rows(data@, row_len as nat, stride as nat, rows as nat),
        out@.len() == rows * row_len,
{
    proof {
        lemma_packed_rows_len(data@, row_len as nat, stride as nat, rows as nat);
    }
    let data_len = data.len();
    let mut out: Vec<u8> = Vec::new();
    let mut y: usize = 0;
    let mut row_start: usize = 0;
    while y < rows
        invariant
            rows_in_bounds(data@.len(), row_len as nat, stride as nat, rows as nat),
            data@.len() == data_len,
            y <= rows,
            y < rows ==> row_start == y * stride,
            out@ == packed_rows(data@, row_len as nat, stride as nat, y as nat),
        decreases rows - y,
    {
        proof {
            assert(y * stride <= (rows - 1) * stride) by (nonlinear_arith)
                requires y <= rows - 1;
        }
        let ghost prefix = out@;
        let mut x: usize = 0;
        while x < row_len
            invariant
                y < rows,
                row_start == y * stride,
                row_start + row_len <= data@.len(),
                data@.len() == data_len,
                x <= row_len,
                out@ == prefix + data@.subrange(row_start as int, row_start + x),
            decreases row_len - x,
        {
            out.push(data[row_start + x]);
            x = x + 1;
            assert(out@ =~= prefix + data@.subrange(row_start as int, row_start + x));
        }
        y = y + 1;
        if y < rows {
            proof {
                assert(y * stride == (y - 1) * stride + stride) by (nonlinear_arith)
                    requires y >= 1;
                assert(y * stride <= (rows - 1) * stride) by (nonlinear_arith)
                    requires y <= rows - 1;
            }
            row_start = row_start + stride;
        }
    }
    out
}

/// An RGBA image, four bytes per pixel, rows tightly packed.
#[derive(Clone)]
pub struct RawRgbaFrame {
    pub width: u32,
    pub height: u32,
    pub data: Vec<u8>,
}

impl RawRgbaFrame {
    /// A black, fully opaque frame of the given size.
    pub fn black(width: u32, height: u32) -> (f: Self)
        requires
            width * height * 4 <= u32::MAX,
        ensures
            f.width == width,
            f.height == height,
            f.data@.len() == width * height * 4,
            forall|i: int| 0 <= i < f.data@.len() ==> f.data@[i] == black_byte(i),
    {
        let len: u32 = width * height * 4;
        let n = len as usize;
        let mut data: Vec<u8> = Vec::with_capacity(n);
        let mut i: usize = 0;
        while i < n
            invariant
                i <= n,
                data@.len() == i,
                forall|k: int| 0 <= k < i ==> data@[k] == black_byte(k),
            decreases n - i,
        {
            if i % 4 == 3 {
                data.push(255u8);
            } else {
                data.push(0u8);
            }
            i = i + 1;
        }
        RawRgbaFrame { width, height, data }
    }

    /// A frame built from a decoder's RGBA output whose rows are `stride`
    /// bytes apart: the padding after each row is dropped.
    pub fn from_padded_rows(width: u32, height: u32, stride: usize, data: &[u8]) -> (f: Self)
        requires
            width * 4 <= usize::MAX,
            rows_in_bounds(data@.len(), width as nat * 4, stride as nat, height as nat),
        ensures
            f.width == width,
            f.height == height,
            f.data@ == packed_rows(data@, width as nat * 4, stride as nat, height as nat),
    {
        let row_len = width as usize * 4;
        let packed = pack_rows(data, row_len, stride, height as usize);
        RawRgbaFrame { width, height, data: packed }
    }
}

/// Holds the frame on screen and the one before it. The texture reads the
/// current frame; a resize can still reach the previous one.
pub struct PayloadHolder {
    current_frame: Option<Arc<RawRgbaFrame>>,
    previous_frame: Option<Arc<RawRgbaFrame>>,
}

impl PayloadHolder {
    /// The frame on screen, if any.
    pub closed spec fn current(&self) -> Option<RawRgbaFrame> {
        match self.current_frame {
            Some(f) => Some(*f),
            None => None,
        }
    }

    /// The frame shown before the current one, if any.
    pub closed spec fn previous(&self) -> Option<RawRgbaFrame> {
        match self.previous_frame {
            Some(f) => Some(*f),
            None => None,
        }
    }

    /// An empty holder.
    pub fn new() -> (h: Self)
        ensures
            h.current() is None,
            h.previous() is None,
    {
        PayloadHolder { current_frame: None, previous_frame: None }
    }

    /// `after` is `before` once `payload` has been put on screen.
    pub open spec fn set_payload_post(before: Self, after: Self, payload: RawRgbaFrame) -> bool {
        &&& after.current() == Some(payload)
        &&& after.previous() == before.current()
    }

    /// Puts `payload` on screen; what was on screen becomes the previous frame.
    pub fn set_payload(&mut self, payload: Arc<RawRgbaFrame>)
        ensures
            Self::set_payload_post(*old(self), *final(self), *payload),
    {
        let prev = self.current_frame.take();
        self.previous_frame = prev;
        self.current_frame = Some(payload);
    }

    /// The frame shown before the current one.
    pub fn previous_frame(&self) -> (r: Option<Arc<RawRgbaFrame>>)
        ensures
            match r {
                Some(f) => self.previous() == Some(*f),
                None => self.previous() is None,
            },
    {
        match &self.previous_frame {
            Some(f) => Some(Arc::clone(f)),
            None => None,
        }
    }

    /// What the texture shows: the current frame, else the previous one,
    /// else a black 640x480 frame.
    pub fn get_payload(&self) -> (r: Arc<RawRgbaFrame>)
        ensures
            match self.current() {
                Some(c) => *r == c,
                None => match self.previous() {
                    Some(p) => *r == p,
                    None => r.width == 640 && r.height == 480
                        && r.data@.len() == 640 * 480 * 4
                        && forall|i: int| 0 <= i < r.data@.len() ==> r.data@[i] == black_byte(i),
                },
            },
    {
        match &self.current_frame {
            Some(f) => Arc::clone(f),
            None => match &self.previous_frame {
                Some(f) => Arc::clone(f),
                None => Arc::new(RawRgbaFrame::black(640, 480)),
            },
        }
    }
}

/// Two frames set in turn leave the second on screen and the first one
/// behind it, whatever the holder held before.
pub proof fn lemma_set_twice_keeps_both(
    h0: PayloadHolder,
    h1: PayloadHolder,
    h2: PayloadHolder,
    a: RawRgbaFrame,
    b: RawRgbaFrame,
)
    requires
        PayloadHolder::set_payload_post(h0, h1, a),
        PayloadHolder::set_payload_post(h1, h2, b),
    ensures
        h2.current() == Some(b),
        h2.previous() == Some(a),
{
}

} // verus!
