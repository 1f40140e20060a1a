//! Decisions of a pixel-buffer texture sink: when a frame is written and
//! when the texture is recreated for a new size, and the row copy into the
//! texture's buffer.
use vstd::prelude::*;

verus! {

/// `p` with `piece` written from index `start` on.
pub open spec fn overwrite(p: Seq<u8>, start: int, piece: Seq<u8>) -> Seq<u8> {
    p.take(start) + piece + p.skip(start + piece.len())
}

/// `pixels` after rows `0..rows` of `data` (rows `src_stride` bytes long and
/// back to back) were written at the starts of the destination rows, which
/// are `row_bytes` apart.
pub open spec fn rows_written(pixels: Seq<u8>, data: Seq<u8>, row_bytes: nat, src_stride: nat, rows: nat) -> Seq<u8>
    decreases rows,
{
    if rows == 0 {
        pixels
    } else {
        let y = (rows - 1) as nat;
        overwrite(
            rows_written(pixels, data, row_bytes, src_stride, y),
            (y * row_bytes) as int,
            data.subrange((y * src_stride) as int, (y * src_stride + src_stride) as int),
        )
    }
}

proof fn lemma_rows_written_len(pixels: Seq<u8>, data: Seq<u8>, row_bytes: nat, src_stride: nat, rows: nat)
    requires
        src_stride <= row_bytes,
        rows * row_bytes <= pixels.len(),
        rows * src_stride <= data.len(),
    ensures
        rows_written(pixels, data, row_bytes, src_stride, rows).len() == pixels.len(),
    decreases rows,
{
    if rows > 0 {
        let y = (rows - 1) as nat;
        assert(y * row_bytes + row_bytes == rows * row_bytes) by (nonlinear_arith)
            requires rows == y + 1;
        assert(y * src_stride + src_stride == rows * src_stride) by (nonlinear_arith)
            requires rows == y + 1;
        assert(y * row_bytes <= rows * row_bytes) by (nonlinear_arith)
            requires rows == y + 1;
        assert(y * src_stride <= rows * src_stride) by (nonlinear_arith)
            requires rows == y + 1;
        lemma_rows_written_len(pixels, data, row_bytes, src_stride, y);
    }
}

/// Copies `height` rows of a tightly packed RGBA image into a texture
/// buffer whose rows are `row_bytes` apart; the rest of each destination row
/// is left as it was.
pub fn copy_rows_into(pixels: &mut Vec<u8>, row_bytes: usize, data: &[u8], src_stride: usize, height: usize)
    requires
        src_stride <= row_bytes,
        height * row_bytes <= old(pixels)@.len(),
        height * src_stride <= data@.len(),
    ensures
        final(pixels)@ == rows_written(old(pixels)@, data@, row_bytes as nat, src_stride as nat, height as nat),
{
    let ghost start = pixels@;
    let plen = pixels.len();
    let dlen = data.len();
    let mut y: usize = 0;
    let mut dst: usize = 0;
    let mut src: usize = 0;
    while y < height
        invariant
            plen == start.len(),
            dlen == data@.len(),
            src_stride <= row_bytes,
            height * row_bytes <= start.len(),
            height * src_stride <= data@.len(),
            y <= height,
            dst == y * row_bytes,
            src == y * src_stride,
            pixels@.len() == start.len(),
            pixels@ == rows_written(start, data@, row_bytes as nat, src_stride as nat, y as nat),
        decreases height - y,
    {
        proof {
            assert(y * row_bytes + row_bytes <= height * row_bytes) by (nonlinear_arith)
                requires y < height;
            assert(y * src_stride + src_stride <= height * src_stride) by (nonlinear_arith)
                requires y < height;
        }
        let ghost before = pixels@;
        let mut x: usize = 0;
        while x < src_stride
            invariant
                plen == start.len(),
                dlen == data@.len(),
                src_stride <= row_bytes,
                dst + row_bytes <= start.len(),
                src + src_stride <= data@.len(),
                x <= src_stride,
                pixels@.len() == before.len(),
                before.len() == start.len(),
                pixels@ == overwrite(before, dst as int, data@.subrange(src as int, src + x)),
            decreases src_stride - x,
        {
            pixels.set(dst + x, data[src + x]);
            x = x + 1;
            assert(pixels@ =~= overwrite(before, dst as int, data@.subrange(src as int, src + x)));
        }
        proof {
            assert((y + 1) * row_bytes == y * row_bytes + row_bytes) by (nonlinear_arith);
            assert((y + 1) * src_stride == y * src_stride + src_stride) by (nonlinear_arith);
        }
        y = y + 1;
        dst = dst + row_bytes;
        src = src + src_stride;
    }
}

/// Writes a black, opaque row prefix of `row_len` bytes at the start of each
/// of `rows` destination rows `row_bytes` apart.
pub fn fill_black_rows(pixels: &mut Vec<u8>, row_bytes: usize, row_len: usize, rows: usize)
    requires
        row_len <= row_bytes,
        row_len % 4 == 0,
        rows * row_bytes <= old(pixels)@.len(),
    ensures
        final(pixels)@.len() == old(pixels)@.len(),
        forall|y: int, x: int| 0 <= y < rows && 0 <= x < row_len ==>
            #[trigger] final(pixels)@[y * row_bytes + x] == (if x % 4 == 3 { 255u8 } else { 0u8 }),
        forall|k: int| 0 <= k < old(pixels)@.len() && (k >= rows * row_bytes || k % (row_bytes as int) >= row_len)
            ==> final(pixels)@[k] == old(pixels)@[k],
{
    let ghost start = pixels@;
    let plen = pixels.len();
    let mut y: usize = 0;
    let mut dst: usize = 0;
    while y < rows
        invariant
            plen == start.len(),
            row_len <= row_bytes,
            row_len % 4 == 0,
            rows * row_bytes <= start.len(),
            y <= rows,
            dst == y * row_bytes,
            pixels@.len() == start.len(),
            forall|yy: int, x: int| 0 <= yy < y && 0 <= x < row_len ==>
                #[trigger] pixels@[yy * row_bytes + x] == (if x % 4 == 3 { 255u8 } else { 0u8 }),
            forall|k: int| 0 <= k < start.len() && (k >= y * row_bytes || k % (row_bytes as int) >= row_len)
                ==> pixels@[k] == start[k],
        decreases rows - y,
    {
        proof {
            assert(y * row_bytes + row_bytes <= rows * row_bytes) by (nonlinear_arith)
                requires y < rows;
        }
        let ghost before = pixels@;
        let mut x: usize = 0;
        while x < row_len
            invariant
                plen == start.len(),
                before.len() == start.len(),
                row_len <= row_bytes,
                dst == y * row_bytes,
                dst + row_bytes <= start.len(),
                x <= row_len,
                pixels@.len() == before.len(),
                forall|i: int| 0 <= i < x ==> #[trigger] pixels@[dst + i] == (if i % 4 == 3 { 255u8 } else { 0u8 }),
                forall|k: int| 0 <= k < before.len() && !(dst <= k < dst + x) ==> pixels@[k] == before[k],
            decreases row_len - x,
        {
            let v: u8 = if x % 4 == 3 { 255 } else { 0 };
            pixels.set(dst + x, v);
            x = x + 1;
        }
        proof {
            assert((y + 1) * row_bytes == y * row_bytes + row_bytes) by (nonlinear_arith);
            assert forall|yy: int, xx: int| 0 <= yy < y + 1 && 0 <= xx < row_len implies
                #[trigger] pixels@[yy * row_bytes + xx] == (if xx % 4 == 3 { 255u8 } else { 0u8 }) by {
                if yy < y {
                    assert(yy * row_bytes + xx < y * row_bytes) by (nonlinear_arith)
                        requires yy < y, xx < row_len, row_len <= row_bytes;
                    assert(yy * row_bytes + xx >= 0) by (nonlinear_arith)
                        requires yy >= 0, xx >= 0;
                    assert(before[yy * row_bytes + xx] == (if xx % 4 == 3 { 255u8 } else { 0u8 }));
                    assert(pixels@[yy * row_bytes + xx] == before[yy * row_bytes + xx]);
                } else {
                    assert(yy * row_bytes + xx == dst + xx);
                }
            }
            assert forall|k: int| 0 <= k < start.len() && (k >= (y + 1) * row_bytes || k % (row_bytes as int) >= row_len)
                implies pixels@[k] == start[k] by {
                assert((y + 1) * row_bytes == y * row_bytes + row_bytes) by (nonlinear_arith);
                if dst <= k < dst + row_len {
                    assert(k % (row_bytes as int) == k - dst) by (nonlinear_arith)
                        requires dst == y * row_bytes, dst <= k, k < dst + row_len, row_len <= row_bytes, row_bytes > 0;
                    assert(k < (y + 1) * row_bytes);
                }
            }
        }
        y = y + 1;
        dst = dst + row_bytes;
    }
}

/// What the sink does with a decoded frame.
#[derive(Debug, Clone, Copy, PartialEq, Eq, Structural)]
pub enum WriteDecision {
    /// The size matches the texture: write it.
    Write,
    /// The size changed: drop the frame and recreate the texture at this size.
    StartResize { width: u32, height: u32 },
    /// The size changed but a recreation is already under way: drop it.
    Drop,
}

/// The size of the texture and whether it is being recreated.
pub struct FlutterPixelBufferSink {
    width: u32,
    height: u32,
    resizing: bool,
}

impl FlutterPixelBufferSink {
    pub closed spec fn size(&self) -> (u32, u32) {
        (self.width, self.height)
    }

    pub closed spec fn is_resizing(&self) -> bool {
        self.resizing
    }

    /// A sink whose texture has the given size.
    pub fn new(width: u32, height: u32) -> (s: Self)
        ensures
            s.size() == (width, height),
            !s.is_resizing(),
    {
        FlutterPixelBufferSink { width, height, resizing: false }
    }

    /// A frame of the texture's size is written; otherwise the frame is
    /// dropped and, unless one is under way, a recreation at the frame's
    /// size starts.
    pub fn write_frame(&mut self, width: u32, height: u32) -> (r: WriteDecision)
        ensures
            (width == old(self).size().0 && height == old(self).size().1) ==> r == WriteDecision::Write
                && *final(self) == *old(self),
            !(width == old(self).size().0 && height == old(self).size().1) ==> (if old(self).is_resizing() {
                r == WriteDecision::Drop && *final(self) == *old(self)
            } else {
                r == (WriteDecision::StartResize { width, height }) && final(self).is_resizing()
                    && final(self).size() == old(self).size()
            }),
    {
        if self.width == width && self.height == height {
            return WriteDecision::Write;
        }
        self.request_resize(width, height)
    }

    /// Starts recreating the texture at a new size unless a recreation is
    /// already under way.
    pub fn request_resize(&mut self, width: u32, height: u32) -> (r: WriteDecision)
        ensures
            old(self).is_resizing() ==> r == WriteDecision::Drop && *final(self) == *old(self),
            !old(self).is_resizing() ==> r == (WriteDecision::StartResize { width, height })
                && final(self).is_resizing() && final(self).size() == old(self).size(),
    {
        if self.resizing {
            return WriteDecision::Drop;
        }
        self.resizing = true;
        WriteDecision::StartResize { width, height }
    }

    /// The recreation ended: on success the texture has the new size;
    /// either way another one may start.
    pub fn finish_resize(&mut self, new_size: Option<(u32, u32)>)
        ensures
            !final(self).is_resizing(),
            final(self).size() == (match new_size {
                Some(s) => s,
                None => old(self).size(),
            }),
    {
        match new_size {
            Some((w, h)) => {
                self.width = w;
                self.height = h;
            },
            None => {},
        }
        self.resizing = false;
    }
}

} // verus!
