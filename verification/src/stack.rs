//! The stack of same-sized frames decoded from one image file.

use vstd::prelude::*;

use crate::DecodeError;

verus! {

/// One intensity unit is stored as this many fixed-point steps:
/// a sample holding the value `v` is stored as the integer `v * 256`.
pub const SAMPLE_SCALE: i64 = 256;

/// Largest magnitude a stored sample may have (2^46 fixed-point steps,
/// about 2^38 intensity units).  Keeping every sample within this bound
/// lets frame sums and the rescaling arithmetic stay in machine integers.
pub const SAMPLE_LIMIT: i64 = 0x4000_0000_0000;

/// The ordered frames decoded from one file: `frames.len() >= 1`
/// planes of `width * height` fixed-point samples each, row-major
/// with index `row * width + col`.
#[derive(Debug)]
pub struct ImageStack {
    pub width: usize,
    pub height: usize,
    pub frames: Vec<Vec<i64>>,
}

/// The conditions under which `width`, `height` and `frames` form a
/// well-formed stack: positive dimensions whose product fits in `usize`,
/// at least one frame, every frame exactly `width * height` samples,
/// and every sample within `SAMPLE_LIMIT`.
pub open spec fn stack_input_ok(width: int, height: int, frames: Seq<Vec<i64>>) -> bool {
    &&& 0 < width
    &&& 0 < height
    &&& width * height <= usize::MAX
    &&& 1 <= frames.len()
    &&& forall|f: int|
        0 <= f < frames.len() ==> (#[trigger] frames[f])@.len() == width * height
    &&& forall|f: int, p: int|
        0 <= f < frames.len() && 0 <= p < width * height ==> -SAMPLE_LIMIT
            <= #[trigger] frames[f]@[p] <= SAMPLE_LIMIT
}

impl ImageStack {
    /// Every frame has the declared size and every sample is in range.
    pub open spec fn wf(self) -> bool {
        stack_input_ok(self.width as int, self.height as int, self.frames@)
    }

    /// Number of samples in one frame.
    pub open spec fn frame_len(self) -> int {
        self.width * self.height
    }

    /// Builds a stack after checking every well-formedness condition,
    /// and says exactly when the check fails.
    pub fn from_frames(width: usize, height: usize, frames: Vec<Vec<i64>>) -> (r: Result<
        ImageStack,
        DecodeError,
    >)
        ensures
            match r {
                Ok(s) => {
                    &&& stack_input_ok(width as int, height as int, frames@)
                    &&& s.width == width
                    &&& s.height == height
                    &&& s.frames@ == frames@
                    &&& s.wf()
                },
                Err(e) => {
                    &&& !stack_input_ok(width as int, height as int, frames@)
                    &&& e == DecodeError::UnexpectedPixelFormat
                },
            },
    {
        if width == 0 || height == 0 {
            return Err(DecodeError::UnexpectedPixelFormat);
        }
        let wh = match width.checked_mul(height) {
            Some(wh) => wh,
            None => {
                return Err(DecodeError::UnexpectedPixelFormat);
            },
        };
        if frames.len() == 0 {
            return Err(DecodeError::UnexpectedPixelFormat);
        }
        let mut f: usize = 0;
        while f < frames.len()
            invariant
                f <= frames@.len(),
                wh == width * height,
                forall|g: int| 0 <= g < f ==> (#[trigger] frames@[g])@.len() == wh,
                forall|g: int, p: int|
                    0 <= g < f && 0 <= p < wh ==> -SAMPLE_LIMIT <= #[trigger] frames@[g]@[p]
                        <= SAMPLE_LIMIT,
            decreases frames@.len() - f,
        {
            let frame = &frames[f];
            if frame.len() != wh {
                return Err(DecodeError::UnexpectedPixelFormat);
            }
            let mut p: usize = 0;
            while p < frame.len()
                invariant
                    p <= frame@.len(),
                    frame == &frames[f as int],
                    0 <= f < frames@.len(),
                    forall|q: int|
                        0 <= q < p ==> -SAMPLE_LIMIT <= #[trigger] frame@[q] <= SAMPLE_LIMIT,
                decreases frame@.len() - p,
            {
                let v = frame[p];
                if v < -SAMPLE_LIMIT || v > SAMPLE_LIMIT {
                    return Err(DecodeError::UnexpectedPixelFormat);
                }
                p += 1;
            }
            f += 1;
        }
        Ok(ImageStack { width, height, frames })
    }
}

/// Copies the `width * height` region of one sample plane into another,
/// leaving everything outside the region as it was.
pub fn copy_buffer(in_buff: &Vec<Vec<i64>>, out_buff: &mut Vec<Vec<i64>>, width: usize, height: usize)
    requires
        in_buff@.len() >= height,
        old(out_buff)@.len() >= height,
        forall|y: int| 0 <= y < height ==> (#[trigger] in_buff@[y])@.len() >= width,
        forall|y: int| 0 <= y < height ==> (#[trigger] old(out_buff)@[y])@.len() >= width,
    ensures
        final(out_buff)@.len() == old(out_buff)@.len(),
        forall|y: int|
            0 <= y < height ==> (#[trigger] final(out_buff)@[y])@.len() == old(out_buff)@[y]@.len(),
        forall|y: int, x: int|
            0 <= y < height && 0 <= x < width ==> #[trigger] final(out_buff)@[y]@[x] == in_buff@[y]@[x],
        forall|y: int, x: int|
            0 <= y < height && width <= x < old(out_buff)@[y]@.len() ==> #[trigger] final(out_buff)@[y]@[x]
                == old(out_buff)@[y]@[x],
        forall|y: int|
            height <= y < old(out_buff)@.len() ==> #[trigger] final(out_buff)@[y] == old(out_buff)@[y],
{
    let mut y: usize = 0;
    while y < height
        invariant
            y <= height,
            height <= in_buff@.len(),
            height <= out_buff@.len(),
            out_buff@.len() == old(out_buff)@.len(),
            forall|r: int| 0 <= r < height ==> (#[trigger] in_buff@[r])@.len() >= width,
            forall|r: int| 0 <= r < height ==> (#[trigger] old(out_buff)@[r])@.len() >= width,
            forall|r: int|
                0 <= r < y ==> (#[trigger] out_buff@[r])@.len() == old(out_buff)@[r]@.len(),
            forall|r: int, x: int|
                0 <= r < y && 0 <= x < width ==> #[trigger] out_buff@[r]@[x] == in_buff@[r]@[x],
            forall|r: int, x: int|
                0 <= r < y && width <= x < old(out_buff)@[r]@.len() ==> #[trigger] out_buff@[r]@[x]
                    == old(out_buff)@[r]@[x],
            forall|r: int| y <= r < old(out_buff)@.len() ==> #[trigger] out_buff@[r] == old(out_buff)@[r],
        decreases height - y,
    {
        let mut row: Vec<i64> = Vec::new();
        let mut x: usize = 0;
        while x < width
            invariant
                x <= width,
                y < height,
                height <= in_buff@.len(),
                width <= in_buff@[y as int]@.len(),
                row@.len() == x,
                forall|c: int| 0 <= c < x ==> #[trigger] row@[c] == in_buff@[y as int]@[c],
            decreases width - x,
        {
            row.push(in_buff[y][x]);
            x += 1;
        }
        let old_row_len = out_buff[y].len();
        while x < old_row_len
            invariant
                width <= x <= old_row_len,
                y < height,
                out_buff@.len() == old(out_buff)@.len(),
                y < out_buff@.len(),
                out_buff@[y as int] == old(out_buff)@[y as int],
                old_row_len == out_buff@[y as int]@.len(),
                row@.len() == x,
                forall|c: int| 0 <= c < width ==> #[trigger] row@[c] == in_buff@[y as int]@[c],
                forall|c: int|
                    width <= c < x ==> #[trigger] row@[c] == old(out_buff)@[y as int]@[c],
            decreases old_row_len - x,
        {
            row.push(out_buff[y][x]);
            x += 1;
        }
        out_buff.set(y, row);
        y += 1;
    }
}

} // verus!
