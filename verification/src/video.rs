//! Conversion of a captured RGBA frame to planar YUV 4:2:0, and the protocol
//! of the encoder that the converted frames are fed to.

use vstd::prelude::*;
use vstd::arithmetic::div_mod::lemma_fundamental_div_mod_converse;
use crate::args::Args;
use crate::output::Action;
use crate::util::Size;
use crate::Error;

verus! {

/// The luma of a pixel: its projection on (66, 129, 25) / 256, offset by 16
/// and truncated. The coefficients are those of studio-range BT.601.
pub open spec fn luma(r: int, g: int, b: int) -> int {
    (66 * r + 129 * g + 25 * b) / 256 + 16
}

/// The blue-difference chroma of a block of four pixels, given the sums of
/// their red, green and blue samples: the projection of their mean on
/// (-38, -74, 112) / 256, offset by 128 and truncated.
///
/// The mean is a quarter of the sum, so the projection is the sum's over
/// 1024. With its offset it is never negative, so truncating is rounding
/// down.
pub open spec fn chroma_u(r: int, g: int, b: int) -> int {
    (128 * 1024 - 38 * r - 74 * g + 112 * b) / 1024
}

/// The red-difference chroma of a block of four pixels, given the sums of
/// their samples: the projection of their mean on (112, -94, -18) / 256,
/// offset by 128 and truncated.
pub open spec fn chroma_v(r: int, g: int, b: int) -> int {
    (128 * 1024 + 112 * r - 94 * g - 18 * b) / 1024
}

/// Channel `c` (0 red, 1 green, 2 blue, 3 alpha) of the pixel at `(x, y)` of
/// a packed RGBA frame whose rows are `bytes_per_row` apart.
pub open spec fn channel(src: Seq<u8>, bytes_per_row: int, x: int, y: int, c: int) -> int {
    src[y * bytes_per_row + x * 4 + c] as int
}

/// The luma of the pixel at `(x, y)`.
pub open spec fn luma_at(src: Seq<u8>, bytes_per_row: int, x: int, y: int) -> int {
    luma(
        channel(src, bytes_per_row, x, y, 0),
        channel(src, bytes_per_row, x, y, 1),
        channel(src, bytes_per_row, x, y, 2),
    )
}

/// The sum of channel `c` over the two by two block at `(x, y)`, in blocks.
pub open spec fn block_sum(src: Seq<u8>, bytes_per_row: int, x: int, y: int, c: int) -> int {
    channel(src, bytes_per_row, 2 * x, 2 * y, c) + channel(src, bytes_per_row, 2 * x, 2 * y + 1, c)
        + channel(src, bytes_per_row, 2 * x + 1, 2 * y, c) + channel(
        src,
        bytes_per_row,
        2 * x + 1,
        2 * y + 1,
        c,
    )
}

/// The blue-difference chroma of the block at `(x, y)`, in blocks.
pub open spec fn chroma_u_at(src: Seq<u8>, bytes_per_row: int, x: int, y: int) -> int {
    chroma_u(
        block_sum(src, bytes_per_row, x, y, 0),
        block_sum(src, bytes_per_row, x, y, 1),
        block_sum(src, bytes_per_row, x, y, 2),
    )
}

/// The red-difference chroma of the block at `(x, y)`, in blocks.
pub open spec fn chroma_v_at(src: Seq<u8>, bytes_per_row: int, x: int, y: int) -> int {
    chroma_v(
        block_sum(src, bytes_per_row, x, y, 0),
        block_sum(src, bytes_per_row, x, y, 1),
        block_sum(src, bytes_per_row, x, y, 2),
    )
}

/// A packed RGBA frame of `len` bytes holds `width` by `height` pixels in
/// rows that are `bytes_per_row` apart.
pub open spec fn frame_fits(len: int, bytes_per_row: int, width: int, height: int) -> bool {
    width > 0 && height > 0 ==> (height - 1) * bytes_per_row + width * 4 <= len
}

/// Byte `i` of a plane with lines of `linesize` bytes is one of its `width`
/// by `height` samples, and not padding.
pub open spec fn in_plane(i: int, linesize: int, width: int, height: int) -> bool {
    linesize > 0 && i % linesize < width && i / linesize < height
}

/// One plane of a frame: lines of `linesize` bytes, of which the first ones
/// of each line are samples and the rest is padding.
pub struct FrameData {
    pub buf: Vec<u8>,
    pub linesize: usize,
}

impl FrameData {
    /// The sample at `(x, y)`, or 0 where the plane has no such byte.
    pub open spec fn at(&self, x: int, y: int) -> int {
        let i = y * self.linesize + x;
        if 0 <= i < self.buf.len() {
            self.buf@[i] as int
        } else {
            0
        }
    }

    /// The plane has room for `width` by `height` samples.
    pub open spec fn holds(&self, width: int, height: int) -> bool {
        &&& width <= self.linesize
        &&& width > 0 && height > 0 ==> (height - 1) * self.linesize + width <= self.buf.len()
    }

    /// A plane of `height` lines of `linesize` bytes, all zero.
    pub fn new(linesize: usize, height: usize) -> (plane: Self)
        requires
            linesize * height <= usize::MAX,
        ensures
            plane.linesize == linesize,
            plane.buf.len() == linesize * height,
            forall|i: int| 0 <= i < plane.buf.len() ==> plane.buf@[i] == 0,
            forall|width: int, height2: int|
                width <= linesize && height2 <= height ==> plane.holds(width, height2),
    {
        let buf = vec![0u8; linesize * height];
        let plane = Self { buf, linesize };
        assert forall|width: int, height2: int|
            width <= linesize && height2 <= height implies plane.holds(width, height2) by {
            if width > 0 && height2 > 0 {
                assert((height2 - 1) * linesize + width <= linesize * height) by (nonlinear_arith)
                    requires
                        0 < width <= linesize,
                        0 < height2 <= height,
                ;
            }
        }
        plane
    }

    /// The sample at `(x, y)`.
    pub fn index(&self, x: usize, y: usize) -> (sample: u8)
        requires
            y * self.linesize + x < self.buf.len(),
        ensures
            sample == self.at(x as int, y as int),
    {
        assert(0 <= y * self.linesize) by (nonlinear_arith);
        self.buf[y * self.linesize + x]
    }

    /// Stores `sample` at `(x, y)`. Where `x` lies within a line, every other
    /// sample of the plane stays.
    pub fn set(&mut self, x: usize, y: usize, sample: u8)
        requires
            y * old(self).linesize + x < old(self).buf.len(),
        ensures
            final(self).linesize == old(self).linesize,
            final(self).buf@ == old(self).buf@.update(y * old(self).linesize + x, sample),
            final(self).at(x as int, y as int) == sample,
            x < old(self).linesize ==> forall|x2: int, y2: int|
                0 <= x2 < old(self).linesize && !(x2 == x && y2 == y)
                    ==> #[trigger] final(self).at(x2, y2) == old(self).at(x2, y2),
    {
        assert(0 <= y * self.linesize) by (nonlinear_arith);
        let i = y * self.linesize + x;
        self.buf.set(i, sample);
        proof {
            let linesize = self.linesize as int;
            if x < linesize {
                assert forall|x2: int, y2: int|
                    0 <= x2 < linesize && !(x2 == x && y2 == y) implies #[trigger] self.at(x2, y2)
                    == old(self).at(x2, y2) by {
                    if y2 * linesize + x2 == y * linesize + x {
                        lemma_sample_index_injective(linesize, x2, y2, x as int, y as int);
                    }
                }
            }
        }
    }
}

/// Two places of a plane that lie within its lines are the same byte only if
/// they are the same place.
pub proof fn lemma_sample_index_injective(linesize: int, x1: int, y1: int, x2: int, y2: int)
    requires
        0 <= x1 < linesize,
        0 <= x2 < linesize,
        y1 * linesize + x1 == y2 * linesize + x2,
    ensures
        x1 == x2,
        y1 == y2,
{
    assert(y1 == y2) by (nonlinear_arith)
        requires
            0 <= x1 < linesize,
            0 <= x2 < linesize,
            y1 * linesize + x1 == y2 * linesize + x2,
    ;
    assert(y1 * linesize == y2 * linesize);
}

/// The sample at `(x, y)` of a plane that holds `width` by `height` samples
/// is byte `y * linesize + x` of it, which is no padding.
pub proof fn lemma_sample_in_plane(
    len: int,
    linesize: int,
    width: int,
    height: int,
    x: int,
    y: int,
)
    requires
        0 <= x < width <= linesize,
        0 <= y < height,
        (height - 1) * linesize + width <= len,
    ensures
        0 <= y * linesize + x < len,
        in_plane(y * linesize + x, linesize, width, height),
        (y * linesize + x) / linesize == y,
        (y * linesize + x) % linesize == x,
{
    assert(0 <= y * linesize <= (height - 1) * linesize) by (nonlinear_arith)
        requires
            0 <= y <= height - 1,
            0 < linesize,
    ;
    assert(y * linesize == linesize * y) by (nonlinear_arith);
    lemma_fundamental_div_mod_converse(y * linesize + x, linesize, y, x);
}

/// The four bytes of the pixel at `(x, y)` lie within a frame that holds
/// `width` by `height` pixels.
pub proof fn lemma_pixel_in_frame(
    len: int,
    bytes_per_row: int,
    width: int,
    height: int,
    x: int,
    y: int,
)
    requires
        0 <= bytes_per_row,
        0 <= x < width,
        0 <= y < height,
        frame_fits(len, bytes_per_row, width, height),
    ensures
        y * bytes_per_row + x * 4 + 4 <= len,
{
    assert(0 <= y * bytes_per_row <= (height - 1) * bytes_per_row) by (nonlinear_arith)
        requires
            0 <= y <= height - 1,
            0 <= bytes_per_row,
    ;
}

/// The red, green and blue samples of the pixel at `(x, y)`.
fn pixel(src: &[u8], bytes_per_row: usize, x: usize, y: usize) -> (rgb: (u8, u8, u8))
    requires
        y * bytes_per_row + x * 4 + 4 <= src.len(),
    ensures
        rgb.0 == channel(src@, bytes_per_row as int, x as int, y as int, 0),
        rgb.1 == channel(src@, bytes_per_row as int, x as int, y as int, 1),
        rgb.2 == channel(src@, bytes_per_row as int, x as int, y as int, 2),
{
    assert(0 <= y * bytes_per_row) by (nonlinear_arith);
    let base = x * 4 + y * bytes_per_row;
    (src[base], src[base + 1], src[base + 2])
}

/// The luma of a pixel.
fn luma_of(rgb: (u8, u8, u8)) -> (sample: u8)
    ensures
        sample == luma(rgb.0 as int, rgb.1 as int, rgb.2 as int),
{
    let sum: u32 = 66 * (rgb.0 as u32) + 129 * (rgb.1 as u32) + 25 * (rgb.2 as u32);
    (sum / 256 + 16) as u8
}

/// The blue-difference chroma of a block, from the sums of its samples.
fn chroma_u_of(r: u32, g: u32, b: u32) -> (sample: u8)
    requires
        r <= 1020,
        g <= 1020,
        b <= 1020,
    ensures
        sample == chroma_u(r as int, g as int, b as int),
{
    ((128 * 1024 + 112 * b - 38 * r - 74 * g) / 1024) as u8
}

/// The red-difference chroma of a block, from the sums of its samples.
fn chroma_v_of(r: u32, g: u32, b: u32) -> (sample: u8)
    requires
        r <= 1020,
        g <= 1020,
        b <= 1020,
    ensures
        sample == chroma_v(r as int, g as int, b as int),
{
    ((128 * 1024 + 112 * r - 94 * g - 18 * b) / 1024) as u8
}

/// The blue-difference chroma of a single pixel.
pub open spec fn chroma_u_pixel(r: int, g: int, b: int) -> int {
    (128 * 256 - 38 * r - 74 * g + 112 * b) / 256
}

/// The red-difference chroma of a single pixel.
pub open spec fn chroma_v_pixel(r: int, g: int, b: int) -> int {
    (128 * 256 + 112 * r - 94 * g - 18 * b) / 256
}

/// Luma stays within the studio range, and so fits a byte.
pub proof fn lemma_luma_range(r: int, g: int, b: int)
    requires
        0 <= r <= 255,
        0 <= g <= 255,
        0 <= b <= 255,
    ensures
        16 <= luma(r, g, b) <= 235,
{
}

/// The chroma of a block stays within the studio range, and so fits a byte.
pub proof fn lemma_chroma_range(r: int, g: int, b: int)
    requires
        0 <= r <= 4 * 255,
        0 <= g <= 4 * 255,
        0 <= b <= 4 * 255,
    ensures
        16 <= chroma_u(r, g, b) <= 240,
        16 <= chroma_v(r, g, b) <= 240,
{
}

/// A block of four equal pixels has the chroma of that pixel: averaging
/// changes nothing.
pub proof fn lemma_chroma_of_equal_pixels(r: int, g: int, b: int)
    ensures
        chroma_u(4 * r, 4 * g, 4 * b) == chroma_u_pixel(r, g, b),
        chroma_v(4 * r, 4 * g, 4 * b) == chroma_v_pixel(r, g, b),
{
}

/// A frame of one colour converts to three uniform planes: every luma is
/// that of the colour, and every chroma pair is that of a single pixel of it.
pub proof fn lemma_solid_color(
    src: Seq<u8>,
    bytes_per_row: int,
    width: int,
    height: int,
    r: int,
    g: int,
    b: int,
)
    requires
        forall|x: int, y: int|
            0 <= x < width && 0 <= y < height ==> {
                &&& #[trigger] channel(src, bytes_per_row, x, y, 0) == r
                &&& channel(src, bytes_per_row, x, y, 1) == g
                &&& channel(src, bytes_per_row, x, y, 2) == b
            },
    ensures
        forall|x: int, y: int|
            0 <= x < width && 0 <= y < height ==> #[trigger] luma_at(src, bytes_per_row, x, y)
                == luma(r, g, b),
        forall|x: int, y: int|
            0 <= x < width / 2 && 0 <= y < height / 2 ==> #[trigger] chroma_u_at(
                src,
                bytes_per_row,
                x,
                y,
            ) == chroma_u_pixel(r, g, b),
        forall|x: int, y: int|
            0 <= x < width / 2 && 0 <= y < height / 2 ==> #[trigger] chroma_v_at(
                src,
                bytes_per_row,
                x,
                y,
            ) == chroma_v_pixel(r, g, b),
{
    assert forall|x: int, y: int| 0 <= x < width / 2 && 0 <= y < height / 2 implies {
        &&& #[trigger] chroma_u_at(src, bytes_per_row, x, y) == chroma_u_pixel(r, g, b)
        &&& chroma_v_at(src, bytes_per_row, x, y) == chroma_v_pixel(r, g, b)
    } by {
        assert(channel(src, bytes_per_row, 2 * x, 2 * y, 0) == r);
        assert(channel(src, bytes_per_row, 2 * x, 2 * y + 1, 0) == r);
        assert(channel(src, bytes_per_row, 2 * x + 1, 2 * y, 0) == r);
        assert(channel(src, bytes_per_row, 2 * x + 1, 2 * y + 1, 0) == r);
        lemma_chroma_of_equal_pixels(r, g, b);
    }
}

/// Converts a packed RGBA frame to planar YUV 4:2:0.
///
/// Every pixel gets its luma; every block of two by two pixels gets one
/// chroma pair, taken from the mean of its four pixels. Alpha is ignored, and
/// the padding of the planes is left as it was.
pub fn rgba2yuv420(
    src: &[u8],
    dst_y: &mut FrameData,
    dst_u: &mut FrameData,
    dst_v: &mut FrameData,
    src_bytes_per_row: usize,
    width: usize,
    height: usize,
)
    requires
        width % 2 == 0,
        height % 2 == 0,
        frame_fits(src.len() as int, src_bytes_per_row as int, width as int, height as int),
        old(dst_y).holds(width as int, height as int),
        old(dst_u).holds(width as int / 2, height as int / 2),
        old(dst_v).holds(width as int / 2, height as int / 2),
    ensures
        final(dst_y).linesize == old(dst_y).linesize,
        final(dst_u).linesize == old(dst_u).linesize,
        final(dst_v).linesize == old(dst_v).linesize,
        final(dst_y).buf.len() == old(dst_y).buf.len(),
        final(dst_u).buf.len() == old(dst_u).buf.len(),
        final(dst_v).buf.len() == old(dst_v).buf.len(),
        forall|x: int, y: int|
            0 <= x < width && 0 <= y < height ==> #[trigger] final(dst_y).at(x, y) == luma_at(
                src@,
                src_bytes_per_row as int,
                x,
                y,
            ),
        forall|x: int, y: int|
            0 <= x < width / 2 && 0 <= y < height / 2 ==> #[trigger] final(dst_u).at(x, y)
                == chroma_u_at(src@, src_bytes_per_row as int, x, y),
        forall|x: int, y: int|
            0 <= x < width / 2 && 0 <= y < height / 2 ==> #[trigger] final(dst_v).at(x, y)
                == chroma_v_at(src@, src_bytes_per_row as int, x, y),
        forall|i: int|
            0 <= i < old(dst_y).buf.len() && !in_plane(
                i,
                old(dst_y).linesize as int,
                width as int,
                height as int,
            ) ==> final(dst_y).buf@[i] == old(dst_y).buf@[i],
        forall|i: int|
            0 <= i < old(dst_u).buf.len() && !in_plane(
                i,
                old(dst_u).linesize as int,
                width as int / 2,
                height as int / 2,
            ) ==> final(dst_u).buf@[i] == old(dst_u).buf@[i],
        forall|i: int|
            0 <= i < old(dst_v).buf.len() && !in_plane(
                i,
                old(dst_v).linesize as int,
                width as int / 2,
                height as int / 2,
            ) ==> final(dst_v).buf@[i] == old(dst_v).buf@[i],
{
    let ghost y0 = dst_y.buf@;
    let ghost u0 = dst_u.buf@;
    let ghost v0 = dst_v.buf@;
    let ghost ls_y = dst_y.linesize as int;
    let ghost ls_u = dst_u.linesize as int;
    let ghost ls_v = dst_v.linesize as int;
    let ghost w = width as int;
    let ghost h = height as int;
    let ghost bpr = src_bytes_per_row as int;
    let mut y: usize = 0;
    while y < height / 2
        invariant
            y <= height / 2,
            w == width,
            h == height,
            bpr == src_bytes_per_row,
            width % 2 == 0,
            height % 2 == 0,
            frame_fits(src.len() as int, bpr, w, h),
            dst_y.linesize == ls_y,
            dst_u.linesize == ls_u,
            dst_v.linesize == ls_v,
            dst_y.buf@.len() == y0.len(),
            dst_u.buf@.len() == u0.len(),
            dst_v.buf@.len() == v0.len(),
            dst_y.holds(w, h),
            dst_u.holds(w / 2, h / 2),
            dst_v.holds(w / 2, h / 2),
            forall|px: int, py: int|
                0 <= px < w && 0 <= py < 2 * y ==> #[trigger] dst_y.at(px, py) == luma_at(
                    src@,
                    bpr,
                    px,
                    py,
                ),
            forall|bx: int, by: int|
                0 <= bx < w / 2 && 0 <= by < y ==> #[trigger] dst_u.at(bx, by) == chroma_u_at(
                    src@,
                    bpr,
                    bx,
                    by,
                ),
            forall|bx: int, by: int|
                0 <= bx < w / 2 && 0 <= by < y ==> #[trigger] dst_v.at(bx, by) == chroma_v_at(
                    src@,
                    bpr,
                    bx,
                    by,
                ),
            forall|i: int|
                0 <= i < y0.len() && !in_plane(i, ls_y, w, h) ==> dst_y.buf@[i] == y0[i],
            forall|i: int|
                0 <= i < u0.len() && !in_plane(i, ls_u, w / 2, h / 2) ==> dst_u.buf@[i] == u0[i],
            forall|i: int|
                0 <= i < v0.len() && !in_plane(i, ls_v, w / 2, h / 2) ==> dst_v.buf@[i] == v0[i],
        decreases height / 2 - y,
    {
        let mut x: usize = 0;
        while x < width / 2
            invariant
                x <= width / 2,
                y < height / 2,
                w == width,
                h == height,
                bpr == src_bytes_per_row,
                width % 2 == 0,
                height % 2 == 0,
                frame_fits(src.len() as int, bpr, w, h),
                dst_y.linesize == ls_y,
                dst_u.linesize == ls_u,
                dst_v.linesize == ls_v,
                dst_y.buf@.len() == y0.len(),
                dst_u.buf@.len() == u0.len(),
                dst_v.buf@.len() == v0.len(),
                dst_y.holds(w, h),
                dst_u.holds(w / 2, h / 2),
                dst_v.holds(w / 2, h / 2),
                forall|px: int, py: int|
                    0 <= px < w && 0 <= py < 2 * y ==> #[trigger] dst_y.at(px, py) == luma_at(
                        src@,
                        bpr,
                        px,
                        py,
                    ),
                forall|px: int, py: int|
                    0 <= px < 2 * x && 2 * y <= py < 2 * y + 2 ==> #[trigger] dst_y.at(px, py)
                        == luma_at(src@, bpr, px, py),
                forall|bx: int, by: int|
                    0 <= bx < w / 2 && 0 <= by < y ==> #[trigger] dst_u.at(bx, by)
                        == chroma_u_at(src@, bpr, bx, by),
                forall|bx: int, by: int|
                    0 <= bx < x && by == y ==> #[trigger] dst_u.at(bx, by) == chroma_u_at(
                        src@,
                        bpr,
                        bx,
                        by,
                    ),
                forall|bx: int, by: int|
                    0 <= bx < w / 2 && 0 <= by < y ==> #[trigger] dst_v.at(bx, by)
                        == chroma_v_at(src@, bpr, bx, by),
                forall|bx: int, by: int|
                    0 <= bx < x && by == y ==> #[trigger] dst_v.at(bx, by) == chroma_v_at(
                        src@,
                        bpr,
                        bx,
                        by,
                    ),
                forall|i: int|
                    0 <= i < y0.len() && !in_plane(i, ls_y, w, h) ==> dst_y.buf@[i] == y0[i],
                forall|i: int|
                    0 <= i < u0.len() && !in_plane(i, ls_u, w / 2, h / 2) ==> dst_u.buf@[i]
                        == u0[i],
                forall|i: int|
                    0 <= i < v0.len() && !in_plane(i, ls_v, w / 2, h / 2) ==> dst_v.buf@[i]
                        == v0[i],
            decreases width / 2 - x,
        {
            let px = x * 2;
            let py = y * 2;
            proof {
                let len = src.len() as int;
                lemma_pixel_in_frame(len, bpr, w, h, px as int, py as int);
                lemma_pixel_in_frame(len, bpr, w, h, px as int, py + 1);
                lemma_pixel_in_frame(len, bpr, w, h, px + 1, py as int);
                lemma_pixel_in_frame(len, bpr, w, h, px + 1, py + 1);
                let len_y = y0.len() as int;
                lemma_sample_in_plane(len_y, ls_y, w, h, px as int, py as int);
                lemma_sample_in_plane(len_y, ls_y, w, h, px as int, py + 1);
                lemma_sample_in_plane(len_y, ls_y, w, h, px + 1, py as int);
                lemma_sample_in_plane(len_y, ls_y, w, h, px + 1, py + 1);
                lemma_sample_in_plane(u0.len() as int, ls_u, w / 2, h / 2, x as int, y as int);
                lemma_sample_in_plane(v0.len() as int, ls_v, w / 2, h / 2, x as int, y as int);
            }
            let pix00 = pixel(src, src_bytes_per_row, px, py);
            let pix01 = pixel(src, src_bytes_per_row, px, py + 1);
            let pix10 = pixel(src, src_bytes_per_row, px + 1, py);
            let pix11 = pixel(src, src_bytes_per_row, px + 1, py + 1);
            let r = pix00.0 as u32 + pix01.0 as u32 + pix10.0 as u32 + pix11.0 as u32;
            let g = pix00.1 as u32 + pix01.1 as u32 + pix10.1 as u32 + pix11.1 as u32;
            let b = pix00.2 as u32 + pix01.2 as u32 + pix10.2 as u32 + pix11.2 as u32;

            dst_y.set(px, py, luma_of(pix00));
            dst_y.set(px, py + 1, luma_of(pix01));
            dst_y.set(px + 1, py, luma_of(pix10));
            dst_y.set(px + 1, py + 1, luma_of(pix11));
            dst_u.set(x, y, chroma_u_of(r, g, b));
            dst_v.set(x, y, chroma_v_of(r, g, b));
            x += 1;
        }
        y += 1;
    }
}

/// A time base or a rate: `num / den`.
#[derive(Debug, Clone, Copy, PartialEq, Eq, Structural)]
pub struct Rational {
    pub num: i32,
    pub den: i32,
}

/// The frames between two full reference frames.
pub const GOP_SIZE: i32 = 10;

/// The most bidirectional frames between two others.
pub const MAX_B_FRAMES: i32 = 1;

/// What the codec is opened with. The pixel format is planar YUV 4:2:0.
#[derive(Debug, Clone, Copy, PartialEq, Eq, Structural)]
pub struct EncoderConfig {
    pub width: i32,
    pub height: i32,
    pub time_base: Rational,
    pub framerate: Rational,
    pub gop_size: i32,
    pub max_b_frames: i32,
}

/// Where a stream stands.
#[derive(Debug, Clone, Copy, PartialEq, Eq, Structural)]
pub enum EncoderState {
    /// The codec is open and no frame has been submitted.
    Created,
    /// A frame was stamped for submission, and the codec has not answered.
    Submitted,
    /// The codec took a frame and its packets are being taken.
    Draining,
    /// Frames were submitted and the next one is awaited.
    Encoding,
    /// The end of the stream was submitted and the last packets are being
    /// taken.
    Flushing,
    /// The trailer is due or written; nothing else is.
    Finalized,
    /// A failure ended the session.
    Aborted,
}

/// What came of the last action: of submitting to the codec, of asking it
/// for a packet, or of writing the last packet.
#[derive(Debug, Clone, Copy, PartialEq, Eq, Structural)]
pub enum Event {
    /// The codec did not take what was submitted to it.
    Rejected,
    /// The codec handed out a packet.
    Packet,
    /// The codec has no packet ready yet.
    NotReady,
    /// The codec is fully flushed.
    Flushed,
    /// The codec failed in any other way when asked for a packet.
    CodecError,
    /// The muxer could not write the packet.
    IoError,
}

/// An operation on a stream.
pub enum Op {
    Encode,
    Conclude,
    Write(Event),
}

/// The part of a stream that its protocol depends on.
pub struct Session {
    pub state: EncoderState,
    pub frame_counter: int,
    pub time_base: Rational,
}

/// The codec answered a request for a packet, and so had taken what was
/// submitted before.
pub open spec fn taken(event: Event) -> bool {
    event == Event::Packet || event == Event::NotReady || event == Event::Flushed || event
        == Event::CodecError
}

/// The stream after `op`, and what the caller is told.
///
/// The counter counts the frames that the codec took: a frame is stamped
/// with it when it is handed out for submission, and counted when the
/// codec's first answer shows that it was taken.
pub open spec fn step(s: Session, op: Op) -> (Session, Result<Action, Error>) {
    match s.state {
        EncoderState::Created | EncoderState::Encoding => match op {
            Op::Encode => if s.frame_counter < i64::MAX {
                (
                    Session { state: EncoderState::Submitted, ..s },
                    Ok(Action::SendFrame { pts: s.frame_counter as i64 }),
                )
            } else {
                (s, Err(Error::FrameLimit))
            },
            Op::Conclude => (Session { state: EncoderState::Flushing, ..s }, Ok(Action::SendFlush)),
            Op::Write(_) => (s, Err(Error::NotDraining)),
        },
        EncoderState::Submitted | EncoderState::Draining | EncoderState::Flushing => match op {
            Op::Encode | Op::Conclude => (s, Err(Error::Draining)),
            Op::Write(event) => {
                let counted = if s.state == EncoderState::Submitted && taken(event) {
                    s.frame_counter + 1
                } else {
                    s.frame_counter
                };
                let flushing = s.state == EncoderState::Flushing;
                match event {
                    Event::Packet => (
                        Session {
                            state: if flushing {
                                EncoderState::Flushing
                            } else {
                                EncoderState::Draining
                            },
                            frame_counter: counted,
                            ..s
                        },
                        Ok(Action::WritePacket { time_base: s.time_base }),
                    ),
                    Event::NotReady | Event::Flushed => if flushing {
                        (
                            Session {
                                state: EncoderState::Finalized,
                                frame_counter: counted,
                                ..s
                            },
                            Ok(Action::WriteTrailer),
                        )
                    } else {
                        (
                            Session {
                                state: EncoderState::Encoding,
                                frame_counter: counted,
                                ..s
                            },
                            Ok(Action::Idle),
                        )
                    },
                    Event::Rejected | Event::CodecError => (
                        Session { state: EncoderState::Aborted, frame_counter: counted, ..s },
                        Err(Error::Codec),
                    ),
                    Event::IoError => (
                        Session { state: EncoderState::Aborted, frame_counter: counted, ..s },
                        Err(Error::Io),
                    ),
                }
            },
        },
        EncoderState::Finalized => (s, Err(Error::Finalized)),
        EncoderState::Aborted => (s, Err(Error::Aborted)),
    }
}

/// The stream after the operations `ops`, one after the other.
pub open spec fn run(s: Session, ops: Seq<Op>) -> Session
    decreases ops.len(),
{
    if ops.len() == 0 {
        s
    } else {
        step(run(s, ops.drop_last()), ops.last()).0
    }
}

/// The presentation timestamps of the frames that `ops` submit, in order.
pub open spec fn stamps(s: Session, ops: Seq<Op>) -> Seq<int>
    decreases ops.len(),
{
    if ops.len() == 0 {
        Seq::empty()
    } else {
        let before = stamps(s, ops.drop_last());
        match step(run(s, ops.drop_last()), ops.last()).1 {
            Ok(Action::SendFrame { pts }) => before.push(pts as int),
            _ => before,
        }
    }
}

/// Whatever is done to a stream, the frames that it hands out for submission
/// are stamped with consecutive timestamps, starting at the counter it began
/// with, and the counter has gone up by one for each that the codec took: it
/// is behind the stamps by one only while the last frame awaits the codec's
/// answer, or after the codec rejected it.
pub proof fn lemma_stamps_are_consecutive(s: Session, ops: Seq<Op>)
    requires
        0 <= s.frame_counter,
        s.state != EncoderState::Submitted,
    ensures
        run(s, ops).time_base == s.time_base,
        forall|i: int| 0 <= i < stamps(s, ops).len() ==> stamps(s, ops)[i] == s.frame_counter + i,
        run(s, ops).state == EncoderState::Submitted ==> run(s, ops).frame_counter + 1
            == s.frame_counter + stamps(s, ops).len(),
        run(s, ops).state != EncoderState::Submitted && run(s, ops).state
            != EncoderState::Aborted ==> run(s, ops).frame_counter == s.frame_counter + stamps(
            s,
            ops,
        ).len(),
        run(s, ops).state == EncoderState::Aborted ==> s.frame_counter + stamps(s, ops).len() - 1
            <= run(s, ops).frame_counter <= s.frame_counter + stamps(s, ops).len(),
    decreases ops.len(),
{
    if ops.len() > 0 {
        lemma_stamps_are_consecutive(s, ops.drop_last());
    }
}

/// The counter goes up by one where the codec's first answer to a submitted
/// frame shows that it took the frame, and nowhere else: a frame that the
/// codec rejects is not counted, and ends the session.
pub proof fn lemma_counter_counts_taken_frames(s: Session, op: Op)
    ensures
        step(s, op).0.frame_counter == if s.state == EncoderState::Submitted && (op matches Op::Write(
            event,
        ) && taken(event)) {
            s.frame_counter + 1
        } else {
            s.frame_counter
        },
        s.state == EncoderState::Submitted ==> step(s, Op::Write(Event::Rejected)) == (
            Session { state: EncoderState::Aborted, ..s },
            Err::<Action, Error>(Error::Codec),
        ),
{
}

/// A stream ends in order: only a conclusion starts the flush, with the empty
/// frame; only the codec running dry during the flush finalizes, with the
/// trailer; and what is finalized or aborted stays so.
pub proof fn lemma_conclusion_in_order(s: Session, op: Op)
    ensures
        step(s, op).0.state == EncoderState::Flushing && s.state != EncoderState::Flushing ==> op
            is Conclude && step(s, op).1 == Ok::<Action, Error>(Action::SendFlush),
        step(s, op).0.state == EncoderState::Finalized && s.state != EncoderState::Finalized ==> {
            &&& s.state == EncoderState::Flushing
            &&& op == Op::Write(Event::NotReady) || op == Op::Write(Event::Flushed)
            &&& step(s, op).1 == Ok::<Action, Error>(Action::WriteTrailer)
        },
        step(s, op).1 == Ok::<Action, Error>(Action::WriteTrailer) ==> s.state
            == EncoderState::Flushing,
        s.state == EncoderState::Finalized || s.state == EncoderState::Aborted ==> step(s, op).0
            == s && step(s, op).1 is Err,
{
}

/// Once a stream is concluded it takes no frame and no second conclusion.
pub proof fn lemma_concluded_stays_concluded(s: Session, ops: Seq<Op>, op: Op)
    requires
        s.state == EncoderState::Flushing || s.state == EncoderState::Finalized,
        op is Encode || op is Conclude,
    ensures
        step(run(s, ops), op).1 is Err,
        run(s, ops).state == EncoderState::Flushing || run(s, ops).state
            == EncoderState::Finalized || run(s, ops).state == EncoderState::Aborted,
    decreases ops.len(),
{
    if ops.len() > 0 {
        lemma_concluded_stays_concluded(s, ops.drop_last(), Op::Encode);
    }
}

/// A frame size that a stream can be opened with: both sides are even, not
/// zero, and counted by the codec in 32 bits.
pub open spec fn valid_frame_size(size: Size) -> bool {
    &&& 0 < size.width <= i32::MAX
    &&& 0 < size.height <= i32::MAX
    &&& size.width % 2 == 0
    &&& size.height % 2 == 0
    &&& size.width * size.height <= usize::MAX
}

/// A frame rate that a stream can be opened with.
pub open spec fn valid_frame_rate(frame_rate: u32) -> bool {
    0 < frame_rate <= i32::MAX
}

/// The encoder of one video stream: its place in the protocol, the counter
/// that stamps its frames, and the planes that hold the frame to submit.
///
/// Its fields are its own, so every encoder is as `open` made it and its
/// methods left it: well formed.
pub struct VideoEncoder {
    size: Size,
    frame_rate: u32,
    frame_cnt: i64,
    state: EncoderState,
    y: FrameData,
    u: FrameData,
    v: FrameData,
}

/// What an encoder holds.
pub struct VideoEncoderView {
    pub size: Size,
    pub frame_rate: u32,
    pub frame_counter: i64,
    pub state: EncoderState,
    pub y: FrameData,
    pub u: FrameData,
    pub v: FrameData,
}

impl VideoEncoderView {
    /// The planes are packed, and as large as the frame asks.
    pub open spec fn wf(self) -> bool {
        &&& valid_frame_size(self.size)
        &&& valid_frame_rate(self.frame_rate)
        &&& 0 <= self.frame_counter
        &&& self.state == EncoderState::Submitted ==> self.frame_counter < i64::MAX
        &&& self.y.linesize == self.size.width
        &&& self.u.linesize == self.size.width / 2
        &&& self.v.linesize == self.size.width / 2
        &&& self.y.buf.len() == self.size.width * self.size.height
        &&& self.u.buf.len() == (self.size.width / 2) * (self.size.height / 2)
        &&& self.v.buf.len() == (self.size.width / 2) * (self.size.height / 2)
    }

    /// The encoder is as `open` makes it for frames of `size` at `frame_rate`
    /// frames per second: no frame submitted, and all planes zero.
    pub open spec fn fresh(self, size: Size, frame_rate: u32) -> bool {
        &&& self.wf()
        &&& self.size == size
        &&& self.frame_rate == frame_rate
        &&& self.state == EncoderState::Created
        &&& self.frame_counter == 0
        &&& forall|i: int| 0 <= i < self.y.buf.len() ==> self.y.buf@[i] == 0
        &&& forall|i: int| 0 <= i < self.u.buf.len() ==> self.u.buf@[i] == 0
        &&& forall|i: int| 0 <= i < self.v.buf.len() ==> self.v.buf@[i] == 0
    }

    /// The time base of the stream: one tick per frame.
    pub open spec fn time_base(self) -> Rational {
        Rational { num: 1, den: self.frame_rate as i32 }
    }

    /// The part that the protocol depends on.
    pub open spec fn session(self) -> Session {
        Session {
            state: self.state,
            frame_counter: self.frame_counter as int,
            time_base: self.time_base(),
        }
    }

    /// The planes hold the conversion of the frame `src`.
    pub open spec fn holds_frame(self, src: Seq<u8>) -> bool {
        let bytes_per_row = self.size.bytes_per_row as int;
        &&& forall|x: int, y: int|
            0 <= x < self.size.width && 0 <= y < self.size.height ==> #[trigger] self.y.at(x, y)
                == luma_at(src, bytes_per_row, x, y)
        &&& forall|x: int, y: int|
            0 <= x < self.size.width / 2 && 0 <= y < self.size.height / 2 ==> #[trigger] self.u.at(
                x,
                y,
            ) == chroma_u_at(src, bytes_per_row, x, y)
        &&& forall|x: int, y: int|
            0 <= x < self.size.width / 2 && 0 <= y < self.size.height / 2 ==> #[trigger] self.v.at(
                x,
                y,
            ) == chroma_v_at(src, bytes_per_row, x, y)
    }
}

impl View for VideoEncoder {
    type V = VideoEncoderView;

    closed spec fn view(&self) -> VideoEncoderView {
        VideoEncoderView {
            size: self.size,
            frame_rate: self.frame_rate,
            frame_counter: self.frame_cnt,
            state: self.state,
            y: self.y,
            u: self.u,
            v: self.v,
        }
    }
}

impl VideoEncoder {
    /// The encoder of the stream that `args` ask for.
    pub fn new(args: &Args) -> (result: Result<Self, Error>)
        ensures
            result matches Ok(encoder) && encoder@.fresh(
                Size::spec_new(args.quality.width(), args.quality.height()),
                args.quality.spec_frame_rate(),
            ),
    {
        Self::open(args.quality.size(), args.quality.frame_rate())
    }

    /// The encoder of a stream of frames of `size` at `frame_rate` frames per
    /// second, with no frame submitted yet and all planes zero.
    pub fn open(size: Size, frame_rate: u32) -> (result: Result<Self, Error>)
        ensures
            match result {
                Ok(encoder) => {
                    &&& valid_frame_size(size)
                    &&& valid_frame_rate(frame_rate)
                    &&& encoder@.fresh(size, frame_rate)
                },
                Err(e) => if !valid_frame_size(size) {
                    e == Error::InvalidSize
                } else {
                    !valid_frame_rate(frame_rate) && e == Error::InvalidFrameRate
                },
            },
    {
        if size.width == 0 || size.height == 0 || size.width > i32::MAX as u32 || size.height
            > i32::MAX as u32 || size.width % 2 != 0 || size.height % 2 != 0 {
            return Err(Error::InvalidSize);
        }
        assert(size.width * size.height <= 0x7fff_ffff * 0x7fff_ffff) by (nonlinear_arith)
            requires
                size.width <= 0x7fff_ffff,
                size.height <= 0x7fff_ffff,
        ;
        let samples: u64 = (size.width as u64) * (size.height as u64);
        if samples > usize::MAX as u64 {
            return Err(Error::InvalidSize);
        }
        if frame_rate == 0 || frame_rate > i32::MAX as u32 {
            return Err(Error::InvalidFrameRate);
        }
        let width = size.width as usize;
        let height = size.height as usize;
        assert((width / 2) * (height / 2) <= width * height) by (nonlinear_arith);
        let y = FrameData::new(width, height);
        let u = FrameData::new(width / 2, height / 2);
        let v = FrameData::new(width / 2, height / 2);
        Ok(Self { size, frame_rate, frame_cnt: 0, state: EncoderState::Created, y, u, v })
    }

    /// What the codec of this stream is opened with.
    pub fn config(&self) -> (config: EncoderConfig)
        requires
            self@.wf(),
        ensures
            config.width == self@.size.width,
            config.height == self@.size.height,
            config.time_base == self@.time_base(),
            config.framerate == (Rational { num: self@.frame_rate as i32, den: 1 }),
            config.gop_size == GOP_SIZE,
            config.max_b_frames == MAX_B_FRAMES,
    {
        EncoderConfig {
            width: self.size.width as i32,
            height: self.size.height as i32,
            time_base: Rational { num: 1, den: self.frame_rate as i32 },
            framerate: Rational { num: self.frame_rate as i32, den: 1 },
            gop_size: GOP_SIZE,
            max_b_frames: MAX_B_FRAMES,
        }
    }

    pub fn size(&self) -> (size: Size)
        ensures
            size == self@.size,
    {
        self.size
    }

    pub fn state(&self) -> (state: EncoderState)
        ensures
            state == self@.state,
    {
        self.state
    }

    /// The number of frames that the codec took, which is the timestamp that
    /// the next frame gets.
    pub fn frame_counter(&self) -> (counter: i64)
        ensures
            counter == self@.frame_counter,
    {
        self.frame_cnt
    }

    /// The luma plane and the two chroma planes of the frame to submit.
    pub fn planes(&self) -> (planes: (&FrameData, &FrameData, &FrameData))
        ensures
            *planes.0 == self@.y,
            *planes.1 == self@.u,
            *planes.2 == self@.v,
    {
        (&self.y, &self.u, &self.v)
    }

    /// Takes the captured frame `view`: converts it into the planes and stamps
    /// it with the counter, for the caller to submit. The frame is counted
    /// once the codec's answer shows that it took it.
    ///
    /// A stream that is not waiting for a frame refuses, and keeps its planes.
    pub fn encode(&mut self, view: &[u8]) -> (result: Result<Action, Error>)
        requires
            old(self)@.wf(),
            frame_fits(
                view.len() as int,
                old(self)@.size.bytes_per_row as int,
                old(self)@.size.width as int,
                old(self)@.size.height as int,
            ),
        ensures
            (final(self)@.session(), result) == step(old(self)@.session(), Op::Encode),
            final(self)@.wf(),
            final(self)@.size == old(self)@.size,
            final(self)@.frame_rate == old(self)@.frame_rate,
            result is Ok ==> final(self)@.holds_frame(view@),
            result is Err ==> final(self)@ == old(self)@,
    {
        match self.state {
            EncoderState::Created | EncoderState::Encoding => {
                if self.frame_cnt == i64::MAX {
                    return Err(Error::FrameLimit);
                }
                let width = self.size.width as usize;
                let height = self.size.height as usize;
                proof {
                    let w = width as int;
                    let h = height as int;
                    assert((h - 1) * w + w == w * h) by (nonlinear_arith);
                    assert((h / 2 - 1) * (w / 2) + w / 2 == (w / 2) * (h / 2)) by (nonlinear_arith);
                }
                rgba2yuv420(
                    view,
                    &mut self.y,
                    &mut self.u,
                    &mut self.v,
                    self.size.bytes_per_row as usize,
                    width,
                    height,
                );
                self.state = EncoderState::Submitted;
                Ok(Action::SendFrame { pts: self.frame_cnt })
            },
            EncoderState::Submitted | EncoderState::Draining | EncoderState::Flushing => Err(
                Error::Draining,
            ),
            EncoderState::Finalized => Err(Error::Finalized),
            EncoderState::Aborted => Err(Error::Aborted),
        }
    }

    /// Takes what came of the last action. The codec's first answer to a
    /// submitted frame tells whether it took the frame, which is counted
    /// then. A packet is written and another asked for; the codec running dry
    /// ends the drain, and after the end of the stream calls for the trailer;
    /// a rejection or a failure aborts.
    pub fn write(&mut self, event: Event) -> (result: Result<Action, Error>)
        requires
            old(self)@.wf(),
        ensures
            (final(self)@.session(), result) == step(old(self)@.session(), Op::Write(event)),
            final(self)@.wf(),
            final(self)@.size == old(self)@.size,
            final(self)@.frame_rate == old(self)@.frame_rate,
            final(self)@.y == old(self)@.y,
            final(self)@.u == old(self)@.u,
            final(self)@.v == old(self)@.v,
    {
        match self.state {
            EncoderState::Created | EncoderState::Encoding => Err(Error::NotDraining),
            EncoderState::Submitted | EncoderState::Draining | EncoderState::Flushing => {
                let flushing = self.state == EncoderState::Flushing;
                if self.state == EncoderState::Submitted {
                    match event {
                        Event::Packet | Event::NotReady | Event::Flushed | Event::CodecError => {
                            self.frame_cnt = self.frame_cnt + 1;
                        },
                        Event::Rejected | Event::IoError => {},
                    }
                }
                match event {
                    Event::Packet => {
                        self.state = if flushing {
                            EncoderState::Flushing
                        } else {
                            EncoderState::Draining
                        };
                        Ok(
                            Action::WritePacket {
                                time_base: Rational { num: 1, den: self.frame_rate as i32 },
                            },
                        )
                    },
                    Event::NotReady | Event::Flushed => {
                        if flushing {
                            self.state = EncoderState::Finalized;
                            Ok(Action::WriteTrailer)
                        } else {
                            self.state = EncoderState::Encoding;
                            Ok(Action::Idle)
                        }
                    },
                    Event::Rejected | Event::CodecError => {
                        self.state = EncoderState::Aborted;
                        Err(Error::Codec)
                    },
                    Event::IoError => {
                        self.state = EncoderState::Aborted;
                        Err(Error::Io)
                    },
                }
            },
            EncoderState::Finalized => Err(Error::Finalized),
            EncoderState::Aborted => Err(Error::Aborted),
        }
    }

    /// Ends the stream: the caller submits the empty frame, and the packets
    /// that are left are taken as after any frame.
    pub fn conclude(&mut self) -> (result: Result<Action, Error>)
        requires
            old(self)@.wf(),
        ensures
            (final(self)@.session(), result) == step(old(self)@.session(), Op::Conclude),
            final(self)@.wf(),
            final(self)@.size == old(self)@.size,
            final(self)@.frame_rate == old(self)@.frame_rate,
            final(self)@.y == old(self)@.y,
            final(self)@.u == old(self)@.u,
            final(self)@.v == old(self)@.v,
    {
        match self.state {
            EncoderState::Created | EncoderState::Encoding => {
                self.state = EncoderState::Flushing;
                Ok(Action::SendFlush)
            },
            EncoderState::Submitted | EncoderState::Draining | EncoderState::Flushing => Err(
                Error::Draining,
            ),
            EncoderState::Finalized => Err(Error::Finalized),
            EncoderState::Aborted => Err(Error::Aborted),
        }
    }
}

} // verus!
