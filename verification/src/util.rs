//! Row-aligned canvas sizing.

use vstd::prelude::*;
use vstd::arithmetic::div_mod::{lemma_fundamental_div_mod, lemma_mod_multiples_vanish};

verus! {

/// Bytes per RGBA8 pixel.
pub const PIXEL_STRIDE: usize = 4;

/// The row pitch, in bytes, that every texture-to-buffer copy must be a
/// multiple of.
pub open spec fn row_alignment() -> int {
    256
}

/// `n` rounded up to the next multiple of `alignment`.
pub open spec fn round_up(n: int, alignment: int) -> int
    recommends
        alignment > 0,
{
    if n % alignment == 0 {
        n
    } else {
        n + alignment - n % alignment
    }
}

/// The number of groups of `d` items needed to cover `n` items.
pub open spec fn ceil_div(n: int, d: int) -> int
    recommends
        d > 0,
{
    (n + d - 1) / d
}

/// `round_up(n, alignment)` is a multiple of `alignment`, is at least `n`, and
/// no multiple of `alignment` that is at least `n` is smaller.
pub proof fn lemma_round_up_is_least_multiple(n: int, alignment: int, m: int)
    requires
        alignment > 0,
        m % alignment == 0,
        m >= n,
    ensures
        round_up(n, alignment) % alignment == 0,
        n <= round_up(n, alignment) < n + alignment,
        round_up(n, alignment) <= m,
{
    let r = round_up(n, alignment);
    let q = n / alignment;
    lemma_fundamental_div_mod(n, alignment);
    assert(n == alignment * q + n % alignment);
    if n % alignment != 0 {
        assert(r == alignment * q + alignment);
        assert(r == alignment * (q + 1)) by (nonlinear_arith)
            requires
                r == alignment * q + alignment,
        ;
        lemma_mod_multiples_vanish(q + 1, 0, alignment);
        assert(alignment * (q + 1) + 0 == r);
        assert(0int % alignment == 0);
        // Any multiple of the alignment below `r` is at most `alignment * q`,
        // which is below `n`.
        let k = m / alignment;
        lemma_fundamental_div_mod(m, alignment);
        assert(m == alignment * k);
        if m < r {
            assert(k < q + 1) by (nonlinear_arith)
                requires
                    alignment > 0,
                    alignment * k < alignment * (q + 1),
            ;
            assert(alignment * k <= alignment * q) by (nonlinear_arith)
                requires
                    alignment > 0,
                    k <= q,
            ;
            assert(false);
        }
    }
}

/// The constant `wgpu::COPY_BYTES_PER_ROW_ALIGNMENT`, which `wgpu` fixes at
/// 256 for every backend.
#[verifier::external_body]
fn copy_bytes_per_row_alignment() -> (a: u32)
    ensures
        a == row_alignment(),
{
    wgpu::COPY_BYTES_PER_ROW_ALIGNMENT
}

/// Rounds `n` bytes up to the copy alignment.
pub fn round_up_to_alignment(n: usize) -> (r: usize)
    requires
        round_up(n as int, row_alignment()) <= usize::MAX,
    ensures
        r == round_up(n as int, row_alignment()),
{
    let alignment = copy_bytes_per_row_alignment() as usize;
    let rem = n % alignment;
    if rem == 0 {
        n
    } else {
        n + (alignment - rem)
    }
}

/// Pads a row of `a` pixels to the copy alignment: the result is the row's
/// pitch in bytes.
pub fn pad_to_bytes_per_row_alignment(a: usize) -> (r: usize)
    requires
        round_up(a * PIXEL_STRIDE, row_alignment()) <= usize::MAX,
    ensures
        r == round_up(a * PIXEL_STRIDE, row_alignment()),
{
    round_up_to_alignment(a * PIXEL_STRIDE)
}

/// The size of a render target in pixels, with the pitch of one row of it in
/// a buffer that the GPU copies it to.
#[derive(Clone, Copy, Debug, PartialEq, Eq, Structural)]
pub struct Size {
    pub width: u32,
    pub height: u32,
    pub bytes_per_row: u32,
}

/// The extent of a two-dimensional texture: one layer of `width` by `height`
/// texels.
#[derive(Clone, Copy, Debug, PartialEq, Eq, Structural)]
pub struct Extent3d {
    pub width: u32,
    pub height: u32,
    pub depth_or_array_layers: u32,
}

impl Size {
    /// The row pitch is the width in bytes, padded to the copy alignment.
    pub open spec fn wf(self) -> bool {
        self.bytes_per_row == round_up(self.width * PIXEL_STRIDE, row_alignment())
    }

    /// The bytes of one row that hold pixels; the rest of the row is padding.
    pub open spec fn row_bytes(self) -> int {
        self.width * PIXEL_STRIDE
    }

    /// The bytes that a buffer must have to receive the whole target.
    pub open spec fn spec_buffer_size(self) -> int {
        self.bytes_per_row * self.height
    }

    /// The size of a target of `width` by `height` pixels.
    pub open spec fn spec_new(width: u32, height: u32) -> Self {
        Size {
            width,
            height,
            bytes_per_row: round_up(width * PIXEL_STRIDE, row_alignment()) as u32,
        }
    }

    /// The size of a target of `width` by `height` pixels. The width is one
    /// whose padded row pitch is counted in 32 bits.
    pub fn new(width: u32, height: u32) -> (size: Self)
        requires
            round_up(width * PIXEL_STRIDE, row_alignment()) <= u32::MAX,
        ensures
            size == Self::spec_new(width, height),
            size.wf(),
    {
        let bytes_per_row = pad_to_bytes_per_row_alignment(width as usize) as u32;
        Self { width, height, bytes_per_row }
    }

    /// The bytes that a buffer must have to receive the whole target.
    pub fn buffer_size(self) -> (n: usize)
        requires
            self.spec_buffer_size() <= usize::MAX,
        ensures
            n == self.spec_buffer_size(),
    {
        assert(self.bytes_per_row * self.height == self.spec_buffer_size());
        (self.bytes_per_row as usize) * (self.height as usize)
    }

    /// The extent of the texture that is rendered to.
    pub fn extent(self) -> (extent: Extent3d)
        ensures
            extent == (Extent3d {
                width: self.width,
                height: self.height,
                depth_or_array_layers: 1,
            }),
    {
        Extent3d { width: self.width, height: self.height, depth_or_array_layers: 1 }
    }
}

/// A well-formed size's row pitch is the smallest multiple of the copy
/// alignment that holds a row of pixels.
pub proof fn lemma_bytes_per_row_is_least(size: Size, m: int)
    requires
        size.wf(),
        m % row_alignment() == 0,
        m >= size.row_bytes(),
    ensures
        size.bytes_per_row % 256 == 0,
        size.row_bytes() <= size.bytes_per_row < size.row_bytes() + row_alignment(),
        size.bytes_per_row <= m,
{
    lemma_round_up_is_least_multiple(size.row_bytes(), row_alignment(), m);
}

/// The number of workgroups of `workgroup.0` by `workgroup.1` invocations
/// that cover every pixel of a padded `size`.
pub fn compute_work_group_count(size: Size, workgroup: (u32, u32)) -> (count: (u32, u32))
    requires
        workgroup.0 > 0,
        workgroup.1 > 0,
    ensures
        count.0 == ceil_div(size.bytes_per_row as int / PIXEL_STRIDE as int, workgroup.0 as int),
        count.1 == ceil_div(size.height as int, workgroup.1 as int),
{
    let (workgroup_width, workgroup_height) = workgroup;
    let padded_width: u64 = (size.bytes_per_row / (PIXEL_STRIDE as u32)) as u64;
    let x: u64 = (padded_width + workgroup_width as u64 - 1) / (workgroup_width as u64);
    let y: u64 = (size.height as u64 + workgroup_height as u64 - 1) / (workgroup_height as u64);
    assert(x <= padded_width) by (nonlinear_arith)
        requires
            x == (padded_width + workgroup_width - 1) / (workgroup_width as int),
            workgroup_width >= 1,
    ;
    assert(y <= size.height) by (nonlinear_arith)
        requires
            y == (size.height + workgroup_height - 1) / (workgroup_height as int),
            workgroup_height >= 1,
    ;
    (x as u32, y as u32)
}

/// `ceil_div(n, d)` groups of `d` cover `n`, and one group fewer does not.
pub proof fn lemma_ceil_div_covers(n: int, d: int)
    requires
        n >= 0,
        d > 0,
    ensures
        ceil_div(n, d) * d >= n,
        (ceil_div(n, d) - 1) * d < n,
{
    let q = ceil_div(n, d);
    lemma_fundamental_div_mod(n + d - 1, d);
    assert(n + d - 1 == d * q + (n + d - 1) % d);
    assert(q * d == d * q) by (nonlinear_arith);
    assert((q - 1) * d == d * q - d) by (nonlinear_arith);
}

} // verus!
