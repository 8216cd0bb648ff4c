//! Readback pipeline: row-stride-corrected transfer of a rendered frame into
//! host memory.
//!
//! A GPU texture-to-buffer copy pads every pixel row out to a 256-byte
//! alignment boundary. The staging buffer therefore holds
//! `aligned_row_stride(width) * height` bytes, and the delivered frame is
//! reconstructed by dropping the padding at the end of every row.

use vstd::arithmetic::div_mod::{
    lemma_fundamental_div_mod, lemma_fundamental_div_mod_converse, lemma_mod_bound,
    lemma_mod_mod, lemma_mod_multiples_basic,
};
use vstd::arithmetic::mul::lemma_mul_inequality;
use vstd::prelude::*;

verus! {

/// Row stride, in bytes, of a staging readback row of `width` RGBA pixels:
/// the tight stride `width * 4` rounded up to the next multiple of 256.
pub open spec fn spec_aligned_row_stride(width: u32) -> int {
    ((width * 4 + 255) / 256) * 256
}

/// Law: for every width, the aligned row stride covers the tight row
/// (`stride >= width * 4`), sits on a 256-byte boundary, and adds less than
/// one full alignment block of padding.
pub proof fn lemma_aligned_row_stride(width: u32)
    ensures
        spec_aligned_row_stride(width) >= width * 4,
        spec_aligned_row_stride(width) % 256 == 0,
        spec_aligned_row_stride(width) < width * 4 + 256,
{
    let b: int = (width as int) * 4;
    let q: int = (b + 255) / 256;
    lemma_fundamental_div_mod(b + 255, 256);
    lemma_mod_bound(b + 255, 256);
    lemma_mod_multiples_basic(q, 256);
}

/// Rounds a row of `width` RGBA pixels up to the 256-byte alignment that GPU
/// buffer copies require.
pub fn aligned_row_stride(width: u32) -> (stride: u64)
    ensures
        stride == spec_aligned_row_stride(width),
        stride >= width * 4,
        stride % 256 == 0,
{
    let bytes: u64 = (width as u64) * 4;
    let stride: u64 = ((bytes + 255) / 256) * 256;
    proof {
        lemma_aligned_row_stride(width);
    }
    stride
}

/// Size in bytes of the staging buffer for one frame readback:
/// `aligned_row_stride(width) * height`; `None` when that exceeds the
/// 64-bit buffer sizes the GPU can allocate.
pub fn staging_buffer_size(width: u32, height: u32) -> (size: Option<u64>)
    ensures
        size is Some <==> spec_aligned_row_stride(width) * height <= u64::MAX,
        size is Some ==> size->Some_0 == spec_aligned_row_stride(width) * height,
{
    let stride: u64 = aligned_row_stride(width);
    proof {
        lemma_aligned_row_stride(width);
        assert((stride as int) * (height as int) <= 0x4_0000_0100 * 0xffff_ffff)
            by (nonlinear_arith)
            requires
                0 <= stride as int <= 0x4_0000_0100,
                0 <= height as int <= 0xffff_ffff,
        ;
    }
    let total: u128 = (stride as u128) * (height as u128);
    if total <= (u64::MAX as u128) {
        Some(total as u64)
    } else {
        None
    }
}

/// Host-visible copy of one rendered frame, in the aligned layout the GPU
/// copy produced: `height` rows of `aligned_row_stride(width)` bytes, of
/// which the first `width * 4` bytes of each row are pixel data and the rest
/// padding.
#[derive(Debug)]
pub struct StagingReadback {
    pub width: u32,
    pub height: u32,
    pub bytes: Vec<u8>,
}

impl StagingReadback {
    /// The buffer holds exactly `aligned_row_stride(width) * height` bytes.
    pub open spec fn wf(self) -> bool {
        self.bytes@.len() == spec_aligned_row_stride(self.width) * self.height
    }

    /// The tightly packed pixel bytes, row padding dropped: byte `i` of row
    /// `r` comes from offset `r * stride + i` of the staging buffer.
    pub open spec fn packed(self) -> Seq<u8> {
        Seq::new(
            (self.width * 4 * self.height) as nat,
            |j: int|
                self.bytes@[(j / (self.width * 4) as int) * spec_aligned_row_stride(self.width) + j
                    % (self.width * 4) as int],
        )
    }
}

/// Why a staging buffer or a frame could not be produced.
#[derive(Clone, Copy, PartialEq, Eq, Structural, Debug)]
pub enum ReadbackError {
    /// The byte count does not match the aligned layout for the given size.
    SizeMismatch,
    /// `aligned_row_stride(width) * height` does not fit in host memory.
    TooLarge,
}

/// Wraps the bytes copied out of a mapped staging buffer, rejecting a buffer
/// whose length does not match the aligned layout for `width` and `height`.
pub fn from_mapped(width: u32, height: u32, bytes: Vec<u8>) -> (r: Result<
    StagingReadback,
    ReadbackError,
>)
    ensures
        r is Ok <==> bytes@.len() == spec_aligned_row_stride(width) * height,
        r is Ok ==> r->Ok_0 == (StagingReadback { width, height, bytes }),
        r is Err ==> r->Err_0 == ReadbackError::SizeMismatch,
{
    let stride: u64 = aligned_row_stride(width);
    proof {
        lemma_aligned_row_stride(width);
        assert((stride as int) * (height as int) <= 0x4_0000_0100 * 0xffff_ffff)
            by (nonlinear_arith)
            requires
                0 <= stride as int <= 0x4_0000_0100,
                0 <= height as int <= 0xffff_ffff,
        ;
    }
    let expected: u128 = (stride as u128) * (height as u128);
    if (bytes.len() as u128) == expected {
        Ok(StagingReadback { width, height, bytes })
    } else {
        Err(ReadbackError::SizeMismatch)
    }
}

/// Delivered frame: `height` tightly packed rows of `width` RGBA pixels,
/// `width * 4` bytes each.
#[derive(Debug)]
pub struct FrameBuffer {
    pub width: u32,
    pub height: u32,
    pub bytes: Vec<u8>,
}

impl FrameBuffer {
    /// The buffer holds exactly `width * 4 * height` bytes.
    pub open spec fn wf(self) -> bool {
        self.bytes@.len() == self.width * 4 * self.height
    }
}

/// Reconstructs the tightly packed frame from a staging readback, dropping
/// the `aligned_row_stride(width) - width * 4` padding bytes at the end of
/// every row.
pub fn extract_frame(staging: &StagingReadback) -> (fb: FrameBuffer)
    requires
        staging.wf(),
    ensures
        fb.width == staging.width,
        fb.height == staging.height,
        fb.wf(),
        fb.bytes@ == staging.packed(),
{
    let ghost gstride: int = spec_aligned_row_stride(staging.width);
    let ghost gw4: int = (staging.width as int) * 4;
    if staging.height == 0 {
        let fb = FrameBuffer { width: staging.width, height: staging.height, bytes: Vec::new() };
        proof {
            assert(staging.width * 4 * staging.height == 0) by (nonlinear_arith)
                requires
                    staging.height == 0,
            ;
            assert(fb.bytes@ =~= staging.packed());
        }
        return fb;
    }
    let total_len: usize = staging.bytes.len();
    let stride64: u64 = aligned_row_stride(staging.width);
    proof {
        assert(gstride <= gstride * (staging.height as int)) by (nonlinear_arith)
            requires
                staging.height >= 1,
                gstride >= 0,
        ;
        assert(gstride <= total_len);
    }
    let stride: usize = stride64 as usize;
    let width4: usize = (staging.width as usize) * 4;
    let mut out: Vec<u8> = Vec::new();
    let mut row: u32 = 0;
    let mut base: usize = 0;
    while row < staging.height
        invariant
            staging.wf(),
            gstride == spec_aligned_row_stride(staging.width),
            gw4 == staging.width * 4,
            width4 == gw4,
            stride == gstride,
            gw4 <= gstride,
            total_len == staging.bytes@.len(),
            row <= staging.height,
            base == row * gstride,
            out@.len() == row * gw4,
            forall|j: int|
                0 <= j < out@.len() ==> out@[j] == staging.bytes@[(j / gw4) * gstride + j % gw4],
        decreases staging.height - row,
    {
        proof {
            lemma_mul_inequality(row + 1 as int, staging.height as int, gstride);
            assert((row + 1) * gstride == row * gstride + gstride) by (nonlinear_arith);
            assert((row + 1) * gw4 == row * gw4 + gw4) by (nonlinear_arith);
            assert((staging.height as int) * gstride == gstride * (staging.height as int))
                by (nonlinear_arith);
        }
        let mut i: usize = 0;
        while i < width4
            invariant
                staging.wf(),
                gstride == spec_aligned_row_stride(staging.width),
                gw4 == staging.width * 4,
                width4 == gw4,
                stride == gstride,
                gw4 <= gstride,
                total_len == staging.bytes@.len(),
                row < staging.height,
                base == row * gstride,
                base + gstride <= staging.bytes@.len(),
                i <= width4,
                out@.len() == row * gw4 + i,
                forall|j: int|
                    0 <= j < out@.len() ==> out@[j] == staging.bytes@[(j / gw4) * gstride + j
                        % gw4],
            decreases width4 - i,
        {
            let b: u8 = staging.bytes[base + i];
            out.push(b);
            proof {
                let j0: int = row * gw4 + i as int;
                lemma_fundamental_div_mod_converse(j0, gw4, row as int, i as int);
                assert(out@[j0] == staging.bytes@[(j0 / gw4) * gstride + j0 % gw4]);
            }
            i = i + 1;
        }
        row = row + 1;
        base = base + stride;
    }
    proof {
        assert((staging.height as int) * gw4 == gw4 * (staging.height as int))
            by (nonlinear_arith);
        assert(out@ =~= staging.packed());
    }
    FrameBuffer { width: staging.width, height: staging.height, bytes: out }
}

/// Law: reconstruction strips exactly `aligned_row_stride - width * 4` bytes
/// from each of the `height` rows of a staging readback.
pub proof fn lemma_padding_stripped(s: StagingReadback)
    requires
        s.wf(),
    ensures
        s.bytes@.len() - s.packed().len() == (spec_aligned_row_stride(s.width) - s.width * 4)
            * s.height,
{
    let stride: int = spec_aligned_row_stride(s.width);
    let w4: int = (s.width as int) * 4;
    let h: int = s.height as int;
    lemma_aligned_row_stride(s.width);
    assert(w4 * h >= 0) by (nonlinear_arith)
        requires
            w4 >= 0,
            h >= 0,
    ;
    assert(stride * h - w4 * h == (stride - w4) * h) by (nonlinear_arith);
}

/// An RGBA color, one byte per channel.
#[derive(Clone, Copy, PartialEq, Eq, Structural, Debug)]
pub struct Rgba {
    pub r: u8,
    pub g: u8,
    pub b: u8,
    pub a: u8,
}

/// Channel `k` of `c` in RGBA byte order.
pub open spec fn channel(c: Rgba, k: int) -> u8 {
    if k == 0 {
        c.r
    } else if k == 1 {
        c.g
    } else if k == 2 {
        c.b
    } else {
        c.a
    }
}

/// Byte `j` of the staging buffer of a frame cleared to `c`: within the
/// pixel-data part of its row, the matching channel of `c`; inside the row
/// padding, zero.
pub open spec fn solid_byte(width: u32, c: Rgba, j: int) -> u8 {
    if j % spec_aligned_row_stride(width) < width * 4 {
        channel(c, (j % spec_aligned_row_stride(width)) % 4)
    } else {
        0
    }
}

/// Every pixel byte of the staging buffer (padding aside) holds the matching
/// channel of `c`, and padding bytes are zero.
pub open spec fn is_solid(s: StagingReadback, c: Rgba) -> bool {
    forall|j: int| 0 <= j < s.bytes@.len() ==> s.bytes@[j] == solid_byte(s.width, c, j)
}

/// Builds the staging buffer that a readback of a frame cleared to the solid
/// color `c` produces: every pixel holds `c`; padding bytes are zero.
pub fn solid_staging(width: u32, height: u32, c: Rgba) -> (r: Result<
    StagingReadback,
    ReadbackError,
>)
    ensures
        r is Ok <==> spec_aligned_row_stride(width) * height <= usize::MAX,
        r is Ok ==> {
            let s = r->Ok_0;
            &&& s.width == width
            &&& s.height == height
            &&& s.wf()
            &&& is_solid(s, c)
        },
        r is Err ==> r->Err_0 == ReadbackError::TooLarge,
{
    let ghost gstride: int = spec_aligned_row_stride(width);
    let ghost gw4: int = (width as int) * 4;
    if height == 0 {
        proof {
            assert(spec_aligned_row_stride(width) * (height as int) == 0) by (nonlinear_arith)
                requires
                    height == 0,
            ;
        }
        return Ok(StagingReadback { width, height, bytes: Vec::new() });
    }
    let stride64: u64 = aligned_row_stride(width);
    proof {
        lemma_aligned_row_stride(width);
        assert((stride64 as int) * (height as int) <= 0x4_0000_0100 * 0xffff_ffff)
            by (nonlinear_arith)
            requires
                0 <= stride64 as int <= 0x4_0000_0100,
                0 <= height as int <= 0xffff_ffff,
        ;
    }
    let total: u128 = (stride64 as u128) * (height as u128);
    if total > (usize::MAX as u128) {
        return Err(ReadbackError::TooLarge);
    }
    proof {
        assert(gstride <= gstride * (height as int)) by (nonlinear_arith)
            requires
                height >= 1,
                gstride >= 0,
        ;
    }
    let stride: usize = stride64 as usize;
    let width4: usize = (width as usize) * 4;
    let mut bytes: Vec<u8> = Vec::new();
    let mut row: u32 = 0;
    while row < height
        invariant
            gstride == spec_aligned_row_stride(width),
            gw4 == width * 4,
            width4 == gw4,
            stride == gstride,
            gw4 <= gstride,
            gstride * height <= usize::MAX,
            row <= height,
            bytes@.len() == row * gstride,
            forall|j: int| 0 <= j < bytes@.len() ==> bytes@[j] == solid_byte(width, c, j),
        decreases height - row,
    {
        proof {
            lemma_mul_inequality(row + 1 as int, height as int, gstride);
            assert((row + 1) * gstride == row * gstride + gstride) by (nonlinear_arith);
            assert((height as int) * gstride == gstride * (height as int)) by (nonlinear_arith);
        }
        let mut i: usize = 0;
        while i < stride
            invariant
                gstride == spec_aligned_row_stride(width),
                gw4 == width * 4,
                width4 == gw4,
                stride == gstride,
                gw4 <= gstride,
                row < height,
                (row + 1) * gstride == row * gstride + gstride,
                (row + 1) * gstride <= usize::MAX,
                i <= stride,
                bytes@.len() == row * gstride + i,
                forall|j: int| 0 <= j < bytes@.len() ==> bytes@[j] == solid_byte(width, c, j),
            decreases stride - i,
        {
            let b: u8 = if i < width4 {
                match i % 4 {
                    0 => c.r,
                    1 => c.g,
                    2 => c.b,
                    _ => c.a,
                }
            } else {
                0
            };
            bytes.push(b);
            proof {
                let j0: int = row * gstride + i as int;
                lemma_fundamental_div_mod_converse(j0, gstride, row as int, i as int);
                lemma_mod_bound(i as int, 4);
                assert(bytes@[j0] == solid_byte(width, c, j0));
            }
            i = i + 1;
        }
        row = row + 1;
    }
    proof {
        assert((height as int) * gstride == gstride * (height as int)) by (nonlinear_arith);
    }
    Ok(StagingReadback { width, height, bytes })
}

/// Law (round trip): the frame reconstructed from the readback of a pass
/// cleared to a solid color has every pixel equal to the clear color — byte
/// `j` of the packed frame holds channel `j % 4` of the color.
pub proof fn lemma_solid_round_trip(s: StagingReadback, c: Rgba)
    requires
        s.wf(),
        is_solid(s, c),
    ensures
        forall|j: int| 0 <= j < s.packed().len() ==> s.packed()[j] == channel(c, j % 4),
{
    let stride: int = spec_aligned_row_stride(s.width);
    let w4: int = (s.width as int) * 4;
    lemma_aligned_row_stride(s.width);
    assert forall|j: int| 0 <= j < s.packed().len() implies s.packed()[j] == channel(
        c,
        j % 4,
    ) by {
        assert(w4 * (s.height as int) >= 0) by (nonlinear_arith)
            requires
                w4 >= 0,
                s.height >= 0,
        ;
        assert(w4 * (s.height as int) > 0);
        assert(w4 > 0) by (nonlinear_arith)
            requires
                w4 * (s.height as int) > 0,
                s.height >= 0,
                w4 >= 0,
        ;
        lemma_fundamental_div_mod(j, w4);
        lemma_mod_bound(j, w4);
        let row: int = j / w4;
        let i: int = j % w4;
        assert(0 <= row < s.height) by (nonlinear_arith)
            requires
                j == w4 * row + i,
                0 <= i < w4,
                0 <= j < w4 * (s.height as int),
                w4 > 0,
        ;
        let idx: int = row * stride + i;
        lemma_mul_inequality(row + 1, s.height as int, stride);
        assert((row + 1) * stride == row * stride + stride) by (nonlinear_arith);
        assert(row * stride >= 0) by (nonlinear_arith)
            requires
                row >= 0,
                stride >= 0,
        ;
        assert((s.height as int) * stride == stride * (s.height as int)) by (nonlinear_arith);
        assert(idx < (row + 1) * stride);
        assert((row + 1) * stride <= (s.height as int) * stride);
        assert(0 <= idx < s.bytes@.len());
        lemma_fundamental_div_mod_converse(idx, stride, row, i);
        assert(s.bytes@[idx] == solid_byte(s.width, c, idx));
        assert(s.packed()[j] == s.bytes@[idx]);
        lemma_mod_mod(j, 4, s.width as int);
        assert(i % 4 == j % 4);
    }
}

} // verus!
