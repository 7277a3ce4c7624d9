//! Window-size information, and the computations used when a rendered
//! frame is read back and exported: the padded row stride of the readback
//! buffer, and the repacking of that buffer into a plain top-down RGB
//! image.

use vstd::prelude::*;
use vstd::arithmetic::div_mod::lemma_fundamental_div_mod_converse;

verus! {

/// The size of the viewport, in physical pixels, as the windowing layer
/// reports it.
#[derive(Debug, Clone, Copy, PartialEq, Eq, Structural)]
pub struct WindowSizeInfo {
    pub width: u32,
    pub height: u32,
}

/// How the embedding application asks for its window.
#[derive(Debug, Clone, Copy)]
pub enum WindowConfig {
    Fullscreen,
    Dimensions((u32, u32)),
    Default,
}

/// The stride, in bytes, of one row of a packed 3-channel (RGB) pixel
/// buffer whose rows are padded to a 4-byte alignment.
pub open spec fn spec_padded_stride(width: int) -> int {
    if (3 * width) % 4 == 0 {
        3 * width
    } else {
        3 * width + (4 - (3 * width) % 4)
    }
}

/// Row stride for reading back a `width`-pixel-wide RGB frame: three bytes
/// per pixel, rounded up to the next multiple of four bytes.
pub fn padded_stride(width: u32) -> (r: u64)
    ensures
        r == spec_padded_stride(width as int),
        r % 4 == 0,
        3 * width <= r < 3 * width + 4,
{
    let base: u64 = 3 * (width as u64);
    let rem: u64 = base % 4;
    if rem != 0 {
        base + (4 - rem)
    } else {
        base
    }
}

/// The widest frame the repacking supports, in pixels per edge.
pub const FRAME_DIM_MAX: u32 = 16384;

/// Where byte `j` of the packed top-down image comes from in the padded
/// bottom-up readback buffer: image row `j / (3 * width)` is buffer row
/// `height - 1 - j / (3 * width)`, at the same offset within the row.
pub open spec fn spec_source_index(j: int, width: int, height: int, stride: int) -> int {
    (height - 1 - j / (3 * width)) * stride + j % (3 * width)
}

/// Repacks a read-back frame into a plain RGB image: the buffer holds
/// `height` rows of `stride` bytes each, bottom row first; the result
/// holds the same pixels top row first, three bytes per pixel, the row
/// padding stripped.
pub fn unpack_frame(width: u32, height: u32, data: &Vec<u8>) -> (r: Vec<u8>)
    requires
        1 <= width <= FRAME_DIM_MAX,
        1 <= height <= FRAME_DIM_MAX,
        data@.len() == spec_padded_stride(width as int) * height,
    ensures
        r@.len() == 3 * width * height,
        forall|j: int|
            0 <= j < r@.len() ==> r@[j] == data@[spec_source_index(
                j,
                width as int,
                height as int,
                spec_padded_stride(width as int),
            )],
{
    let stride: usize = padded_stride(width) as usize;
    let row_bytes: usize = 3 * (width as usize);
    assert(stride * height <= 49155 * 16384 && (height - 1) * stride + stride <= stride * height
        && 3 * width * height <= 49155 * 16384) by (nonlinear_arith)
        requires
            1 <= width <= 16384u32,
            1 <= height <= 16384u32,
            stride <= 3 * width + 3,
            3 * width <= stride,
    {
    }
    let mut out: Vec<u8> = Vec::new();
    let mut ry: usize = 0;
    while ry < height as usize
        invariant
            ry <= height,
            1 <= width <= FRAME_DIM_MAX,
            1 <= height <= FRAME_DIM_MAX,
            stride == spec_padded_stride(width as int),
            row_bytes == 3 * width,
            row_bytes <= stride <= row_bytes + 3,
            data@.len() == stride * height,
            stride * height <= 49155 * 16384,
            out@.len() == ry * row_bytes,
            forall|j: int|
                0 <= j < out@.len() ==> out@[j] == data@[spec_source_index(
                    j,
                    width as int,
                    height as int,
                    stride as int,
                )],
        decreases height - ry,
    {
        let src_row: usize = (height as usize) - 1 - ry;
        assert(src_row * stride + stride <= stride * height && ry * row_bytes + row_bytes <= 3
            * width * height && 3 * width * height <= stride * height) by (nonlinear_arith)
            requires
                src_row < height,
                ry < height,
                row_bytes <= stride,
                0 < stride,
                row_bytes == 3 * width,
        {
        }
        let base: usize = src_row * stride;
        let mut off: usize = 0;
        while off < row_bytes
            invariant
                off <= row_bytes,
                ry < height,
                1 <= width <= FRAME_DIM_MAX,
                1 <= height <= FRAME_DIM_MAX,
                stride == spec_padded_stride(width as int),
                row_bytes == 3 * width,
                row_bytes <= stride <= row_bytes + 3,
                data@.len() == stride * height,
                src_row == height - 1 - ry,
                base == src_row * stride,
                base + stride <= data@.len(),
                stride * height <= 49155 * 16384,
                out@.len() == ry * row_bytes + off,
                ry * row_bytes + row_bytes <= 3 * width * height,
                forall|j: int|
                    0 <= j < out@.len() ==> out@[j] == data@[spec_source_index(
                        j,
                        width as int,
                        height as int,
                        stride as int,
                    )],
            decreases row_bytes - off,
        {
            let ghost j = out@.len() as int;
            out.push(data[base + off]);
            proof {
                lemma_fundamental_div_mod_converse(
                    j,
                    3 * width as int,
                    ry as int,
                    off as int,
                );
            }
            off = off + 1;
        }
        proof {
            assert((ry + 1) * row_bytes == ry * row_bytes + row_bytes) by (nonlinear_arith);
        }
        ry = ry + 1;
    }
    proof {
        assert(out@.len() == height as int * row_bytes as int);
        assert(height as int * (3 * width as int) == 3 * width as int * height as int)
            by (nonlinear_arith);
    }
    out
}

} // verus!
