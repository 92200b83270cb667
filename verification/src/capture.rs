//! The arithmetic around a screen capture: which region a window covers,
//! whether a region is the whole frame, the box copied out of the frame,
//! and the check for an all-black result. The frames themselves come from
//! the graphics driver, outside this crate.

use vstd::prelude::*;
use crate::geometry::{Rect, CaptureMode, u32_as_i32, lemma_u32_as_i32};
use crate::pixels::PixelBuffer;

verus! {

/// Timing breakdown for a capture operation (for benchmarking).
#[derive(Debug, Clone, Copy)]
pub struct CaptureTiming {
    /// Time to acquire a frame from the desktop duplication.
    pub dxgi_acquire: std::time::Duration,
    /// Time for the GPU crop. None for fullscreen.
    pub gpu_crop: Option<std::time::Duration>,
    /// Time for the CPU readback.
    pub cpu_readback: std::time::Duration,
    /// Total time from the start of the capture call to pixel data ready.
    pub total: std::time::Duration,
}

/// Result of a completed capture operation.
#[derive(Debug, Clone)]
pub struct CaptureResult {
    pub pixels: PixelBuffer,
    pub region: Rect,
    pub mode: CaptureMode,
    pub monitor_index: u32,
    /// Timing data for benchmarking. None if timing was not collected.
    pub timing: Option<CaptureTiming>,
}

/// Why a window cannot be captured.
#[derive(Debug, Clone, Copy, PartialEq, Eq, Structural)]
pub enum CaptureError {
    /// The window's rectangle has no width or no height.
    ZeroSize,
}

/// `v as u32` for an `i32`: negative values wrap to the top of the range.
pub open spec fn i32_as_u32(v: int) -> u32 {
    if v >= 0 { v as u32 } else { (v + 0x1_0000_0000) as u32 }
}

proof fn lemma_i32_as_u32(v: i32)
    ensures
        (v as u32) == i32_as_u32(v as int),
{
    assert((v as u32) as int == if v >= 0 { v as int } else { v + 0x1_0000_0000 }) by (bit_vector);
}

/// The region of a window from its screen rectangle (`left`, `top`,
/// `right`, `bottom`), refused when it has no area. The size is the
/// difference of the edges taken as `u32`.
pub fn window_region(left: i32, top: i32, right: i32, bottom: i32) -> (r: Result<Rect, CaptureError>)
    requires
        i32::MIN <= right - left <= i32::MAX,
        i32::MIN <= bottom - top <= i32::MAX,
    ensures
        (right == left || bottom == top) ==> r == Err::<Rect, CaptureError>(CaptureError::ZeroSize),
        (right != left && bottom != top) ==> r == Ok::<Rect, CaptureError>(Rect {
            x: left, y: top, width: i32_as_u32(right - left), height: i32_as_u32(bottom - top) }),
{
    let dw = right - left;
    let dh = bottom - top;
    proof {
        lemma_i32_as_u32(dw);
        lemma_i32_as_u32(dh);
    }
    let region = Rect::new(left, top, dw as u32, dh as u32);
    if region.width == 0 || region.height == 0 {
        return Err(CaptureError::ZeroSize);
    }
    Ok(region)
}

/// Whether a region is the whole frame, which is read back without a crop.
pub fn is_full_frame(region: Rect, full_w: u32, full_h: u32) -> (r: bool)
    ensures
        r == (region.x == 0 && region.y == 0 && region.width == full_w && region.height == full_h),
{
    region.x == 0 && region.y == 0 && region.width == full_w && region.height == full_h
}

/// The box of a frame copied by a crop, in texture coordinates.
#[derive(Debug, Clone, Copy, PartialEq, Eq, Structural)]
pub struct CropBox {
    pub left: u32,
    pub top: u32,
    pub right: u32,
    pub bottom: u32,
}

/// The box that a crop to `region` copies: its edges taken as `u32`.
pub fn crop_box(region: Rect) -> (r: CropBox)
    requires
        i32::MIN <= region.x + u32_as_i32(region.width) <= i32::MAX,
        i32::MIN <= region.y + u32_as_i32(region.height) <= i32::MAX,
    ensures
        r == (CropBox {
            left: i32_as_u32(region.x as int),
            top: i32_as_u32(region.y as int),
            right: i32_as_u32(region.x + u32_as_i32(region.width)),
            bottom: i32_as_u32(region.y + u32_as_i32(region.height)),
        }),
{
    let right = region.right();
    let bottom = region.bottom();
    proof {
        lemma_i32_as_u32(region.x);
        lemma_i32_as_u32(region.y);
        lemma_i32_as_u32(right);
        lemma_i32_as_u32(bottom);
    }
    CropBox { left: region.x as u32, top: region.y as u32, right: right as u32, bottom: bottom as u32 }
}

/// How many pixels of the first row the black check looks at.
pub open spec fn sample_count(width: u32) -> int {
    if width < 16 { width as int } else { 16 }
}

/// Whether pixel `x` of the first row lies in the buffer with its blue,
/// green and red bytes all zero.
pub open spec fn black_at(data: Seq<u8>, x: int) -> bool {
    &&& 4 * x + 2 < data.len()
    &&& data[4 * x] == 0
    &&& data[4 * x + 1] == 0
    &&& data[4 * x + 2] == 0
}

/// The bytes of pixel `x` that the check reads lie in the buffer: it reads
/// blue, then green only if blue is zero, then red only if green is zero
/// too.
pub open spec fn pixel_readable(data: Seq<u8>, x: int) -> bool {
    &&& 4 * x < data.len()
    &&& data[4 * x] == 0 ==> 4 * x + 1 < data.len()
    &&& (data[4 * x] == 0 && data[4 * x + 1] == 0) ==> 4 * x + 2 < data.len()
}

/// Every pixel that the check reaches can be read: it reads pixel `x` only
/// after every pixel before it was found black.
pub open spec fn samples_readable(data: Seq<u8>, width: u32) -> bool {
    forall|x: int| 0 <= x < sample_count(width) && #[trigger] all_black_before(data, x)
        ==> pixel_readable(data, x)
}

/// Whether every pixel of the first row before `x` is black.
pub open spec fn all_black_before(data: Seq<u8>, x: int) -> bool {
    forall|y: int| 0 <= y < x ==> black_at(data, y)
}

/// Whether the first pixels of the first row (up to 16) are all black, the
/// mark of a capture that came back empty (alpha is not looked at).
pub fn all_sample_black(data: &[u8], width: u32) -> (r: bool)
    requires
        samples_readable(data@, width),
    ensures
        r == (forall|x: int| 0 <= x < sample_count(width) ==> black_at(data@, x)),
{
    let count: usize = if width < 16 { width as usize } else { 16 };
    let mut x: usize = 0;
    while x < count
        invariant
            count as int == sample_count(width),
            x <= count,
            samples_readable(data@, width),
            forall|y: int| 0 <= y < x ==> black_at(data@, y),
        decreases count - x,
    {
        let off = x * 4;
        assert(all_black_before(data@, x as int));
        assert(pixel_readable(data@, x as int));
        if data[off] != 0 {
            assert(!black_at(data@, x as int));
            return false;
        }
        if data[off + 1] != 0 {
            assert(!black_at(data@, x as int));
            return false;
        }
        if data[off + 2] != 0 {
            assert(!black_at(data@, x as int));
            return false;
        }
        x = x + 1;
    }
    true
}

} // verus!
