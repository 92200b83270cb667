//! Screen rectangles in physical pixels.

use vstd::prelude::*;

verus! {

/// Screen region in physical pixels.
#[derive(Debug, Clone, Copy, PartialEq, Eq, Structural)]
pub struct Rect {
    pub x: i32,
    pub y: i32,
    pub width: u32,
    pub height: u32,
}

/// `v as i32` for a `u32`, wrapping into the negative range above `i32::MAX`.
pub open spec fn u32_as_i32(v: u32) -> int {
    if v <= i32::MAX { v as int } else { v - 0x1_0000_0000 }
}

/// The cast of a `u32` to `i32` wraps as [`u32_as_i32`] says.
pub proof fn lemma_u32_as_i32(v: u32)
    ensures
        (v as i32) as int == u32_as_i32(v),
{
    assert((v as i32) as int == if v <= 0x7fff_ffff { v as int } else { v - 0x1_0000_0000 }) by (bit_vector);
}

impl Rect {
    /// The rectangle with top-left corner `(x, y)` and the given size.
    pub fn new(x: i32, y: i32, width: u32, height: u32) -> (r: Self)
        ensures
            r == (Rect { x, y, width, height }),
    {
        Rect { x, y, width, height }
    }

    /// The x-coordinate just past the right edge.
    pub fn right(&self) -> (r: i32)
        requires
            i32::MIN <= self.x + u32_as_i32(self.width) <= i32::MAX,
        ensures
            r == self.x + u32_as_i32(self.width),
    {
        proof { lemma_u32_as_i32(self.width); }
        self.x + self.width as i32
    }

    /// The y-coordinate just past the bottom edge.
    pub fn bottom(&self) -> (r: i32)
        requires
            i32::MIN <= self.y + u32_as_i32(self.height) <= i32::MAX,
        ensures
            r == self.y + u32_as_i32(self.height),
    {
        proof { lemma_u32_as_i32(self.height); }
        self.y + self.height as i32
    }

    /// The number of pixels covered.
    pub fn area(&self) -> (r: u64)
        ensures
            r == self.width * self.height,
    {
        assert(self.width * self.height <= u64::MAX) by (nonlinear_arith)
            requires self.width <= u32::MAX, self.height <= u32::MAX;
        self.width as u64 * self.height as u64
    }

    /// Normalize a rect so width/height are always positive
    /// (handles selection drawn right-to-left or bottom-to-top).
    pub fn normalized(x1: i32, y1: i32, x2: i32, y2: i32) -> (r: Self)
        requires
            i32::MIN <= x1 - x2 <= i32::MAX,
            i32::MIN <= y1 - y2 <= i32::MAX,
        ensures
            r == spec_normalized(x1 as int, y1 as int, x2 as int, y2 as int),
    {
        let x = if x1 <= x2 { x1 } else { x2 };
        let y = if y1 <= y2 { y1 } else { y2 };
        let dx = x1 - x2;
        let dy = y1 - y2;
        let w: u32 = if dx >= 0 { dx as u32 } else { (0i64 - dx as i64) as u32 };
        let h: u32 = if dy >= 0 { dy as u32 } else { (0i64 - dy as i64) as u32 };
        Rect { x, y, width: w, height: h }
    }
}

/// The rectangle spanned by two corners, whichever way round they are given.
pub open spec fn spec_normalized(x1: int, y1: int, x2: int, y2: int) -> Rect {
    Rect {
        x: if x1 <= x2 { x1 as i32 } else { x2 as i32 },
        y: if y1 <= y2 { y1 as i32 } else { y2 as i32 },
        width: abs_diff(x1, x2) as u32,
        height: abs_diff(y1, y2) as u32,
    }
}

/// The distance between two integers.
pub open spec fn abs_diff(a: int, b: int) -> int {
    if a >= b { a - b } else { b - a }
}

/// A selection drawn from either corner gives the same rectangle, which
/// reaches on each axis from the smaller coordinate to the larger.
pub proof fn lemma_normalized_symmetric(x1: i32, y1: i32, x2: i32, y2: i32)
    requires
        i32::MIN <= x1 - x2 <= i32::MAX,
        i32::MIN <= y1 - y2 <= i32::MAX,
    ensures
        spec_normalized(x1 as int, y1 as int, x2 as int, y2 as int)
            == spec_normalized(x2 as int, y2 as int, x1 as int, y1 as int),
        ({
            let r = spec_normalized(x1 as int, y1 as int, x2 as int, y2 as int);
            &&& r.x as int == if x1 <= x2 { x1 as int } else { x2 as int }
            &&& r.y as int == if y1 <= y2 { y1 as int } else { y2 as int }
            &&& r.x + r.width == if x1 <= x2 { x2 as int } else { x1 as int }
            &&& r.y + r.height == if y1 <= y2 { y2 as int } else { y1 as int }
        }),
{
}

/// Capture mode determines how the capture region is selected.
#[derive(Debug, Clone, Copy, PartialEq, Eq, Structural)]
pub enum CaptureMode {
    /// User draws a rectangular region on screen.
    Region,
    /// User clicks a window to capture it.
    Window,
    /// Captures the entire monitor(s).
    Fullscreen,
}

/// The low 16 bits of `v`, read as a signed 16-bit number.
pub open spec fn sign_extend16(v: int) -> int {
    let lo = v % 65536;
    if lo >= 32768 { lo - 65536 } else { lo }
}

/// The client coordinates packed into a mouse message's `lParam`: the low
/// word is x and the next word is y, each a signed 16-bit number.
pub open spec fn spec_lparam_point(lparam: int) -> (int, int) {
    (sign_extend16(lparam), sign_extend16(lparam / 65536))
}

/// Unpack the client coordinates of a mouse message.
pub fn lparam_point(lparam: isize) -> (r: (i32, i32))
    ensures
        (r.0 as int, r.1 as int) == spec_lparam_point(lparam as int),
        -32768 <= r.0 < 32768,
        -32768 <= r.1 < 32768,
{
    let lo: i64 = (lparam as i64) & 0xFFFF;
    let hi: i64 = ((lparam as i64) >> 16) & 0xFFFF;
    let x: i32 = if lo >= 32768 { (lo - 65536) as i32 } else { lo as i32 };
    let y: i32 = if hi >= 32768 { (hi - 65536) as i32 } else { hi as i32 };
    proof {
        let l = lparam as i64;
        assert(l & 0xFFFF == l % 65536) by (bit_vector);
        assert(l >> 16 == l / 65536) by (bit_vector);
        assert((l >> 16) & 0xFFFF == (l / 65536) % 65536) by (bit_vector);
        assert(l & 0xFFFF >= 0 && l & 0xFFFF < 65536) by (bit_vector);
        assert((l >> 16) & 0xFFFF >= 0 && (l >> 16) & 0xFFFF < 65536) by (bit_vector);
    }
    (x, y)
}

/// Largest size of a window that pins a capture to the screen.
pub const PIN_MAX_WIDTH: u32 = 800;
pub const PIN_MAX_HEIGHT: u32 = 600;

/// The size of the window that pins an image: the image's own, capped at
/// 800 x 600.
pub fn pin_window_size(width: u32, height: u32) -> (r: (i32, i32))
    ensures
        r.0 == if width < PIN_MAX_WIDTH { width as int } else { PIN_MAX_WIDTH as int },
        r.1 == if height < PIN_MAX_HEIGHT { height as int } else { PIN_MAX_HEIGHT as int },
{
    let w = if width < PIN_MAX_WIDTH { width } else { PIN_MAX_WIDTH };
    let h = if height < PIN_MAX_HEIGHT { height } else { PIN_MAX_HEIGHT };
    (w as i32, h as i32)
}

} // verus!
