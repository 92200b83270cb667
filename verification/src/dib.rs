//! The clipboard image format: a `BITMAPV5HEADER` followed by top-down
//! 32-bit BGRA rows with no padding.

use vstd::prelude::*;
use crate::ipc::{le32, lemma_le32_bytes};
use crate::pixels::{PixelBuffer, holds_rows, pack_rows, packed_rows};

verus! {

/// Size of a `BITMAPV5HEADER` in bytes.
pub const DIBV5_HEADER_SIZE: u32 = 124;

/// The two little-endian bytes of `n`.
pub open spec fn le16(n: nat) -> Seq<u8> {
    seq![(n % 256) as u8, ((n / 256) % 256) as u8]
}

/// `n` zero bytes.
pub open spec fn zeros(n: nat) -> Seq<u8> {
    Seq::new(n, |i: int| 0u8)
}

/// The `BITMAPV5HEADER` of a top-down 32-bit image of the given size:
/// uncompressed (`BI_RGB`), 96 DPI (3780 pixels per metre), sRGB colour
/// space, `LCS_GM_IMAGES` intent, red/green/blue masks `0x00FF0000`,
/// `0x0000FF00`, `0x000000FF`, alpha mask `0xFF000000`, every other field
/// zero. The
/// height is stored negated, which marks the rows as top-down.
pub open spec fn dibv5_header(width: u32, height: u32) -> Seq<u8> {
    le32(124)
        + le32(width as nat)
        + le32(((0x1_0000_0000 - height) % 0x1_0000_0000) as nat)
        + le16(1)
        + le16(32)
        + le32(0)
        + le32((4 * width * height) as nat)
        + le32(3780)
        + le32(3780)
        + zeros(8)
        + le32(0x00FF0000)
        + le32(0x0000FF00)
        + le32(0x000000FF)
        + le32(0xFF000000)
        + le32(0x73524742)
        + zeros(48)
        + le32(4)
        + zeros(12)
}

/// The clipboard bytes of an image: its header, then its rows packed.
pub open spec fn dibv5_bytes(data: Seq<u8>, width: u32, height: u32, stride: u32) -> Seq<u8> {
    dibv5_header(width, height) + packed_rows(data, 4 * width, height as int, stride as int)
}

fn push_le32(out: &mut Vec<u8>, v: u32)
    ensures
        final(out)@ == old(out)@ + le32(v as nat),
{
    proof { lemma_le32_bytes(v); }
    out.push((v & 0xff) as u8);
    out.push(((v >> 8) & 0xff) as u8);
    out.push(((v >> 16) & 0xff) as u8);
    out.push(((v >> 24) & 0xff) as u8);
    assert(final(out)@ =~= old(out)@ + le32(v as nat));
}

fn push_le16(out: &mut Vec<u8>, v: u16)
    ensures
        final(out)@ == old(out)@ + le16(v as nat),
{
    proof {
        assert((v & 0xff) as u8 == (v % 256) as u8) by (bit_vector);
        assert(((v >> 8) & 0xff) as u8 == ((v / 256) % 256) as u8) by (bit_vector);
    }
    out.push((v & 0xff) as u8);
    out.push(((v >> 8) & 0xff) as u8);
    assert(final(out)@ =~= old(out)@ + le16(v as nat));
}

fn push_zeros(out: &mut Vec<u8>, n: usize)
    ensures
        final(out)@ == old(out)@ + zeros(n as nat),
{
    let mut i: usize = 0;
    while i < n
        invariant
            i <= n,
            out@ =~= old(out)@ + zeros(i as nat),
        decreases n - i,
    {
        out.push(0u8);
        assert(old(out)@ + zeros((i + 1) as nat) =~= (old(out)@ + zeros(i as nat)).push(0u8));
        i = i + 1;
    }
}

/// The header of a clipboard image.
pub fn build_dibv5_header(width: u32, height: u32) -> (r: Vec<u8>)
    requires
        4 * width <= u32::MAX,
        4 * width * height <= u32::MAX,
        height != 0x8000_0000,
    ensures
        r@ == dibv5_header(width, height),
        r@.len() == DIBV5_HEADER_SIZE,
{
    let mut out: Vec<u8> = Vec::new();
    push_le32(&mut out, DIBV5_HEADER_SIZE);
    push_le32(&mut out, width);
    let neg_h: u32 = if height == 0 { 0 } else { u32::MAX - height + 1 };
    assert(neg_h == (0x1_0000_0000 - height) % 0x1_0000_0000);
    push_le32(&mut out, neg_h);
    push_le16(&mut out, 1);
    push_le16(&mut out, 32);
    push_le32(&mut out, 0);
    assert(width * 4 * height == 4 * width * height) by (nonlinear_arith);
    push_le32(&mut out, width * 4 * height);
    push_le32(&mut out, 3780);
    push_le32(&mut out, 3780);
    push_zeros(&mut out, 8);
    push_le32(&mut out, 0x00FF0000);
    push_le32(&mut out, 0x0000FF00);
    push_le32(&mut out, 0x000000FF);
    push_le32(&mut out, 0xFF000000);
    push_le32(&mut out, 0x73524742);
    push_zeros(&mut out, 48);
    push_le32(&mut out, 4);
    push_zeros(&mut out, 12);
    assert(out@ =~= dibv5_header(width, height));
    out
}

/// The bytes that go on the clipboard for an image.
pub fn dibv5_data(pixels: &PixelBuffer) -> (r: Vec<u8>)
    requires
        4 * pixels.width * pixels.height <= u32::MAX,
        pixels.height != 0x8000_0000,
        4 * pixels.width <= pixels.stride,
        holds_rows(pixels.data@.len() as int, pixels.height as int, 4 * pixels.width, pixels.stride as int),
    ensures
        r@ == dibv5_bytes(pixels.data@, pixels.width, pixels.height, pixels.stride),
{
    let mut out = build_dibv5_header(pixels.width, pixels.height);
    let body = pack_rows(&pixels.data, pixels.width, pixels.height, pixels.stride);
    let mut i: usize = 0;
    while i < body.len()
        invariant
            i <= body@.len(),
            out@ =~= dibv5_header(pixels.width, pixels.height) + body@.subrange(0, i as int),
        decreases body@.len() - i,
    {
        out.push(body[i]);
        assert(body@.subrange(0, i + 1) =~= body@.subrange(0, i as int).push(body@[i as int]));
        i = i + 1;
    }
    assert(body@.subrange(0, body@.len() as int) =~= body@);
    out
}

} // verus!
