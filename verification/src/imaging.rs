//! Image files made from captures: the PNG of a screenshot, the PNG and
//! the JPEG thumbnail kept in the history. The pixel conversions are
//! proved here; encoding and resampling are the `image` crate's.

use vstd::prelude::*;
use image::ImageEncoder;
use crate::pixels::{PixelBuffer, holds_rows, packed_rows, pack_rows, swapped_red_blue, swap_red_blue, lemma_row_col};

verus! {

/// What `image`'s PNG encoder with its default settings makes of an RGBA
/// image (`None` when it refuses it).
pub uninterp spec fn png_default(rgba: Seq<u8>, width: u32, height: u32) -> Option<Seq<u8>>;

/// What `image`'s PNG encoder with fast compression and the `Sub` filter
/// makes of an RGBA image.
pub uninterp spec fn png_fast(rgba: Seq<u8>, width: u32, height: u32) -> Option<Seq<u8>>;

/// The RGBA image that `image::imageops::resize` with the triangle filter
/// makes of an RGBA image.
pub uninterp spec fn triangle_resized(rgba: Seq<u8>, width: u32, height: u32, new_width: u32, new_height: u32) -> Seq<u8>;

/// What `image`'s JPEG encoder makes of an RGBA image with its alpha
/// dropped.
pub uninterp spec fn jpeg_of(rgba: Seq<u8>, width: u32, height: u32) -> Option<Seq<u8>>;

/// `PngEncoder::new(..).write_image(.., Rgba8)` into memory. Claimed: the
/// bytes are the named encoding of these arguments; nothing of the bytes
/// themselves.
#[verifier::external_body]
fn encode_png(rgba: &Vec<u8>, width: u32, height: u32) -> (r: Option<Vec<u8>>)
    requires
        rgba@.len() == 4 * width * height,
    ensures
        match r {
            Some(b) => png_default(rgba@, width, height) == Some(b@),
            None => png_default(rgba@, width, height) is None,
        },
{
    let mut out: Vec<u8> = Vec::new();
    let encoder = image::codecs::png::PngEncoder::new(&mut out);
    match encoder.write_image(rgba, width, height, image::ExtendedColorType::Rgba8) {
        Ok(()) => Some(out),
        Err(_) => None,
    }
}

/// `PngEncoder::new_with_quality(.., Fast, Sub).write_image(.., Rgba8)`
/// into memory. Claimed: the bytes are the named encoding of these
/// arguments.
#[verifier::external_body]
fn encode_png_fast(rgba: &Vec<u8>, width: u32, height: u32) -> (r: Option<Vec<u8>>)
    requires
        rgba@.len() == 4 * width * height,
    ensures
        match r {
            Some(b) => png_fast(rgba@, width, height) == Some(b@),
            None => png_fast(rgba@, width, height) is None,
        },
{
    let mut out: Vec<u8> = Vec::new();
    let encoder = image::codecs::png::PngEncoder::new_with_quality(
        &mut out, image::codecs::png::CompressionType::Fast, image::codecs::png::FilterType::Sub);
    match encoder.write_image(rgba, width, height, image::ExtendedColorType::Rgba8) {
        Ok(()) => Some(out),
        Err(_) => None,
    }
}

/// `image::imageops::resize` with `FilterType::Triangle`. Claimed: the
/// result is the named resampling of these arguments, with four bytes per
/// pixel of the new size.
#[verifier::external_body]
fn resize_triangle(rgba: &Vec<u8>, width: u32, height: u32, new_width: u32, new_height: u32) -> (r: Vec<u8>)
    requires
        rgba@.len() == 4 * width * height,
        4 * new_width * new_height <= usize::MAX,
    ensures
        r@ == triangle_resized(rgba@, width, height, new_width, new_height),
        r@.len() == 4 * new_width * new_height,
{
    let img = image::RgbaImage::from_raw(width, height, rgba.clone()).unwrap_or_default();
    image::imageops::resize(&img, new_width, new_height, image::imageops::FilterType::Triangle).into_raw()
}

/// `DynamicImage::ImageRgba8(..).to_rgb8().write_to(.., ImageFormat::Jpeg)`
/// into memory. Claimed: the bytes are the named encoding of these
/// arguments.
#[verifier::external_body]
fn encode_jpeg(rgba: &Vec<u8>, width: u32, height: u32) -> (r: Option<Vec<u8>>)
    requires
        rgba@.len() == 4 * width * height,
    ensures
        match r {
            Some(b) => jpeg_of(rgba@, width, height) == Some(b@),
            None => jpeg_of(rgba@, width, height) is None,
        },
{
    let img = image::RgbaImage::from_raw(width, height, rgba.clone()).unwrap_or_default();
    let rgb = image::DynamicImage::ImageRgba8(img).to_rgb8();
    let mut out: Vec<u8> = Vec::new();
    match rgb.write_to(&mut std::io::Cursor::new(&mut out), image::ImageFormat::Jpeg) {
        Ok(()) => Some(out),
        Err(_) => None,
    }
}

/// Byte `c` of an opaque black RGBA pixel.
pub open spec fn black_rgba(c: int) -> u8 {
    if c == 3 { 255 } else { 0 }
}

/// The RGBA image kept in the history: pixel `(x, y)` is the BGRA pixel at
/// `y * stride + 4 * x` with blue and red exchanged, or opaque black when
/// that pixel does not lie wholly inside the buffer.
pub open spec fn history_rgba_spec(data: Seq<u8>, width: int, height: int, stride: int) -> Seq<u8> {
    Seq::new((4 * width * height) as nat, |i: int| {
        let p = i / 4;
        let off = (p / width) * stride + 4 * (p % width);
        if off + 3 < data.len() { data[off + rgba_byte_source(i % 4)] } else { black_rgba(i % 4) }
    })
}

/// Which BGRA byte feeds byte `c` of an RGBA pixel.
pub open spec fn rgba_byte_source(c: int) -> int {
    if c == 0 { 2 } else if c == 2 { 0 } else { c }
}

/// The offset `y * stride + 4 * x` of every pixel of a `width` x `height`
/// image fits a `u32` (offsets are computed in 32 bits).
pub open spec fn offsets_fit_u32(width: int, height: int, stride: int) -> bool {
    width > 0 && height > 0 ==> (height - 1) * stride + 4 * (width - 1) <= u32::MAX
}

/// The RGBA image of a capture as the history stores it.
pub fn history_rgba(pixels: &PixelBuffer) -> (r: Vec<u8>)
    requires
        4 * pixels.width * pixels.height <= usize::MAX,
        offsets_fit_u32(pixels.width as int, pixels.height as int, pixels.stride as int),
    ensures
        r@ == history_rgba_spec(pixels.data@, pixels.width as int, pixels.height as int, pixels.stride as int),
{
    let ghost d = pixels.data@;
    let ghost (w, h, st) = (pixels.width as int, pixels.height as int, pixels.stride as int);
    let data: &Vec<u8> = &pixels.data;
    let width = pixels.width;
    let height = pixels.height;
    let stride = pixels.stride;
    let mut out: Vec<u8> = Vec::new();
    let mut y: u32 = 0;
    while y < height
        invariant
            y <= height,
            d == data@,
            w == width, h == height, st == stride,
            4 * width * height <= usize::MAX,
            offsets_fit_u32(w, h, st),
            out@.len() == 4 * width * y,
            forall|i: int| 0 <= i < out@.len() ==> #[trigger] out@[i] == history_rgba_spec(d, w, h, st)[i],
        decreases height - y,
    {
        let mut x: u32 = 0;
        while x < width
            invariant
                y < height,
                x <= width,
                d == data@,
                w == width, h == height, st == stride,
                4 * width * height <= usize::MAX,
                offsets_fit_u32(w, h, st),
                out@.len() == 4 * width * y + 4 * x,
                forall|i: int| 0 <= i < out@.len() ==> #[trigger] out@[i] == history_rgba_spec(d, w, h, st)[i],
            decreases width - x,
        {
            proof {
                assert(y * stride + x * 4 <= u32::MAX) by (nonlinear_arith)
                    requires y < height, x < width, (height - 1) * stride + 4 * (width - 1) <= u32::MAX, stride >= 0;
                assert(4 * width * y + 4 * x + 4 <= 4 * width * height) by (nonlinear_arith)
                    requires y < height, x < width;
            }
            let offset = (y * stride + x * 4) as usize;
            let ghost base = out@.len() as int;
            let ghost before = out@;
            if offset < data.len() && data.len() - offset > 3 {
                out.push(data[offset + 2]);
                out.push(data[offset + 1]);
                out.push(data[offset]);
                out.push(data[offset + 3]);
            } else {
                out.push(0);
                out.push(0);
                out.push(0);
                out.push(255);
            }
            proof {
                assert forall|i: int| 0 <= i < out@.len() implies #[trigger] out@[i] == history_rgba_spec(d, w, h, st)[i] by {
                    if i >= base {
                        let p = i / 4;
                        assert(base == 4 * (w * y + x)) by (nonlinear_arith)
                            requires base == 4 * width * y + 4 * x, w == width;
                        lemma_row_col(w * y + x, i - base, 4);
                        assert(p == w * y + x);
                        assert(i % 4 == i - base);
                        lemma_row_col(y as int, x as int, w);
                        assert(p / w == y && p % w == x);
                        assert((p / w) * st + 4 * (p % w) == offset);
                    } else {
                        assert(out@[i] == before[i]);
                    }
                }
            }
            x = x + 1;
        }
        proof {
            assert(4 * width * y + 4 * width == 4 * width * (y + 1)) by (nonlinear_arith);
        }
        y = y + 1;
    }
    assert(out@ =~= history_rgba_spec(d, w, h, st));
    out
}

/// The PNG of a capture as the history stores it (`None` when the encoder
/// refuses the image).
pub fn history_png(pixels: &PixelBuffer) -> (r: Option<Vec<u8>>)
    requires
        4 * pixels.width * pixels.height <= usize::MAX,
        offsets_fit_u32(pixels.width as int, pixels.height as int, pixels.stride as int),
    ensures
        match r {
            Some(b) => png_default(history_rgba_spec(pixels.data@, pixels.width as int, pixels.height as int, pixels.stride as int),
                pixels.width, pixels.height) == Some(b@),
            None => png_default(history_rgba_spec(pixels.data@, pixels.width as int, pixels.height as int, pixels.stride as int),
                pixels.width, pixels.height) is None,
        },
{
    let rgba = history_rgba(pixels);
    encode_png(&rgba, pixels.width, pixels.height)
}

/// The PNG file of a screenshot: its rows packed, blue and red exchanged,
/// encoded fast.
pub fn capture_png(pixels: &PixelBuffer) -> (r: Option<Vec<u8>>)
    requires
        4 * pixels.width * pixels.height <= usize::MAX,
        4 * pixels.width <= pixels.stride,
        holds_rows(pixels.data@.len() as int, pixels.height as int, 4 * pixels.width, pixels.stride as int),
    ensures
        match r {
            Some(b) => png_fast(swapped_red_blue(packed_rows(pixels.data@, 4 * pixels.width, pixels.height as int, pixels.stride as int)),
                pixels.width, pixels.height) == Some(b@),
            None => png_fast(swapped_red_blue(packed_rows(pixels.data@, 4 * pixels.width, pixels.height as int, pixels.stride as int)),
                pixels.width, pixels.height) is None,
        },
{
    let mut rgba = pack_rows(&pixels.data, pixels.width, pixels.height, pixels.stride);
    proof {
        let k = pixels.width * pixels.height;
        vstd::arithmetic::div_mod::lemma_mod_multiples_basic(k, 4);
        assert(4 * pixels.width * pixels.height == k * 4) by (nonlinear_arith)
            requires k == pixels.width * pixels.height;
    }
    swap_red_blue(&mut rgba);
    encode_png_fast(&rgba, pixels.width, pixels.height)
}

/// The JPEG thumbnail of an RGBA image, resampled to `thumb_width` x
/// `thumb_height` with the triangle filter.
pub fn thumbnail_jpeg(rgba: &Vec<u8>, width: u32, height: u32, thumb_width: u32, thumb_height: u32) -> (r: Option<Vec<u8>>)
    requires
        rgba@.len() == 4 * width * height,
        4 * thumb_width * thumb_height <= usize::MAX,
    ensures
        match r {
            Some(b) => jpeg_of(triangle_resized(rgba@, width, height, thumb_width, thumb_height), thumb_width, thumb_height) == Some(b@),
            None => jpeg_of(triangle_resized(rgba@, width, height, thumb_width, thumb_height), thumb_width, thumb_height) is None,
        },
{
    let small = resize_triangle(rgba, width, height, thumb_width, thumb_height);
    encode_jpeg(&small, thumb_width, thumb_height)
}

} // verus!
