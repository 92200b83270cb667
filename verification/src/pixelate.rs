//! Block pixelation ("blur" annotations): a region is cut into square
//! blocks from its top-left corner, and every pixel of a block takes the
//! block's average colour, fully opaque.

use vstd::prelude::*;
use crate::pixels::lemma_row_col;
use crate::raster::{Bgra, fill_rect, rect_byte, rect_filled, painted};

verus! {

/// Byte `c` of the pixel in row `y`, column `x`.
pub open spec fn pix(data: Seq<u8>, stride: int, c: int, y: int, x: int) -> u8 {
    data[y * stride + 4 * x + c]
}

/// Sum of channel `c` over the pixels `xa..xb` of row `y`.
pub open spec fn row_sum(data: Seq<u8>, stride: int, c: int, y: int, xa: int, xb: int) -> int
    decreases xb - xa,
{
    if xb <= xa {
        0
    } else {
        row_sum(data, stride, c, y, xa, xb - 1) + pix(data, stride, c, y, xb - 1)
    }
}

/// Sum of channel `c` over the block `[xa, xb) x [ya, yb)`.
pub open spec fn block_sum(data: Seq<u8>, stride: int, c: int, xa: int, xb: int, ya: int, yb: int) -> int
    decreases yb - ya,
{
    if yb <= ya {
        0
    } else {
        block_sum(data, stride, c, xa, xb, ya, yb - 1) + row_sum(data, stride, c, yb - 1, xa, xb)
    }
}

/// Average of channel `c` over a block, truncated.
pub open spec fn block_average(data: Seq<u8>, stride: int, c: int, xa: int, xb: int, ya: int, yb: int) -> u8 {
    (block_sum(data, stride, c, xa, xb, ya, yb) / ((xb - xa) * (yb - ya))) as u8
}

/// Where the block containing coordinate `p` starts, for blocks of
/// `size` laid from `origin`.
pub open spec fn block_start(p: int, origin: int, size: int) -> int {
    origin + ((p - origin) / size) * size
}

/// The smaller of two integers.
pub open spec fn min(a: int, b: int) -> int {
    if a <= b { a } else { b }
}

/// The opaque average colour of the block `[xa, xb) x [ya, yb)`.
pub open spec fn block_color(data: Seq<u8>, stride: int, xa: int, xb: int, ya: int, yb: int) -> Bgra {
    Bgra {
        b: block_average(data, stride, 0, xa, xb, ya, yb),
        g: block_average(data, stride, 1, xa, xb, ya, yb),
        r: block_average(data, stride, 2, xa, xb, ya, yb),
        a: 255,
    }
}

/// The colour of the block that holds pixel `(px, py)` of the region
/// `[x0, x1) x [y0, y1)` cut into blocks of `size`.
pub open spec fn color_of_block_at(data: Seq<u8>, stride: int, x0: int, x1: int, y0: int, y1: int, size: int, px: int, py: int) -> Bgra {
    let bx = block_start(px, x0, size);
    let by = block_start(py, y0, size);
    block_color(data, stride, bx, min(bx + size, x1), by, min(by + size, y1))
}

/// The buffer with the region pixelated.
pub open spec fn pixelated(data: Seq<u8>, stride: int, x0: int, x1: int, y0: int, y1: int, size: int) -> Seq<u8> {
    Seq::new(data.len(), |i: int|
        if rect_byte(i, data.len() as int, stride, x0, x1, y0, y1) {
            painted(data[i], i % stride % 4,
                color_of_block_at(data, stride, x0, x1, y0, y1, size, (i % stride) / 4, i / stride))
        } else {
            data[i]
        })
}

proof fn lemma_row_sum_bound(data: Seq<u8>, stride: int, c: int, y: int, xa: int, xb: int)
    requires
        xa <= xb,
    ensures
        0 <= row_sum(data, stride, c, y, xa, xb) <= 255 * (xb - xa),
    decreases xb - xa,
{
    if xb > xa {
        lemma_row_sum_bound(data, stride, c, y, xa, xb - 1);
    }
}

proof fn lemma_block_sum_bound(data: Seq<u8>, stride: int, c: int, xa: int, xb: int, ya: int, yb: int)
    requires
        xa <= xb,
        ya <= yb,
    ensures
        0 <= block_sum(data, stride, c, xa, xb, ya, yb) <= 255 * (xb - xa) * (yb - ya),
    decreases yb - ya,
{
    if yb > ya {
        lemma_block_sum_bound(data, stride, c, xa, xb, ya, yb - 1);
        lemma_row_sum_bound(data, stride, c, yb - 1, xa, xb);
        assert(255 * (xb - xa) * (yb - 1 - ya) + 255 * (xb - xa) == 255 * (xb - xa) * (yb - ya)) by (nonlinear_arith);
    }
}

/// Two buffers that agree on a block have the same sums over it.
proof fn lemma_block_sum_agree(d1: Seq<u8>, d2: Seq<u8>, stride: int, c: int, xa: int, xb: int, ya: int, yb: int)
    requires
        forall|y: int, x: int| #![trigger pix(d1, stride, c, y, x)] ya <= y < yb && xa <= x < xb ==>
            pix(d1, stride, c, y, x) == pix(d2, stride, c, y, x),
    ensures
        block_sum(d1, stride, c, xa, xb, ya, yb) == block_sum(d2, stride, c, xa, xb, ya, yb),
    decreases yb - ya,
{
    if yb > ya {
        lemma_block_sum_agree(d1, d2, stride, c, xa, xb, ya, yb - 1);
        lemma_row_sum_agree(d1, d2, stride, c, yb - 1, xa, xb);
    }
}

proof fn lemma_row_sum_agree(d1: Seq<u8>, d2: Seq<u8>, stride: int, c: int, y: int, xa: int, xb: int)
    requires
        forall|x: int| #![trigger pix(d1, stride, c, y, x)] xa <= x < xb ==> pix(d1, stride, c, y, x) == pix(d2, stride, c, y, x),
    ensures
        row_sum(d1, stride, c, y, xa, xb) == row_sum(d2, stride, c, y, xa, xb),
    decreases xb - xa,
{
    if xb > xa {
        lemma_row_sum_agree(d1, d2, stride, c, y, xa, xb - 1);
    }
}

/// The sums of one channel over a block.
fn sum_block(data: &Vec<u8>, stride: u32, xa: u32, xb: u32, ya: u32, yb: u32, c: u32) -> (r: u64)
    requires
        c < 4,
        xa < xb,
        ya < yb,
        4 * xb <= stride,
        yb * stride <= u32::MAX,
        (yb - 1) * stride + 4 * xb <= data@.len(),
    ensures
        r == block_sum(data@, stride as int, c as int, xa as int, xb as int, ya as int, yb as int),
{
    let ghost d = data@;
    let ghost st = stride as int;
    let mut total: u64 = 0;
    let mut y = ya;
    assert((xb - xa) * (yb - ya) <= u32::MAX) by (nonlinear_arith)
        requires xa < xb, ya < yb, 4 * xb <= stride, yb * stride <= u32::MAX;
    while y < yb
        invariant
            ya <= y <= yb,
            xa < xb,
            c < 4,
            4 * xb <= stride,
            yb * stride <= u32::MAX,
            (yb - 1) * stride + 4 * xb <= d.len(),
            (xb - xa) * (yb - ya) <= u32::MAX,
            d == data@,
            st == stride,
            total == block_sum(d, st, c as int, xa as int, xb as int, ya as int, y as int),
        decreases yb - y,
    {
        let mut x = xa;
        let ghost base = total as int;
        proof {
            lemma_block_sum_bound(d, st, c as int, xa as int, xb as int, ya as int, y as int);
            assert(255 * (xb - xa) * (y - ya) + 255 * (xb - xa) <= 255 * (xb - xa) * (yb - ya)) by (nonlinear_arith)
                requires y < yb, xa < xb;
        }
        while x < xb
            invariant
                ya <= y < yb,
                xa <= x <= xb,
                c < 4,
                4 * xb <= stride,
                yb * stride <= u32::MAX,
                (yb - 1) * stride + 4 * xb <= d.len(),
                (xb - xa) * (yb - ya) <= u32::MAX,
                d == data@,
                st == stride,
                base == block_sum(d, st, c as int, xa as int, xb as int, ya as int, y as int),
                base <= 255 * (xb - xa) * (y - ya),
                255 * (xb - xa) * (y - ya) + 255 * (xb - xa) <= 255 * (xb - xa) * (yb - ya),
                total == base + row_sum(d, st, c as int, y as int, xa as int, x as int),
            decreases xb - x,
        {
            assert(y * stride + 4 * x + c < (yb - 1) * stride + 4 * xb) by (nonlinear_arith)
                requires y < yb, x < xb, c < 4;
            assert(y * stride + 4 * x + c <= u32::MAX) by (nonlinear_arith)
                requires y < yb, x < xb, c < 4, 4 * xb <= stride, yb * stride <= u32::MAX;
            let idx = (y * stride + 4 * x + c) as usize;
            proof {
                lemma_row_sum_bound(d, st, c as int, y as int, xa as int, x as int);
                assert(255 * (xb - xa) * (yb - ya) <= 255 * 0x1_0000_0000) by (nonlinear_arith)
                    requires (xb - xa) * (yb - ya) <= u32::MAX;
            }
            total = total + data[idx] as u64;
            x = x + 1;
        }
        y = y + 1;
    }
    total
}

proof fn lemma_block_nonempty(xa: int, xb: int, ya: int, yb: int)
    requires
        xa < xb,
        ya < yb,
    ensures
        (xb - xa) * (yb - ya) > 0,
{
    assert((xb - xa) * (yb - ya) > 0) by (nonlinear_arith)
        requires xa < xb, ya < yb;
}

/// The opaque average colour of a block.
fn average_block(data: &Vec<u8>, stride: u32, xa: u32, xb: u32, ya: u32, yb: u32) -> (r: Bgra)
    requires
        xa < xb,
        ya < yb,
        4 * xb <= stride,
        yb * stride <= u32::MAX,
        (yb - 1) * stride + 4 * xb <= data@.len(),
    ensures
        r == block_color(data@, stride as int, xa as int, xb as int, ya as int, yb as int),
{
    assert((xb - xa) * (yb - ya) <= u32::MAX) by (nonlinear_arith)
        requires xa < xb, ya < yb, 4 * xb <= stride, yb * stride <= u32::MAX;
    let count: u64 = ((xb - xa) as u64) * ((yb - ya) as u64);
    proof { lemma_block_nonempty(xa as int, xb as int, ya as int, yb as int); }
    let sb = sum_block(data, stride, xa, xb, ya, yb, 0);
    let sg = sum_block(data, stride, xa, xb, ya, yb, 1);
    let sr = sum_block(data, stride, xa, xb, ya, yb, 2);
    proof {
        let n = count as int;
        lemma_block_sum_bound(data@, stride as int, 0, xa as int, xb as int, ya as int, yb as int);
        lemma_block_sum_bound(data@, stride as int, 1, xa as int, xb as int, ya as int, yb as int);
        lemma_block_sum_bound(data@, stride as int, 2, xa as int, xb as int, ya as int, yb as int);
        assert(255 * (xb - xa) * (yb - ya) == 255 * n) by (nonlinear_arith)
            requires n == (xb - xa) * (yb - ya);
        assert(sb / count <= 255) by (nonlinear_arith) requires sb <= 255 * n, n > 0, n == count;
        assert(sg / count <= 255) by (nonlinear_arith) requires sg <= 255 * n, n > 0, n == count;
        assert(sr / count <= 255) by (nonlinear_arith) requires sr <= 255 * n, n > 0, n == count;
    }
    Bgra { b: (sb / count) as u8, g: (sg / count) as u8, r: (sr / count) as u8, a: 255 }
}

/// Where the block of a coordinate starts, and that the coordinate lies
/// within the block.
proof fn lemma_block_start(p: int, o: int, s: int)
    requires
        o <= p,
        s > 0,
    ensures
        block_start(p, o, s) <= p < block_start(p, o, s) + s,
        o <= block_start(p, o, s),
        (p - o) / s >= 0,
        block_start(p, o, s) == o + ((p - o) / s) * s,
{
    vstd::arithmetic::div_mod::lemma_fundamental_div_mod(p - o, s);
    assert(((p - o) / s) * s == s * ((p - o) / s)) by (nonlinear_arith);
    assert((p - o) / s >= 0) by {
        vstd::arithmetic::div_mod::lemma_div_pos_is_pos(p - o, s);
    }
    assert(0 <= ((p - o) / s) * s) by (nonlinear_arith)
        requires (p - o) / s >= 0, s > 0;
}

/// A coordinate in the `k`-th block has that block's start.
proof fn lemma_block_start_of(p: int, o: int, k: int, s: int)
    requires
        s > 0,
        k >= 0,
        o + k * s <= p < o + k * s + s,
    ensures
        block_start(p, o, s) == o + k * s,
{
    lemma_row_col(k, p - o - k * s, s);
    assert(k * s + (p - o - k * s) == p - o);
}

/// Block starts are ordered as the block numbers are.
proof fn lemma_block_start_order(p: int, o: int, k: int, s: int)
    requires
        s > 0,
        k >= 0,
        o <= p,
    ensures
        block_start(p, o, s) < o + k * s + s <==> block_start(p, o, s) <= o + k * s,
        block_start(p, o, s) < o + k * s <==> p < o + k * s,
{
    lemma_block_start(p, o, s);
    let q = (p - o) / s;
    assert(q * s < k * s + s <==> q <= k) by (nonlinear_arith)
        requires s > 0;
    assert(q * s < k * s <==> q < k) by (nonlinear_arith)
        requires s > 0;
    if p < o + k * s {
        assert(q < k) by (nonlinear_arith)
            requires s > 0, q * s <= p - o, p - o < k * s;
    } else {
        assert(q >= k) by (nonlinear_arith)
            requires s > 0, p - o < q * s + s, p - o >= k * s;
    }
}

/// Pixelate the region `[x0, x1) x [y0, y1)` in blocks of `block_size`.
pub fn pixelate_region(data: &mut Vec<u8>, stride: u32, x0: u32, x1: u32, y0: u32, y1: u32, block_size: u32)
    requires
        block_size >= 4,
        4 * x1 <= stride,
        y1 * stride <= u32::MAX,
        x1 + block_size <= u32::MAX,
        y1 + block_size <= u32::MAX,
        x0 < x1 && y0 < y1 ==> (y1 - 1) * stride + 4 * x1 <= old(data)@.len(),
    ensures
        final(data)@ == pixelated(old(data)@, stride as int, x0 as int, x1 as int, y0 as int, y1 as int, block_size as int),
{
    let ghost orig = data@;
    let ghost len = orig.len() as int;
    let ghost st = stride as int;
    let ghost bs = block_size as int;
    let ghost target = pixelated(orig, st, x0 as int, x1 as int, y0 as int, y1 as int, bs);
    let mut by = y0;
    let ghost mut kb: int = 0;
    while by < y1
        invariant
            y0 <= by,
            by >= y1 || by == y0 + kb * bs,
            kb >= 0,
            by <= y1 || y0 >= y1,
            block_size >= 4,
            bs == block_size,
            st == stride,
            4 * x1 <= stride,
            y1 * stride <= u32::MAX,
            x1 + block_size <= u32::MAX,
            y1 + block_size <= u32::MAX,
            x0 < x1 && y0 < y1 ==> (y1 - 1) * stride + 4 * x1 <= len,
            data@.len() == len,
            len == orig.len(),
            target == pixelated(orig, st, x0 as int, x1 as int, y0 as int, y1 as int, bs),
            forall|i: int| 0 <= i < len ==> #[trigger] data@[i] == (
                if rect_byte(i, len, st, x0 as int, x1 as int, y0 as int, y1 as int)
                    && block_start(i / st, y0 as int, bs) < by
                { target[i] } else { orig[i] }),
        decreases y1 - by,
    {
        let bh = if block_size <= y1 - by { block_size } else { y1 - by };
        let mut bx = x0;
        let ghost mut kx: int = 0;
        while bx < x1
            invariant
                y0 <= by < y1,
                by == y0 + kb * bs,
                kb >= 0,
                0 < bh <= block_size,
                by + bh <= y1,
                bh == min(bs, y1 - by),
                x0 <= bx,
                bx >= x1 || bx == x0 + kx * bs,
                kx >= 0,
                bx <= x1 || x0 >= x1,
                block_size >= 4,
                bs == block_size,
                st == stride,
                4 * x1 <= stride,
                y1 * stride <= u32::MAX,
                x1 + block_size <= u32::MAX,
                y1 + block_size <= u32::MAX,
                x0 < x1 && y0 < y1 ==> (y1 - 1) * stride + 4 * x1 <= len,
                data@.len() == len,
                len == orig.len(),
                target == pixelated(orig, st, x0 as int, x1 as int, y0 as int, y1 as int, bs),
                forall|i: int| 0 <= i < len ==> #[trigger] data@[i] == (
                    if rect_byte(i, len, st, x0 as int, x1 as int, y0 as int, y1 as int)
                        && (block_start(i / st, y0 as int, bs) < by
                            || (block_start(i / st, y0 as int, bs) == by && block_start((i % st) / 4, x0 as int, bs) < bx))
                    { target[i] } else { orig[i] }),
            decreases x1 - bx,
        {
            let bw = if block_size <= x1 - bx { block_size } else { x1 - bx };
            let ghost before = data@;
            proof {
                assert((by + bh - 1) * stride + 4 * (bx + bw) <= (y1 - 1) * stride + 4 * x1) by (nonlinear_arith)
                    requires by + bh <= y1, bx + bw <= x1, bh > 0;
                assert((by + bh) * stride <= y1 * stride) by (nonlinear_arith)
                    requires by + bh <= y1;
                // The current block is untouched so far.
                assert forall|c: int, y: int, x: int|
                    #![trigger pix(before, st, c, y, x)]
                    0 <= c < 3 && by <= y < by + bh && bx <= x < bx + bw implies
                    pix(before, st, c, y, x) == pix(orig, st, c, y, x) by {
                    let i = y * st + 4 * x + c;
                    assert(y * st + 4 * x + c < (y1 - 1) * st + 4 * x1) by (nonlinear_arith)
                        requires 0 <= y < y1, x < x1, 0 <= c < 4, y1 > 0, st >= 0;
                    assert(0 <= y * st) by (nonlinear_arith) requires y >= 0, st >= 0;
                    assert(4 * x + 4 <= st);
                    crate::pixels::lemma_row_col(y, 4 * x + c, st);
                    crate::pixels::lemma_row_col(x, c, 4);
                    assert(x * 4 == 4 * x);
                    lemma_block_start_of(y, y0 as int, kb, bs);
                    lemma_block_start_of(x, x0 as int, kx, bs);
                    assert(!(block_start(i / st, y0 as int, bs) < by));
                    assert(!(block_start((i % st) / 4, x0 as int, bs) < bx));
                }
                assert forall|y: int, x: int| #![trigger pix(before, st, 0, y, x)] by <= y < by + bh && bx <= x < bx + bw implies
                    pix(before, st, 0, y, x) == pix(orig, st, 0, y, x) by {}
                assert forall|y: int, x: int| #![trigger pix(before, st, 1, y, x)] by <= y < by + bh && bx <= x < bx + bw implies
                    pix(before, st, 1, y, x) == pix(orig, st, 1, y, x) by {}
                assert forall|y: int, x: int| #![trigger pix(before, st, 2, y, x)] by <= y < by + bh && bx <= x < bx + bw implies
                    pix(before, st, 2, y, x) == pix(orig, st, 2, y, x) by {}
                lemma_block_sum_agree(before, orig, st, 0, bx as int, bx + bw, by as int, by + bh);
                lemma_block_sum_agree(before, orig, st, 1, bx as int, bx + bw, by as int, by + bh);
                lemma_block_sum_agree(before, orig, st, 2, bx as int, bx + bw, by as int, by + bh);
            }
            let color = average_block(data, stride, bx, bx + bw, by, by + bh);
            assert(color == block_color(orig, st, bx as int, bx + bw, by as int, by + bh));
            fill_rect(data, stride, bx, bx + bw, by, by + bh, color);
            proof {
                assert forall|i: int| 0 <= i < len implies #[trigger] data@[i] == (
                    if rect_byte(i, len, st, x0 as int, x1 as int, y0 as int, y1 as int)
                        && (block_start(i / st, y0 as int, bs) < by
                            || (block_start(i / st, y0 as int, bs) == by && block_start((i % st) / 4, x0 as int, bs) < bx + bs))
                    { target[i] } else { orig[i] }) by {
                    let in_block = rect_byte(i, len, st, bx as int, bx + bw, by as int, by + bh);
                    assert(data@[i] == rect_filled(before, st, bx as int, bx + bw, by as int, by + bh, color)[i]);
                    if st > 0 && 0 <= i {
                        let py = i / st;
                        let px = (i % st) / 4;
                        vstd::arithmetic::div_mod::lemma_fundamental_div_mod(i % st, 4);
                        assert(i % st == 4 * px + i % st % 4);
                        if rect_byte(i, len, st, x0 as int, x1 as int, y0 as int, y1 as int) {
                            lemma_block_start(py, y0 as int, bs);
                            lemma_block_start(px, x0 as int, bs);
                            lemma_block_start_order(py, y0 as int, kb, bs);
                            lemma_block_start_order(px, x0 as int, kx, bs);
                            if in_block {
                                lemma_block_start_of(py, y0 as int, kb, bs);
                                lemma_block_start_of(px, x0 as int, kx, bs);
                                assert(before[i] == orig[i]);
                                assert(min(bx + bs, x1 as int) == bx + bw);
                                assert(min(by + bs, y1 as int) == by + bh);
                                assert(color_of_block_at(orig, st, x0 as int, x1 as int, y0 as int, y1 as int, bs, px, py) == color);
                                assert(data@[i] == painted(orig[i], i % st % 4, color));
                                assert(block_start(py, y0 as int, bs) == by);
                                assert(rect_byte(i, orig.len() as int, st, x0 as int, x1 as int, y0 as int, y1 as int));
                                assert(target[i] == painted(orig[i], i % st % 4,
                                    color_of_block_at(orig, st, x0 as int, x1 as int, y0 as int, y1 as int, bs, (i % st) / 4, i / st)));
                                assert(target[i] == painted(orig[i], i % st % 4, color));
                            } else {
                                assert(data@[i] == before[i]);
                                if block_start(py, y0 as int, bs) == by && block_start(px, x0 as int, bs) < bx + bs {
                                    assert(block_start(px, x0 as int, bs) <= bx);
                                    if block_start(px, x0 as int, bs) == bx {
                                        assert(by <= py < by + bs);
                                        assert(bx <= px < bx + bs);
                                        assert(py < by + bh);
                                        assert(px < bx + bw);
                                        assert(4 * bx <= i % st < 4 * (bx + bw));
                                        assert(in_block);
                                    }
                                    assert(block_start(px, x0 as int, bs) < bx);
                                }
                            }
                        } else {
                            assert(!in_block);
                        }
                    }
                }
            }
            let ghost old_bx = bx;
            bx = bx + bw;
            proof {
                assert forall|i: int| 0 <= i < len implies
                    (rect_byte(i, len, st, x0 as int, x1 as int, y0 as int, y1 as int)
                        && (block_start(i / st, y0 as int, bs) < by
                            || (block_start(i / st, y0 as int, bs) == by && block_start((i % st) / 4, x0 as int, bs) < old_bx + bs)))
                    == (rect_byte(i, len, st, x0 as int, x1 as int, y0 as int, y1 as int)
                        && (block_start(i / st, y0 as int, bs) < by
                            || (block_start(i / st, y0 as int, bs) == by && block_start((i % st) / 4, x0 as int, bs) < bx))) by {
                    if bw < bs && st > 0 && 0 <= i && rect_byte(i, len, st, x0 as int, x1 as int, y0 as int, y1 as int) {
                        let px = (i % st) / 4;
                        vstd::arithmetic::div_mod::lemma_fundamental_div_mod(i % st, 4);
                        lemma_block_start(px, x0 as int, bs);
                    }
                }
                kx = kx + 1;
                if bx < x1 {
                    assert(bx == x0 + kx * bs) by (nonlinear_arith)
                        requires old_bx == x0 + (kx - 1) * bs, bx == old_bx + bw, bw == bs;
                }
            }
        }
        proof {
            assert forall|i: int| 0 <= i < len implies
                (rect_byte(i, len, st, x0 as int, x1 as int, y0 as int, y1 as int)
                    && (block_start(i / st, y0 as int, bs) < by
                        || (block_start(i / st, y0 as int, bs) == by && block_start((i % st) / 4, x0 as int, bs) < bx)))
                == (rect_byte(i, len, st, x0 as int, x1 as int, y0 as int, y1 as int)
                    && block_start(i / st, y0 as int, bs) < by + bs) by {
                if st > 0 && 0 <= i && rect_byte(i, len, st, x0 as int, x1 as int, y0 as int, y1 as int) {
                    let py = i / st;
                    let px = (i % st) / 4;
                    vstd::arithmetic::div_mod::lemma_fundamental_div_mod(i % st, 4);
                    lemma_block_start(py, y0 as int, bs);
                    lemma_block_start(px, x0 as int, bs);
                    lemma_block_start_order(py, y0 as int, kb, bs);
                }
            }
        }
        let ghost old_by = by;
        by = by + bh;
        proof {
            assert forall|i: int| 0 <= i < len implies
                (rect_byte(i, len, st, x0 as int, x1 as int, y0 as int, y1 as int)
                    && block_start(i / st, y0 as int, bs) < old_by + bs)
                == (rect_byte(i, len, st, x0 as int, x1 as int, y0 as int, y1 as int)
                    && block_start(i / st, y0 as int, bs) < by) by {
                if bh < bs && st > 0 && 0 <= i && rect_byte(i, len, st, x0 as int, x1 as int, y0 as int, y1 as int) {
                    let py = i / st;
                    lemma_block_start(py, y0 as int, bs);
                }
            }
            kb = kb + 1;
            if by < y1 {
                assert(by == y0 + kb * bs) by (nonlinear_arith)
                    requires old_by == y0 + (kb - 1) * bs, by == old_by + bh, bh == bs;
            }
        }
    }
    assert(data@ =~= target) by {
        assert forall|i: int| 0 <= i < len implies data@[i] == target[i] by {
            if rect_byte(i, len, st, x0 as int, x1 as int, y0 as int, y1 as int) {
                let py = i / st;
                lemma_block_start(py, y0 as int, bs);
            }
        }
    }
}

/// Whether pixel `(px, py)` is one that a sample reads: inside the
/// `width` x `height` image, with its red byte inside the buffer.
pub open spec fn sampled(len: int, width: int, height: int, stride: int, px: int, py: int) -> bool {
    0 <= px < width && 0 <= py < height && py * stride + 4 * px + 2 < len
}

/// Sum of channel `c` (0 blue, 1 green, 2 red) over the sampled pixels
/// `xa..xb` of row `py`.
pub open spec fn sample_row_sum(data: Seq<u8>, width: int, height: int, stride: int, c: int, py: int, xa: int, xb: int) -> int
    decreases xb - xa,
{
    if xb <= xa {
        0
    } else {
        sample_row_sum(data, width, height, stride, c, py, xa, xb - 1)
            + if sampled(data.len() as int, width, height, stride, xb - 1, py) { data[py * stride + 4 * (xb - 1) + c] as int } else { 0 }
    }
}

/// Number of sampled pixels among `xa..xb` of row `py`.
pub open spec fn sample_row_count(len: int, width: int, height: int, stride: int, py: int, xa: int, xb: int) -> int
    decreases xb - xa,
{
    if xb <= xa {
        0
    } else {
        sample_row_count(len, width, height, stride, py, xa, xb - 1)
            + if sampled(len, width, height, stride, xb - 1, py) { 1int } else { 0 }
    }
}

/// Sum of channel `c` over the sampled pixels of `[xa, xb) x [ya, yb)`.
pub open spec fn sample_sum(data: Seq<u8>, width: int, height: int, stride: int, c: int, xa: int, xb: int, ya: int, yb: int) -> int
    decreases yb - ya,
{
    if yb <= ya {
        0
    } else {
        sample_sum(data, width, height, stride, c, xa, xb, ya, yb - 1)
            + sample_row_sum(data, width, height, stride, c, yb - 1, xa, xb)
    }
}

/// Number of sampled pixels of `[xa, xb) x [ya, yb)`.
pub open spec fn sample_count(len: int, width: int, height: int, stride: int, xa: int, xb: int, ya: int, yb: int) -> int
    decreases yb - ya,
{
    if yb <= ya {
        0
    } else {
        sample_count(len, width, height, stride, xa, xb, ya, yb - 1)
            + sample_row_count(len, width, height, stride, yb - 1, xa, xb)
    }
}

/// The offset of every pixel of the block that lies in the image fits a
/// `u32` (offsets are computed in 32 bits).
pub open spec fn offsets_fit(len: int, width: int, height: int, stride: int, x0: int, y0: int, bw: int, bh: int) -> bool {
    forall|px: int, py: int| #![trigger sampled(len, width, height, stride, px, py)]
        x0 <= px < x0 + bw && y0 <= py < y0 + bh && 0 <= px < width && 0 <= py < height
        ==> py * stride + 4 * px <= u32::MAX
}

/// The channel sums and the number of pixels of a sampled block.
#[derive(Debug, Clone, Copy, PartialEq, Eq, Structural)]
pub struct BlockSums {
    pub blue: u64,
    pub green: u64,
    pub red: u64,
    pub count: u64,
}

proof fn lemma_sample_row_bounds(data: Seq<u8>, width: int, height: int, stride: int, c: int, py: int, xa: int, xb: int)
    requires
        xa <= xb,
    ensures
        0 <= sample_row_sum(data, width, height, stride, c, py, xa, xb)
            <= 255 * sample_row_count(data.len() as int, width, height, stride, py, xa, xb),
        0 <= sample_row_count(data.len() as int, width, height, stride, py, xa, xb) <= xb - xa,
    decreases xb - xa,
{
    if xb > xa {
        lemma_sample_row_bounds(data, width, height, stride, c, py, xa, xb - 1);
    }
}

proof fn lemma_sample_bounds(data: Seq<u8>, width: int, height: int, stride: int, c: int, xa: int, xb: int, ya: int, yb: int)
    requires
        xa <= xb,
        ya <= yb,
    ensures
        0 <= sample_sum(data, width, height, stride, c, xa, xb, ya, yb)
            <= 255 * sample_count(data.len() as int, width, height, stride, xa, xb, ya, yb),
        0 <= sample_count(data.len() as int, width, height, stride, xa, xb, ya, yb) <= (xb - xa) * (yb - ya),
    decreases yb - ya,
{
    if yb > ya {
        lemma_sample_bounds(data, width, height, stride, c, xa, xb, ya, yb - 1);
        lemma_sample_row_bounds(data, width, height, stride, c, yb - 1, xa, xb);
        assert((xb - xa) * (yb - 1 - ya) + (xb - xa) == (xb - xa) * (yb - ya)) by (nonlinear_arith);
    }
}

/// Sum the blue, green and red bytes, and count the pixels, of the block of
/// `bw` x `bh` pixels at `(x0, y0)`, leaving out the pixels outside the
/// image (the colour shown for a blur while it is being drawn is their
/// average).
pub fn sample_block_sums(data: &[u8], width: u32, height: u32, stride: u32, x0: i32, y0: i32, bw: u32, bh: u32) -> (r: BlockSums)
    requires
        width <= i32::MAX,
        height <= i32::MAX,
        bw <= i32::MAX,
        bh <= i32::MAX,
        x0 + bw <= i32::MAX,
        y0 + bh <= i32::MAX,
        bw * bh <= 0x00FF_FFFF_FFFF_FFFF,
        offsets_fit(data@.len() as int, width as int, height as int, stride as int, x0 as int, y0 as int, bw as int, bh as int),
    ensures
        r.blue == sample_sum(data@, width as int, height as int, stride as int, 0, x0 as int, x0 + bw, y0 as int, y0 + bh),
        r.green == sample_sum(data@, width as int, height as int, stride as int, 1, x0 as int, x0 + bw, y0 as int, y0 + bh),
        r.red == sample_sum(data@, width as int, height as int, stride as int, 2, x0 as int, x0 + bw, y0 as int, y0 + bh),
        r.count == sample_count(data@.len() as int, width as int, height as int, stride as int, x0 as int, x0 + bw, y0 as int, y0 + bh),
{
    let ghost d = data@;
    let ghost len = d.len() as int;
    let ghost (w, h, st) = (width as int, height as int, stride as int);
    let x_end: i32 = x0 + bw as i32;
    let y_end: i32 = y0 + bh as i32;
    let mut sum_b: u64 = 0;
    let mut sum_g: u64 = 0;
    let mut sum_r: u64 = 0;
    let mut count: u64 = 0;
    let mut py: i32 = y0;
    proof {
        assert(bw * bh <= 0x00FF_FFFF_FFFF_FFFF);
    }
    while py < y_end
        invariant
            y0 <= py <= y_end,
            y_end == y0 + bh,
            x_end == x0 + bw,
            width <= i32::MAX,
            height <= i32::MAX,
            d == data@,
            len == d.len(),
            w == width, h == height, st == stride,
            bw * bh <= 0x00FF_FFFF_FFFF_FFFF,
            offsets_fit(len, w, h, st, x0 as int, y0 as int, bw as int, bh as int),
            sum_b == sample_sum(d, w, h, st, 0, x0 as int, x_end as int, y0 as int, py as int),
            sum_g == sample_sum(d, w, h, st, 1, x0 as int, x_end as int, y0 as int, py as int),
            sum_r == sample_sum(d, w, h, st, 2, x0 as int, x_end as int, y0 as int, py as int),
            count == sample_count(len, w, h, st, x0 as int, x_end as int, y0 as int, py as int),
        decreases y_end - py,
    {
        proof {
            lemma_sample_bounds(d, w, h, st, 0, x0 as int, x_end as int, y0 as int, py + 1);
            lemma_sample_bounds(d, w, h, st, 1, x0 as int, x_end as int, y0 as int, py + 1);
            lemma_sample_bounds(d, w, h, st, 2, x0 as int, x_end as int, y0 as int, py + 1);
            assert((x_end - x0) * (py + 1 - y0) <= bw * bh) by (nonlinear_arith)
                requires x_end - x0 == bw, py + 1 - y0 <= bh, 0 <= py + 1 - y0, bw >= 0;
        }
        let ghost row_start_b = sum_b;
        let ghost row_start_g = sum_g;
        let ghost row_start_r = sum_r;
        let ghost row_start_n = count;
        let mut px: i32 = x0;
        while px < x_end
            invariant
                y0 <= py < y_end,
                x0 <= px <= x_end,
                y_end == y0 + bh,
                x_end == x0 + bw,
                width <= i32::MAX,
                height <= i32::MAX,
                d == data@,
                len == d.len(),
                w == width, h == height, st == stride,
                offsets_fit(len, w, h, st, x0 as int, y0 as int, bw as int, bh as int),
                sample_sum(d, w, h, st, 0, x0 as int, x_end as int, y0 as int, py + 1) <= 255 * sample_count(len, w, h, st, x0 as int, x_end as int, y0 as int, py + 1),
                sample_sum(d, w, h, st, 1, x0 as int, x_end as int, y0 as int, py + 1) <= 255 * sample_count(len, w, h, st, x0 as int, x_end as int, y0 as int, py + 1),
                sample_sum(d, w, h, st, 2, x0 as int, x_end as int, y0 as int, py + 1) <= 255 * sample_count(len, w, h, st, x0 as int, x_end as int, y0 as int, py + 1),
                sample_count(len, w, h, st, x0 as int, x_end as int, y0 as int, py + 1) <= 0x00FF_FFFF_FFFF_FFFF,
                row_start_b == sample_sum(d, w, h, st, 0, x0 as int, x_end as int, y0 as int, py as int),
                row_start_g == sample_sum(d, w, h, st, 1, x0 as int, x_end as int, y0 as int, py as int),
                row_start_r == sample_sum(d, w, h, st, 2, x0 as int, x_end as int, y0 as int, py as int),
                row_start_n == sample_count(len, w, h, st, x0 as int, x_end as int, y0 as int, py as int),
                sum_b == row_start_b + sample_row_sum(d, w, h, st, 0, py as int, x0 as int, px as int),
                sum_g == row_start_g + sample_row_sum(d, w, h, st, 1, py as int, x0 as int, px as int),
                sum_r == row_start_r + sample_row_sum(d, w, h, st, 2, py as int, x0 as int, px as int),
                count == row_start_n + sample_row_count(len, w, h, st, py as int, x0 as int, px as int),
            decreases x_end - px,
        {
            proof {
                lemma_sample_row_bounds(d, w, h, st, 0, py as int, px + 1, x_end as int);
                lemma_sample_row_bounds(d, w, h, st, 1, py as int, px + 1, x_end as int);
                lemma_sample_row_bounds(d, w, h, st, 2, py as int, px + 1, x_end as int);
                lemma_sample_row_split(d, w, h, st, 0, py as int, x0 as int, px + 1, x_end as int);
                lemma_sample_row_split(d, w, h, st, 1, py as int, x0 as int, px + 1, x_end as int);
                lemma_sample_row_split(d, w, h, st, 2, py as int, x0 as int, px + 1, x_end as int);
            }
            if px >= 0 && px < width as i32 && py >= 0 && py < height as i32 {
                assert(sampled(len, w, h, st, px as int, py as int) || !sampled(len, w, h, st, px as int, py as int));
                assert(py * stride + 4 * px <= u32::MAX);
                let off = (py as u32 * stride + px as u32 * 4) as usize;
                if off < data.len() && data.len() - off > 2 {
                    sum_b = sum_b + data[off] as u64;
                    sum_g = sum_g + data[off + 1] as u64;
                    sum_r = sum_r + data[off + 2] as u64;
                    count = count + 1;
                }
            }
            px = px + 1;
        }
        py = py + 1;
    }
    BlockSums { blue: sum_b, green: sum_g, red: sum_r, count }
}

/// Splitting a row's span at `m` splits its sums and counts.
proof fn lemma_sample_row_split(data: Seq<u8>, width: int, height: int, stride: int, c: int, py: int, xa: int, m: int, xb: int)
    requires
        xa <= m <= xb,
    ensures
        sample_row_sum(data, width, height, stride, c, py, xa, xb)
            == sample_row_sum(data, width, height, stride, c, py, xa, m) + sample_row_sum(data, width, height, stride, c, py, m, xb),
        sample_row_count(data.len() as int, width, height, stride, py, xa, xb)
            == sample_row_count(data.len() as int, width, height, stride, py, xa, m)
            + sample_row_count(data.len() as int, width, height, stride, py, m, xb),
    decreases xb - m,
{
    if xb > m {
        lemma_sample_row_split(data, width, height, stride, c, py, xa, m, xb - 1);
    }
}

} // verus!
