use vstd::arithmetic::div_mod::lemma_fundamental_div_mod_converse;
use vstd::prelude::*;

verus! {

/// The extent of a crop along one axis: the wanted extent, cut to what is left of
/// the image after the start (`available`), and at least 1.
pub open spec fn spec_crop_extent(want: u32, available: u32) -> u32 {
    let m = if want < available { want } else { available };
    if m < 1 { 1 } else { m }
}

/// The extent of a blur along one axis: the wanted extent kept between 1 and what
/// is left of the image after the start, taken as at least 1.
pub open spec fn spec_blur_extent(want: u32, available: u32) -> u32 {
    let hi = if available < 1 { 1 } else { available };
    if want < 1 { 1 } else if want > hi { hi } else { want }
}

/// The pixels of an image left after `start` along an axis of length `size`
/// (`size - start`, or 0 past the end).
pub open spec fn spec_available(size: u32, start: u32) -> u32 {
    if start <= size { (size - start) as u32 } else { 0 }
}

/// The extent of a crop along one axis of an image of length `size`, from `start`.
pub fn crop_extent(want: u32, size: u32, start: u32) -> (e: u32)
    ensures
        e == spec_crop_extent(want, spec_available(size, start)),
{
    let available = size.saturating_sub(start);
    let m = if want < available { want } else { available };
    if m < 1 { 1 } else { m }
}

/// The extent of a blur along one axis of an image of length `size`, from `start`.
pub fn blur_extent(want: u32, size: u32, start: u32) -> (e: u32)
    ensures
        e == spec_blur_extent(want, spec_available(size, start)),
{
    let available = size.saturating_sub(start);
    let hi = if available < 1 { 1 } else { available };
    if want < 1 { 1 } else if want > hi { hi } else { want }
}

/// A crop and a blur of the same wanted extent from the same start take the same
/// extent; it is never 0, and where the start lies inside the image the extent
/// ends inside it.
pub proof fn law_crop_and_blur_extents_agree(want: u32, size: u32, start: u32)
    ensures
        spec_crop_extent(want, spec_available(size, start)) == spec_blur_extent(
            want,
            spec_available(size, start),
        ),
        spec_crop_extent(want, spec_available(size, start)) >= 1,
        start < size ==> start + spec_crop_extent(want, spec_available(size, start)) <= size,
        1 <= want && start + want <= size ==> spec_crop_extent(want, spec_available(size, start))
            == want,
{
}

/// The span `[lo, hi)` of pixels along an axis of length `limit` that a run of
/// `len` pixels starting at `start` (possibly before 0) covers.
pub open spec fn spec_clip_span(start: i32, len: u32, limit: u32) -> (u32, u32) {
    let lo = if start < 0 { 0 } else { start as int };
    let end = start + len;
    let e = if end < 0 { 0 } else { end };
    let hi = if e < limit { e } else { limit as int };
    (lo as u32, hi as u32)
}

/// Clips a run of pixels to an axis of the image.
pub fn clip_span(start: i32, len: u32, limit: u32) -> (r: (u32, u32))
    requires
        len <= i32::MAX,
        limit <= i32::MAX,
        start + len <= i32::MAX,
    ensures
        r == spec_clip_span(start, len, limit),
{
    let lo: u32 = if start < 0 { 0 } else { start as u32 };
    let end: i32 = start + len as i32;
    let e: i32 = if end < 0 { 0 } else { end };
    let hi: i32 = if e < limit as i32 { e } else { limit as i32 };
    (lo, hi as u32)
}

/// The byte `k` of an RGBA canvas of width `w` after the first `done` pixels (in
/// row order) of a `bw` by `bh` block of RGBA pixels `src` were pasted with their
/// top left corner at `(x0, y0)`. A pixel whose four bytes do not all lie in
/// `src` is left as it was.
pub open spec fn pasted_byte(
    before: Seq<u8>,
    w: int,
    x0: int,
    y0: int,
    src: Seq<u8>,
    bw: int,
    bh: int,
    done: int,
    k: int,
) -> u8 {
    let p = k / 4;
    let px = p % w;
    let py = p / w;
    if x0 <= px < x0 + bw && y0 <= py < y0 + bh {
        let j = (py - y0) * bw + (px - x0);
        if j < done && j * 4 + 3 < src.len() {
            src[j * 4 + k % 4]
        } else {
            before[k]
        }
    } else {
        before[k]
    }
}

/// The canvas after the first `done` pixels of the block were pasted.
pub open spec fn spec_pasted(
    before: Seq<u8>,
    w: int,
    x0: int,
    y0: int,
    src: Seq<u8>,
    bw: int,
    bh: int,
    done: int,
) -> Seq<u8> {
    Seq::new(before.len(), |k: int| pasted_byte(before, w, x0, y0, src, bw, bh, done, k))
}

proof fn lemma_pixel_index(w: int, h: int, px: int, py: int, ch: int)
    requires
        0 <= px < w,
        0 <= py < h,
        0 <= ch < 4,
    ensures
        0 <= (py * w + px) * 4 + ch < w * h * 4,
        ((py * w + px) * 4 + ch) / 4 == py * w + px,
        ((py * w + px) * 4 + ch) % 4 == ch,
        (py * w + px) % w == px,
        (py * w + px) / w == py,
{
    assert(0 <= py * w + px < w * h) by (nonlinear_arith)
        requires
            0 <= px < w,
            0 <= py < h,
    ;
    assert(w * h * 4 == (w * h) * 4) by (nonlinear_arith);
    let p = py * w + px;
    lemma_fundamental_div_mod_converse(p * 4 + ch, 4, p, ch);
    lemma_fundamental_div_mod_converse(p, w, py, px);
}

proof fn lemma_canvas_pixel(k: int, w: int, h: int)
    requires
        0 <= k < w * h * 4,
        w > 0,
        h > 0,
    ensures
        0 <= (k / 4) % w < w,
        0 <= (k / 4) / w < h,
        0 <= k % 4 < 4,
        k == (((k / 4) / w) * w + (k / 4) % w) * 4 + k % 4,
{
    let p = k / 4;
    assert(k == 4 * p + k % 4) by {
        vstd::arithmetic::div_mod::lemma_fundamental_div_mod(k, 4);
    }
    assert(p == w * (p / w) + p % w) by {
        vstd::arithmetic::div_mod::lemma_fundamental_div_mod(p, w);
    }
    assert(0 <= p < w * h) by (nonlinear_arith)
        requires
            p == k / 4,
            0 <= k < w * h * 4,
    ;
    assert(p / w < h) by (nonlinear_arith)
        requires
            0 <= p < w * h,
            w > 0,
    ;
    assert(w * (p / w) == (p / w) * w) by (nonlinear_arith);
}

proof fn lemma_pair_unique(bw: int, a: int, b: int, a2: int, b2: int)
    requires
        0 <= b < bw,
        0 <= b2 < bw,
        a * bw + b == a2 * bw + b2,
    ensures
        a == a2,
        b == b2,
{
    lemma_fundamental_div_mod_converse(a * bw + b, bw, a, b);
    lemma_fundamental_div_mod_converse(a2 * bw + b2, bw, a2, b2);
}

/// The canvas with the four bytes of pixel `base / 4` taken from `src` at `from`.
pub open spec fn spec_write_pixel(cur: Seq<u8>, base: int, src: Seq<u8>, from: int) -> Seq<u8> {
    Seq::new(cur.len(), |k: int| if base <= k < base + 4 { src[from + (k - base)] } else { cur[k] })
}

proof fn lemma_paste_step(
    before: Seq<u8>,
    w: int,
    h: int,
    x0: int,
    y0: int,
    src: Seq<u8>,
    bw: int,
    bh: int,
    dx: int,
    dy: int,
)
    requires
        before.len() == w * h * 4,
        0 <= dx < bw,
        0 <= dy < bh,
        x0 >= 0,
        y0 >= 0,
        w >= 0,
        h >= 0,
    ensures
        ({
            let j = dy * bw + dx;
            let px = x0 + dx;
            let py = y0 + dy;
            let cur = spec_pasted(before, w, x0, y0, src, bw, bh, j);
            let next = spec_pasted(before, w, x0, y0, src, bw, bh, j + 1);
            if px < w && py < h && j * 4 + 3 < src.len() {
                next == spec_write_pixel(cur, (py * w + px) * 4, src, j * 4)
            } else {
                next == cur
            }
        }),
{
    let j = dy * bw + dx;
    let px = x0 + dx;
    let py = y0 + dy;
    let cur = spec_pasted(before, w, x0, y0, src, bw, bh, j);
    let next = spec_pasted(before, w, x0, y0, src, bw, bh, j + 1);
    let write = px < w && py < h && j * 4 + 3 < src.len();
    let base = (py * w + px) * 4;
    let want = if write { spec_write_pixel(cur, base, src, j * 4) } else { cur };
    assert forall|k: int| 0 <= k < before.len() implies next[k] == want[k] by {
        assert(w > 0 && h > 0) by (nonlinear_arith)
            requires
                0 <= k < w * h * 4,
                w >= 0,
                h >= 0,
        ;
        lemma_canvas_pixel(k, w, h);
        let pk = k / 4;
        let pxk = pk % w;
        let pyk = pk / w;
        let in_region = x0 <= pxk < x0 + bw && y0 <= pyk < y0 + bh;
        let jk = (pyk - y0) * bw + (pxk - x0);
        if in_region && jk == j {
            lemma_pair_unique(bw, pyk - y0, pxk - x0, dy, dx);
            assert(pxk == px && pyk == py);
            assert(k == base + k % 4);
            if write {
                assert(base <= k < base + 4);
            }
        } else if write && base <= k < base + 4 {
            lemma_pixel_index(w, h, px, py, k - base);
            assert(k == base + (k - base));
            assert(pk == py * w + px);
            assert(pxk == px && pyk == py);
            assert(false);
        }
    }
    assert(next =~= want);
}

/// Pastes a `bw` by `bh` block of RGBA pixels onto an RGBA canvas of `w` by `h`
/// pixels (rows of 4 bytes per pixel) with its top left corner at `(x0, y0)`;
/// the parts outside the canvas, and pixels whose bytes `src` does not hold, are
/// skipped.
pub fn paste_pixels(
    canvas: &mut Vec<u8>,
    w: u32,
    h: u32,
    x0: u32,
    y0: u32,
    src: &Vec<u8>,
    bw: u32,
    bh: u32,
)
    requires
        old(canvas)@.len() == w * h * 4,
        bh == 0 || x0 + bw <= 0x1_0000_0000,
        bw == 0 || y0 + bh <= 0x1_0000_0000,
        bw * bh <= 0x4000_0000,
    ensures
        final(canvas)@ == spec_pasted(old(canvas)@, w as int, x0 as int, y0 as int, src@, bw as int, bh as int, bw * bh),
{
    let ghost old_c = canvas@;
    let mut dy: u32 = 0;
    assert(canvas@ =~= spec_pasted(old_c, w as int, x0 as int, y0 as int, src@, bw as int, bh as int, 0));
    while dy < bh
        invariant
            old_c.len() == w * h * 4,
            canvas@.len() == old_c.len(),
            dy <= bh,
            bh == 0 || x0 + bw <= 0x1_0000_0000,
            bw == 0 || y0 + bh <= 0x1_0000_0000,
            bw * bh <= 0x4000_0000,
            canvas@ == spec_pasted(old_c, w as int, x0 as int, y0 as int, src@, bw as int, bh as int, dy * bw),
        decreases bh - dy,
    {
        let mut dx: u32 = 0;
        while dx < bw
            invariant
                old_c.len() == w * h * 4,
                canvas@.len() == old_c.len(),
                dy < bh,
                dx <= bw,
                bh == 0 || x0 + bw <= 0x1_0000_0000,
                bw == 0 || y0 + bh <= 0x1_0000_0000,
                bw * bh <= 0x4000_0000,
                canvas@ == spec_pasted(old_c, w as int, x0 as int, y0 as int, src@, bw as int, bh as int, dy * bw + dx),
            decreases bw - dx,
        {
            proof {
                lemma_paste_step(old_c, w as int, h as int, x0 as int, y0 as int, src@, bw as int, bh as int, dx as int, dy as int);
                assert(0 <= dy * bw + dx < bw * bh) by (nonlinear_arith)
                    requires
                        dx < bw,
                        dy < bh,
                ;
            }
            let px = x0 + dx;
            let py = y0 + dy;
            if px < w && py < h {
                let i = ((dy * bw + dx) * 4) as usize;
                if i + 3 < src.len() {
                    let clen = canvas.len();
                    proof {
                        lemma_pixel_index(w as int, h as int, px as int, py as int, 3);
                        assert(0 <= py * w <= py * w + px);
                        assert((py * w + px) * 4 + 3 < clen);
                    }
                    let base = ((py as usize) * (w as usize) + (px as usize)) * 4;
                    let ghost cur = canvas@;
                    canvas.set(base, src[i]);
                    canvas.set(base + 1, src[i + 1]);
                    canvas.set(base + 2, src[i + 2]);
                    canvas.set(base + 3, src[i + 3]);
                    assert(canvas@ =~= spec_write_pixel(cur, base as int, src@, i as int));
                }
            }
            dx = dx + 1;
        }
        assert(dy * bw + bw == (dy + 1) * bw) by (nonlinear_arith);
        dy = dy + 1;
    }
    assert(dy * bw == bw * bh) by (nonlinear_arith)
        requires
            dy == bh,
    ;
}

} // verus!
