use vstd::prelude::*;

verus! {

/// A colour without alpha.
pub type Rgb = (u8, u8, u8);

/// How far in from each corner the border is sampled.
pub const BORDER_SAMPLE_SPAN: u32 = 10;

/// Colour distance under which a pixel counts as background.
pub const BACKGROUND_THRESHOLD: u32 = 50;

/// Pixels with alpha under this are made fully transparent.
pub const MIN_OPAQUE_ALPHA: u8 = 128;

/// Pixels whose channel sum exceeds this (mean brightness over 240) are
/// made transparent.
pub const MAX_CHANNEL_SUM: u32 = 720;

/// Squared distance to white under which a pixel is made transparent.
pub const NEAR_WHITE_SQUARED: u32 = 900;

/// The colour of pixel `(x, y)` of an RGBA image `w` pixels wide.
pub open spec fn rgb_at(px: Seq<u8>, w: int, x: int, y: int) -> Rgb {
    let i = 4 * (y * w + x);
    (px[i], px[i + 1], px[i + 2])
}

pub open spec fn sample_span(n: int) -> int {
    if n < BORDER_SAMPLE_SPAN { n } else { BORDER_SAMPLE_SPAN as int }
}

/// Samples along the top and bottom rows: top, bottom, top, ...
pub open spec fn row_samples(px: Seq<u8>, w: int, h: int) -> Seq<Rgb> {
    Seq::new(
        (2 * sample_span(w)) as nat,
        |k: int|
            if k % 2 == 0 {
                rgb_at(px, w, k / 2, 0)
            } else {
                rgb_at(px, w, k / 2, h - 1)
            },
    )
}

/// Samples along the left and right columns: left, right, left, ...
pub open spec fn column_samples(px: Seq<u8>, w: int, h: int) -> Seq<Rgb> {
    Seq::new(
        (2 * sample_span(h)) as nat,
        |k: int|
            if k % 2 == 0 {
                rgb_at(px, w, 0, k / 2)
            } else {
                rgb_at(px, w, w - 1, k / 2)
            },
    )
}

/// The border pixels that are sampled: along the top and bottom rows the
/// first `min(w, 10)` columns, then along the left and right columns the
/// first `min(h, 10)` rows.
pub open spec fn border_samples(px: Seq<u8>, w: int, h: int) -> Seq<Rgb> {
    row_samples(px, w, h) + column_samples(px, w, h)
}

/// Each channel rounded down to a multiple of ten.
pub open spec fn quantize(c: Rgb) -> Rgb {
    ((c.0 / 10 * 10) as u8, (c.1 / 10 * 10) as u8, (c.2 / 10 * 10) as u8)
}

/// How often `c` occurs in `s`.
pub open spec fn count_in(s: Seq<Rgb>, c: Rgb) -> nat
    decreases s.len(),
{
    if s.len() == 0 {
        0
    } else {
        count_in(s.drop_last(), c) + if s.last() == c { 1nat } else { 0nat }
    }
}

/// `c` is one of the most frequent colours of `s`.
pub open spec fn is_modal(s: Seq<Rgb>, c: Rgb) -> bool {
    &&& s.contains(c)
    &&& forall|k: int| 0 <= k < s.len() ==> count_in(s, #[trigger] s[k]) <= count_in(s, c)
}

pub open spec fn dist2(a: Rgb, b: Rgb) -> int {
    (a.0 - b.0) * (a.0 - b.0) + (a.1 - b.1) * (a.1 - b.1) + (a.2 - b.2) * (a.2 - b.2)
}

/// Whether a pixel is made transparent against background `bg`: it is
/// already mostly transparent, or within `threshold` of the background, or
/// very bright, or close to white.
pub open spec fn clears(c: Rgb, a: u8, bg: Rgb, threshold: int) -> bool {
    ||| a < MIN_OPAQUE_ALPHA
    ||| dist2(c, bg) < threshold * threshold
    ||| c.0 + c.1 + c.2 > MAX_CHANNEL_SUM
    ||| dist2(c, (255u8, 255u8, 255u8)) < NEAR_WHITE_SQUARED
}

/// An RGBA image of `w` by `h` pixels, row-major.
pub open spec fn image_ok(px: Seq<u8>, w: int, h: int) -> bool {
    w > 0 && h > 0 && px.len() == 4 * (w * h)
}

proof fn lemma_pixel_in_bounds(w: int, h: int, x: int, y: int)
    requires
        0 <= x < w,
        0 <= y < h,
    ensures
        0 <= y * w + x,
        y * w + x + 1 <= w * h,
{
    assert(0 <= y * w + x && y * w + x + 1 <= w * h) by (nonlinear_arith)
        requires
            0 <= x < w,
            0 <= y < h,
    ;
}

fn pixel_rgb(px: &Vec<u8>, w: u32, h: u32, x: u32, y: u32) -> (r: Rgb)
    requires
        image_ok(px@, w as int, h as int),
        x < w,
        y < h,
    ensures
        r == rgb_at(px@, w as int, x as int, y as int),
{
    proof {
        lemma_pixel_in_bounds(w as int, h as int, x as int, y as int);
        assert(px@.len() == px.len());
    }
    let i: usize = 4 * (y as usize * w as usize + x as usize);
    (px[i], px[i + 1], px[i + 2])
}

/// Samples the image's border as `border_samples` describes.
pub fn sample_border(px: &Vec<u8>, w: u32, h: u32) -> (r: Vec<Rgb>)
    requires
        image_ok(px@, w as int, h as int),
    ensures
        r@ == border_samples(px@, w as int, h as int),
{
    let mx = if w < BORDER_SAMPLE_SPAN { w } else { BORDER_SAMPLE_SPAN };
    let my = if h < BORDER_SAMPLE_SPAN { h } else { BORDER_SAMPLE_SPAN };
    let ghost top = row_samples(px@, w as int, h as int);
    let ghost side = column_samples(px@, w as int, h as int);
    let mut out: Vec<Rgb> = Vec::new();
    let mut x: u32 = 0;
    while x < mx
        invariant
            image_ok(px@, w as int, h as int),
            mx == sample_span(w as int),
            mx <= w,
            x <= mx,
            top == row_samples(px@, w as int, h as int),
            out@ =~= top.subrange(0, 2 * x),
        decreases mx - x,
    {
        out.push(pixel_rgb(px, w, h, x, 0));
        out.push(pixel_rgb(px, w, h, x, h - 1));
        proof {
            let k = 2 * x as int;
            assert(k % 2 == 0 && k / 2 == x && (k + 1) % 2 == 1 && (k + 1) / 2 == x);
            assert(top[k] == rgb_at(px@, w as int, x as int, 0));
            assert(top[k + 1] == rgb_at(px@, w as int, x as int, h - 1));
        }
        x = x + 1;
    }
    let mut y: u32 = 0;
    while y < my
        invariant
            image_ok(px@, w as int, h as int),
            mx == sample_span(w as int),
            my == sample_span(h as int),
            mx <= w,
            my <= h,
            y <= my,
            top == row_samples(px@, w as int, h as int),
            side == column_samples(px@, w as int, h as int),
            out@ =~= top + side.subrange(0, 2 * y),
        decreases my - y,
    {
        out.push(pixel_rgb(px, w, h, 0, y));
        out.push(pixel_rgb(px, w, h, w - 1, y));
        proof {
            let k = 2 * y as int;
            assert(k % 2 == 0 && k / 2 == y && (k + 1) % 2 == 1 && (k + 1) / 2 == y);
            assert(side[k] == rgb_at(px@, w as int, 0, y as int));
            assert(side[k + 1] == rgb_at(px@, w as int, w - 1, y as int));
        }
        y = y + 1;
    }
    assert(top.subrange(0, 2 * mx as int) =~= top);
    assert(side.subrange(0, 2 * my as int) =~= side);
    out
}

fn quantize_exec(c: Rgb) -> (r: Rgb)
    ensures
        r == quantize(c),
{
    (c.0 / 10 * 10, c.1 / 10 * 10, c.2 / 10 * 10)
}

proof fn lemma_count_prefix(s: Seq<Rgb>, i: int, c: Rgb)
    requires
        0 <= i < s.len(),
    ensures
        count_in(s.subrange(0, i + 1), c) == count_in(s.subrange(0, i), c) + if s[i] == c {
            1nat
        } else {
            0nat
        },
{
    assert(s.subrange(0, i + 1).drop_last() =~= s.subrange(0, i));
}

fn count_of(s: &Vec<Rgb>, c: Rgb) -> (r: usize)
    ensures
        r == count_in(s@, c),
{
    let mut n: usize = 0;
    let mut i: usize = 0;
    while i < s.len()
        invariant
            i <= s@.len(),
            n == count_in(s@.subrange(0, i as int), c),
            n <= i,
        decreases s@.len() - i,
    {
        proof {
            lemma_count_prefix(s@, i as int, c);
        }
        let e = s[i];
        if e.0 == c.0 && e.1 == c.1 && e.2 == c.2 {
            n = n + 1;
        }
        i = i + 1;
    }
    assert(s@.subrange(0, s@.len() as int) =~= s@);
    n
}

/// The background colour: the most frequent of the quantized border
/// samples (the earliest sampled among equals), or white when there are none.
pub fn modal_color(samples: &Vec<Rgb>) -> (r: Rgb)
    ensures
        samples@.len() == 0 ==> r == (255u8, 255u8, 255u8),
        samples@.len() > 0 ==> is_modal(samples@.map_values(|c: Rgb| quantize(c)), r),
{
    let mut q: Vec<Rgb> = Vec::new();
    let mut i: usize = 0;
    while i < samples.len()
        invariant
            i <= samples@.len(),
            q@ =~= samples@.subrange(0, i as int).map_values(|c: Rgb| quantize(c)),
        decreases samples@.len() - i,
    {
        q.push(quantize_exec(samples[i]));
        i = i + 1;
    }
    assert(samples@.subrange(0, samples@.len() as int) =~= samples@);
    if q.len() == 0 {
        return (255, 255, 255);
    }
    let mut best: usize = 0;
    let mut best_count = count_of(&q, q[0]);
    let mut j: usize = 1;
    while j < q.len()
        invariant
            1 <= j <= q@.len(),
            best < q@.len(),
            best_count == count_in(q@, q@[best as int]),
            forall|k: int| 0 <= k < j ==> count_in(q@, #[trigger] q@[k]) <= best_count,
        decreases q@.len() - j,
    {
        let c = count_of(&q, q[j]);
        if c > best_count {
            best = j;
            best_count = c;
        }
        j = j + 1;
    }
    assert(q@.contains(q@[best as int]));
    q[best]
}

fn channel_dist2(a: Rgb, b: Rgb) -> (r: u32)
    ensures
        r == dist2(a, b),
{
    let d0: i32 = a.0 as i32 - b.0 as i32;
    let d1: i32 = a.1 as i32 - b.1 as i32;
    let d2: i32 = a.2 as i32 - b.2 as i32;
    assert(0 <= d0 * d0 <= 65025) by (nonlinear_arith)
        requires
            -255 <= d0 <= 255,
    ;
    assert(0 <= d1 * d1 <= 65025) by (nonlinear_arith)
        requires
            -255 <= d1 <= 255,
    ;
    assert(0 <= d2 * d2 <= 65025) by (nonlinear_arith)
        requires
            -255 <= d2 <= 255,
    ;
    (d0 * d0 + d1 * d1 + d2 * d2) as u32
}

/// Makes transparent, in place, every pixel that `clears` against `bg`;
/// colours stay, and other pixels keep their alpha.
pub fn clear_background(px: &mut Vec<u8>, bg: Rgb, threshold: u32)
    requires
        old(px)@.len() % 4 == 0,
    ensures
        final(px)@.len() == old(px)@.len(),
        forall|i: int|
            0 <= i < old(px)@.len() && i % 4 != 3 ==> #[trigger] final(px)@[i] == old(px)@[i],
        forall|p: int|
            0 <= p < old(px)@.len() / 4 ==> #[trigger] final(px)@[4 * p + 3] == if clears(
                (old(px)@[4 * p], old(px)@[4 * p + 1], old(px)@[4 * p + 2]),
                old(px)@[4 * p + 3],
                bg,
                threshold as int,
            ) {
                0u8
            } else {
                old(px)@[4 * p + 3]
            },
{
    let n = px.len() / 4;
    assert(threshold as int * threshold as int <= u64::MAX) by (nonlinear_arith)
        requires
            threshold <= u32::MAX,
    ;
    let t2: u64 = threshold as u64 * threshold as u64;
    let mut p: usize = 0;
    proof {
        assert(px@.len() == px.len());
    }
    while p < n
        invariant
            n == old(px)@.len() / 4,
            old(px)@.len() <= usize::MAX,
            old(px)@.len() % 4 == 0,
            px@.len() == old(px)@.len(),
            p <= n,
            t2 == threshold as int * threshold as int,
            forall|i: int|
                0 <= i < old(px)@.len() && (i % 4 != 3 || i >= 4 * p) ==> #[trigger] px@[i]
                    == old(px)@[i],
            forall|q: int|
                0 <= q < p ==> #[trigger] px@[4 * q + 3] == if clears(
                    (old(px)@[4 * q], old(px)@[4 * q + 1], old(px)@[4 * q + 2]),
                    old(px)@[4 * q + 3],
                    bg,
                    threshold as int,
                ) {
                    0u8
                } else {
                    old(px)@[4 * q + 3]
                },
        decreases n - p,
    {
        assert(4 * p + 3 < px@.len()) by (nonlinear_arith)
            requires
                p < n,
                n == px@.len() / 4,
                px@.len() % 4 == 0,
        ;
        let i = 4 * p;
        let c: Rgb = (px[i], px[i + 1], px[i + 2]);
        let a = px[i + 3];
        let clear = a < MIN_OPAQUE_ALPHA || (channel_dist2(c, bg) as u64) < t2 || c.0 as u32
            + c.1 as u32 + c.2 as u32 > MAX_CHANNEL_SUM || channel_dist2(c, (255, 255, 255))
            < NEAR_WHITE_SQUARED;
        if clear {
            px.set(i + 3, 0);
        }
        p = p + 1;
    }
}

/// Removes the background of an RGBA image in place: the modal quantized
/// colour of the border samples is the background, and each pixel that
/// `clears` against it at the standard threshold becomes transparent.
pub fn remove_background(px: &mut Vec<u8>, w: u32, h: u32) -> (bg: Rgb)
    requires
        image_ok(old(px)@, w as int, h as int),
    ensures
        is_modal(border_samples(old(px)@, w as int, h as int).map_values(|c: Rgb| quantize(c)), bg),
        final(px)@.len() == old(px)@.len(),
        forall|i: int|
            0 <= i < old(px)@.len() && i % 4 != 3 ==> #[trigger] final(px)@[i] == old(px)@[i],
        forall|p: int|
            0 <= p < old(px)@.len() / 4 ==> #[trigger] final(px)@[4 * p + 3] == if clears(
                (old(px)@[4 * p], old(px)@[4 * p + 1], old(px)@[4 * p + 2]),
                old(px)@[4 * p + 3],
                bg,
                BACKGROUND_THRESHOLD as int,
            ) {
                0u8
            } else {
                old(px)@[4 * p + 3]
            },
{
    let samples = sample_border(px, w, h);
    let bg = modal_color(&samples);
    proof {
        let len = px@.len() as int;
        let area = w as int * h as int;
        assert(len % 4 == 0) by (nonlinear_arith)
            requires
                len == 4 * area,
        ;
    }
    clear_background(px, bg, BACKGROUND_THRESHOLD);
    bg
}

} // verus!
