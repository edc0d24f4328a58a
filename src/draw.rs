//! Freehand drawing: discs stamped along an integer line between pen samples.

use vstd::prelude::*;

use image::{ColorType, DynamicImage};

use crate::pixels::{
    blend, blended, from_rgba, get_pixel, height, in_bounds, pixel, put_pixel, same_shape,
    to_rgba,
    width, image_format, image_height, image_pixels, image_width,
};
use crate::selection::{max, min, PenMove, PixelPos};

verus! {

/// Radius and colour of the pen, and whether it blends over what is there.
#[derive(Clone, Copy, Debug)]
pub struct PenSettings {
    /// Disc radius in pixels.
    pub radius: u32,
    /// RGBA colour.
    pub color: [u8; 4],
    /// Alpha-composite the colour over each pixel instead of replacing it.
    pub blend: bool,
}

impl PenSettings {
    /// A one-pixel opaque black pen that replaces pixels.
    pub fn new() -> (r: PenSettings)
        ensures
            r.radius == 1,
            r.color@ == seq![0u8, 0u8, 0u8, 255u8],
            !r.blend,
    {
        PenSettings { radius: 1, color: [0, 0, 0, 255], blend: false }
    }
}

pub open spec fn abs(v: int) -> int {
    if v < 0 {
        -v
    } else {
        v
    }
}

pub open spec fn sign(v: int) -> int {
    if v > 0 {
        1
    } else if v < 0 {
        -1
    } else {
        0
    }
}

/// `v` moved `by` steps in direction `s`.
pub open spec fn step(v: int, s: int, by: int) -> int {
    if s > 0 {
        v + by
    } else if s < 0 {
        v - by
    } else {
        v
    }
}

/// `v` lies between `a` and `b`, in either order.
pub open spec fn between(v: int, a: int, b: int) -> bool {
    min(a, b) <= v <= max(a, b)
}

/// Two lattice points touch, sides or corners.
pub open spec fn adjacent(p: PixelPos, q: PixelPos) -> bool {
    abs(q.x - p.x) <= 1 && abs(q.y - p.y) <= 1
}

/// Steps from `from` to `to` along the longer axis.
pub open spec fn line_len(from: PixelPos, to: PixelPos) -> int {
    max(abs(to.x - from.x), abs(to.y - from.y))
}

/// `pts` runs from `from` to `to` one step at a time along the longer axis,
/// with no gap, never leaving the box the two points span.
pub open spec fn is_line(pts: Seq<PixelPos>, from: PixelPos, to: PixelPos) -> bool {
    let dx = to.x - from.x;
    let dy = to.y - from.y;
    &&& pts.len() == line_len(from, to) + 1
    &&& pts[0] == from
    &&& pts[pts.len() - 1] == to
    &&& forall|k: int| 0 <= k < pts.len() - 1 ==> #[trigger] adjacent(pts[k], pts[k + 1])
    &&& forall|k: int|
        0 <= k < pts.len() ==> between(#[trigger] pts[k].x as int, from.x as int, to.x as int)
            && between(pts[k].y as int, from.y as int, to.y as int)
    &&& abs(dx) >= abs(dy) ==> forall|k: int|
        0 <= k < pts.len() ==> #[trigger] pts[k].x == step(from.x as int, sign(dx), k)
    &&& abs(dx) < abs(dy) ==> forall|k: int|
        0 <= k < pts.len() ==> #[trigger] pts[k].y == step(from.y as int, sign(dy), k)
}

/// The lattice point `a` steps along the longer axis and `b` along the
/// shorter one from `from`, heading for `to`.
pub open spec fn line_point(from: PixelPos, to: PixelPos, a: int, b: int) -> (int, int) {
    let dx = to.x - from.x;
    let dy = to.y - from.y;
    if abs(dx) >= abs(dy) {
        (step(from.x as int, sign(dx), a), step(from.y as int, sign(dy), b))
    } else {
        (step(from.x as int, sign(dx), b), step(from.y as int, sign(dy), a))
    }
}

fn move_by(v: u32, s: i64, by: u32) -> (r: u32)
    requires
        -1 <= s <= 1,
        0 <= step(v as int, s as int, by as int) <= u32::MAX,
    ensures
        r == step(v as int, s as int, by as int),
{
    if s > 0 {
        v + by
    } else if s < 0 {
        v - by
    } else {
        v
    }
}

/// The lattice points of the line from `from` to `to`, by integer error
/// accumulation: each step moves one pixel along the longer axis, and one
/// along the shorter axis whenever the accumulated error crosses half a pixel.
pub fn line_points(from: PixelPos, to: PixelPos) -> (pts: Vec<PixelPos>)
    ensures
        is_line(pts@, from, to),
{
    let dx: i64 = to.x as i64 - from.x as i64;
    let dy: i64 = to.y as i64 - from.y as i64;
    let adx: i64 = if dx < 0 { -dx } else { dx };
    let ady: i64 = if dy < 0 { -dy } else { dy };
    let sx: i64 = if dx > 0 { 1 } else if dx < 0 { -1 } else { 0 };
    let sy: i64 = if dy > 0 { 1 } else if dy < 0 { -1 } else { 0 };
    let x_major = adx >= ady;
    let n: i64 = if x_major { adx } else { ady };
    let m: i64 = if x_major { ady } else { adx };
    let mut pts: Vec<PixelPos> = Vec::new();
    if n == 0 {
        pts.push(from);
        proof {
            assert(from == to);
        }
        return pts;
    }
    let mut a: i64 = 0;
    let mut b: i64 = 0;
    let mut rem: i64 = n;
    let mut cur = from;
    assert(2 * a * m + n == b * (2 * n) + rem) by (nonlinear_arith)
        requires
            a == 0,
            b == 0,
            rem == n,
    ;
    while a < n
        invariant
            dx == to.x - from.x,
            dy == to.y - from.y,
            adx == abs(dx as int),
            ady == abs(dy as int),
            sx == sign(dx as int),
            sy == sign(dy as int),
            x_major == (adx >= ady),
            n == max(adx as int, ady as int),
            m == min(adx as int, ady as int),
            0 < n <= u32::MAX,
            0 <= a <= n,
            0 <= b <= m,
            0 <= rem < 2 * n,
            2 * a * m + n == b * (2 * n) + rem,
            pts.len() == a,
            (cur.x as int, cur.y as int) == line_point(from, to, a as int, b as int),
            a == 0 ==> cur == from,
            a > 0 ==> pts[0] == from,
            a > 0 ==> adjacent(pts[a - 1], cur),
            forall|k: int| 0 <= k < a - 1 ==> #[trigger] adjacent(pts@[k], pts@[k + 1]),
            forall|k: int|
                0 <= k < a ==> between(#[trigger] pts@[k].x as int, from.x as int, to.x as int)
                    && between(pts@[k].y as int, from.y as int, to.y as int),
            x_major ==> forall|k: int|
                0 <= k < a ==> #[trigger] pts@[k].x == step(from.x as int, sign(dx as int), k),
            !x_major ==> forall|k: int|
                0 <= k < a ==> #[trigger] pts@[k].y == step(from.y as int, sign(dy as int), k),
        decreases n - a,
    {
        pts.push(cur);
        let prev = cur;
        let ghost old_b = b;
        let ghost old_rem = rem;
        a = a + 1;
        rem = rem + 2 * m;
        if rem >= 2 * n {
            rem = rem - 2 * n;
            b = b + 1;
        }
        proof {
            assert(2 * a * m + n == b * (2 * n) + rem) by (nonlinear_arith)
                requires
                    2 * (a - 1) * m + n == old_b * (2 * n) + old_rem,
                    b == old_b ==> rem == old_rem + 2 * m,
                    b != old_b ==> b == old_b + 1 && rem == old_rem + 2 * m - 2 * n,
            ;
            assert(b <= m) by (nonlinear_arith)
                requires
                    2 * a * m + n == b * (2 * n) + rem,
                    0 <= rem,
                    a <= n,
                    n > 0,
                    m >= 0,
            ;
        }
        cur = if x_major {
            PixelPos { x: move_by(from.x, sx, a as u32), y: move_by(from.y, sy, b as u32) }
        } else {
            PixelPos { x: move_by(from.x, sx, b as u32), y: move_by(from.y, sy, a as u32) }
        };
        assert(adjacent(prev, cur));
    }
    proof {
        assert(b == m) by (nonlinear_arith)
            requires
                2 * a * m + n == b * (2 * n) + rem,
                0 <= rem < 2 * n,
                a == n,
                n > 0,
        ;
    }
    pts.push(cur);
    pts
}

/// Pixel `(x, y)` lies in the disc of radius `r` around `c`.
pub open spec fn in_disc(c: PixelPos, r: int, x: int, y: int) -> bool {
    (x - c.x) * (x - c.x) + (y - c.y) * (y - c.y) <= r * r
}

/// The 8-bit RGBA value the pen writes over a pixel that reads as `under`.
pub open spec fn pen_value(pen: PenSettings, under: Seq<u8>) -> Seq<u8> {
    if pen.blend {
        blended(under, pen.color@)
    } else {
        pen.color@
    }
}

/// The samples the pen leaves on a pixel of encoding `f` that held `old`.
pub open spec fn painted(pen: PenSettings, f: ColorType, old: Seq<int>) -> Seq<int> {
    from_rgba(f, pen_value(pen, to_rgba(f, old)))
}

/// Row-major order: `(x, y)` comes before `(cx, cy)`.
pub open spec fn before(x: int, y: int, cx: int, cy: int) -> bool {
    y < cy || (y == cy && x < cx)
}

/// Writes the pen onto every pixel of the image within `pen.radius` of
/// `center`; all other pixels stay. Each such pixel gets the pen colour, or
/// the colour blended over it, stored in the image's encoding.
pub fn stamp(img: &mut DynamicImage, center: PixelPos, pen: &PenSettings)
    ensures
        same_shape(*final(img), *old(img)),
        forall|x: int, y: int|
            #![trigger image_pixels(*final(img))[(x, y)]]
            in_bounds(*old(img), x, y) && !in_disc(center, pen.radius as int, x, y) ==> pixel(
                *final(img),
                x,
                y,
            ) == pixel(*old(img), x, y),
        forall|x: int, y: int|
            #![trigger image_pixels(*final(img))[(x, y)]]
            in_bounds(*old(img), x, y) && in_disc(center, pen.radius as int, x, y) ==> pixel(
                *final(img),
                x,
                y,
            ) == painted(*pen, image_format(*old(img)), pixel(*old(img), x, y)),
{
    let w = width(img);
    let h = height(img);
    if w == 0 || h == 0 {
        return;
    }
    let r: i64 = pen.radius as i64;
    let cx: i64 = center.x as i64;
    let cy: i64 = center.y as i64;
    let x_lo: i64 = if cx - r < 0 { 0 } else { cx - r };
    let x_hi: i64 = if cx + r > w as i64 - 1 { w as i64 - 1 } else { cx + r };
    let y_lo: i64 = if cy - r < 0 { 0 } else { cy - r };
    let y_hi: i64 = if cy + r > h as i64 - 1 { h as i64 - 1 } else { cy + r };
    assert(r * r <= 0x1_0000_0000_0000_0000) by (nonlinear_arith)
        requires
            0 <= r <= 0xffff_ffff,
    ;
    let rr: i128 = r as i128 * r as i128;
    let ghost start = *img;
    assert forall|px: int, py: int|
        in_bounds(start, px, py) && in_disc(center, r as int, px, py) implies py >= y_lo by {
        if py < y_lo {
            assert((py - cy) * (py - cy) > r * r) by (nonlinear_arith)
                requires
                    py - cy < -r,
                    r >= 0,
            ;
            assert((px - cx) * (px - cx) >= 0) by (nonlinear_arith);
        }
    }
    let mut y: i64 = y_lo;
    while y <= y_hi
        invariant
            w == image_width(start),
            h == image_height(start),
            w > 0 && h > 0,
            r == pen.radius,
            cx == center.x,
            cy == center.y,
            rr == r * r,
            x_lo == max(0, cx - r),
            x_hi == min(w - 1, cx + r),
            y_lo == max(0, cy - r),
            y_hi == min(h - 1, cy + r),
            y_lo <= y <= max(y_lo as int, y_hi + 1),
            same_shape(*img, start),
            forall|px: int, py: int|
                #![trigger image_pixels(*img)[(px, py)]]
                in_bounds(start, px, py) && (!in_disc(center, r as int, px, py) || !(py < y))
                    ==> pixel(*img, px, py) == pixel(start, px, py),
            forall|px: int, py: int|
                #![trigger image_pixels(*img)[(px, py)]]
                in_bounds(start, px, py) && in_disc(center, r as int, px, py) && py < y ==> pixel(
                    *img,
                    px,
                    py,
                ) == painted(*pen, image_format(start), pixel(start, px, py)),
        decreases y_hi + 1 - y,
    {
        proof {
            assert forall|px: int, py: int|
                in_bounds(start, px, py) && in_disc(center, r as int, px, py) && py == y implies px
                >= x_lo by {
                if px < x_lo {
                    assert((px - cx) * (px - cx) > r * r) by (nonlinear_arith)
                        requires
                            px - cx < -r,
                            r >= 0,
                    ;
                    assert((py - cy) * (py - cy) >= 0) by (nonlinear_arith);
                }
            }
        }
        let mut x: i64 = x_lo;
        while x <= x_hi
            invariant
                w == image_width(start),
                h == image_height(start),
                w > 0 && h > 0,
                r == pen.radius,
                cx == center.x,
                cy == center.y,
                rr == r * r,
                x_lo == max(0, cx - r),
                x_hi == min(w - 1, cx + r),
                y_lo == max(0, cy - r),
                y_hi == min(h - 1, cy + r),
                y_lo <= y <= y_hi,
                x_lo <= x <= max(x_lo as int, x_hi + 1),
                same_shape(*img, start),
                forall|px: int, py: int|
                    #![trigger image_pixels(*img)[(px, py)]]
                    in_bounds(start, px, py) && (!in_disc(center, r as int, px, py) || !before(
                        px,
                        py,
                        x as int,
                        y as int,
                    )) ==> pixel(*img, px, py) == pixel(start, px, py),
                forall|px: int, py: int|
                    #![trigger image_pixels(*img)[(px, py)]]
                    in_bounds(start, px, py) && in_disc(center, r as int, px, py) && before(
                        px,
                        py,
                        x as int,
                        y as int,
                    ) ==> pixel(*img, px, py) == painted(*pen, image_format(start), pixel(start, px, py)),
            decreases x_hi + 1 - x,
        {
            let ddx: i128 = x as i128 - cx as i128;
            let ddy: i128 = y as i128 - cy as i128;
            proof {
                assert(ddx * ddx <= rr) by (nonlinear_arith)
                    requires
                        -r <= ddx <= r,
                        rr == r * r,
                ;
                assert(ddy * ddy <= rr) by (nonlinear_arith)
                    requires
                        -r <= ddy <= r,
                        rr == r * r,
                ;
                assert(0 <= ddx * ddx) by (nonlinear_arith);
                assert(0 <= ddy * ddy) by (nonlinear_arith);
                assert(rr <= 0x1_0000_0000_0000_0000) by (nonlinear_arith)
                    requires
                        0 <= r <= 0xffff_ffff,
                        rr == r * r,
                ;
            }
            if ddx * ddx + ddy * ddy <= rr {
                let here = get_pixel(img, x as u32, y as u32);
                let p = if pen.blend {
                    blend(here, pen.color)
                } else {
                    pen.color
                };
                assert(pixel(*img, x as int, y as int) == pixel(start, x as int, y as int));
                assert(p@ == pen_value(*pen, to_rgba(image_format(start), pixel(start, x as int, y as int))));
                put_pixel(img, x as u32, y as u32, p);
                assert(pixel(*img, x as int, y as int) == painted(
                    *pen,
                    image_format(start),
                    pixel(start, x as int, y as int),
                ));
            }
            x = x + 1;
        }
        proof {
            assert forall|px: int, py: int|
                in_bounds(start, px, py) && in_disc(center, r as int, px, py) && py == y implies x_lo
                <= px <= x_hi by {
                if px < x_lo || px > x_hi {
                    assert(px - cx < -r || px - cx > r);
                    assert((px - cx) * (px - cx) > r * r) by (nonlinear_arith)
                        requires
                            px - cx < -r || px - cx > r,
                            r >= 0,
                    ;
                    assert((py - cy) * (py - cy) >= 0) by (nonlinear_arith);
                }
            }
        }
        y = y + 1;
    }
    proof {
        assert forall|px: int, py: int|
            in_bounds(start, px, py) && in_disc(center, r as int, px, py) implies py < y by {
            if py >= y && py - cy > r {
                assert((py - cy) * (py - cy) > r * r) by (nonlinear_arith)
                    requires
                        py - cy > r,
                        r >= 0,
                ;
                assert((px - cx) * (px - cx) >= 0) by (nonlinear_arith);
            }
        }
    }
}

/// Pixel `(x, y)` lies within `r` of some point of `pts`.
pub open spec fn covered(pts: Seq<PixelPos>, r: int, x: int, y: int) -> bool {
    exists|k: int| 0 <= k < pts.len() && #[trigger] in_disc(pts[k], r, x, y)
}

/// What the pen leaves on pixel `(x, y)` of an image in encoding `f`, which
/// held `old`, after a disc at each point of `pts` in turn.
pub open spec fn painted_along(
    pen: PenSettings,
    f: ColorType,
    pts: Seq<PixelPos>,
    x: int,
    y: int,
    old: Seq<int>,
) -> Seq<int>
    decreases pts.len(),
{
    if pts.len() == 0 {
        old
    } else {
        let before = painted_along(pen, f, pts.drop_last(), x, y, old);
        if in_disc(pts.last(), pen.radius as int, x, y) {
            painted(pen, f, before)
        } else {
            before
        }
    }
}

/// Pixel `(x, y)` lies within `r` of exactly one point of `pts`.
pub open spec fn covered_once(pts: Seq<PixelPos>, r: int, x: int, y: int) -> bool {
    exists|k: int|
        0 <= k < pts.len() && #[trigger] in_disc(pts[k], r, x, y) && forall|j: int|
            0 <= j < pts.len() && j != k ==> !in_disc(pts[j], r, x, y)
}

/// The pen samples that a move paints at: the line from the last sample when
/// the stroke goes on, else the new sample alone.
pub open spec fn is_move_path(path: Seq<PixelPos>, mv: PenMove) -> bool {
    match mv.from {
        Some(f) => is_line(path, f, mv.to),
        None => path == seq![mv.to],
    }
}

/// Paints a pen move: a disc at every point of the path from the last sample
/// to the new one, so that a fast drag leaves a continuous stroke. Returns the
/// path. Pixels farther than the radius from every point of it stay; with a
/// replacing pen, all the others take the pen colour in the image's encoding.
pub fn stroke(img: &mut DynamicImage, mv: PenMove, pen: &PenSettings) -> (path: Vec<PixelPos>)
    ensures
        is_move_path(path@, mv),
        same_shape(*final(img), *old(img)),
        forall|x: int, y: int|
            #![trigger image_pixels(*final(img))[(x, y)]]
            in_bounds(*old(img), x, y) && !covered(path@, pen.radius as int, x, y) ==> pixel(
                *final(img),
                x,
                y,
            ) == pixel(*old(img), x, y),
        !pen.blend ==> forall|x: int, y: int|
            #![trigger image_pixels(*final(img))[(x, y)]]
            in_bounds(*old(img), x, y) && covered(path@, pen.radius as int, x, y) ==> pixel(
                *final(img),
                x,
                y,
            ) == from_rgba(image_format(*old(img)), pen.color@),
        forall|x: int, y: int|
            #![trigger image_pixels(*final(img))[(x, y)]]
            in_bounds(*old(img), x, y) && covered_once(path@, pen.radius as int, x, y) ==> pixel(
                *final(img),
                x,
                y,
            ) == painted(*pen, image_format(*old(img)), pixel(*old(img), x, y)),
        forall|x: int, y: int|
            #![trigger image_pixels(*final(img))[(x, y)]]
            in_bounds(*old(img), x, y) ==> pixel(*final(img), x, y) == painted_along(
                *pen,
                image_format(*old(img)),
                path@,
                x,
                y,
                pixel(*old(img), x, y),
            ),
{
    let path = match mv.from {
        Some(f) => line_points(f, mv.to),
        None => {
            let mut v: Vec<PixelPos> = Vec::new();
            v.push(mv.to);
            assert(v@ =~= seq![mv.to]);
            v
        },
    };
    let ghost start = *img;
    let ghost r = pen.radius as int;
    let mut k: usize = 0;
    while k < path.len()
        invariant
            0 <= k <= path.len(),
            r == pen.radius,
            same_shape(*img, start),
            forall|x: int, y: int|
                #![trigger image_pixels(*img)[(x, y)]]
                in_bounds(start, x, y) && !covered(path@.take(k as int), r, x, y) ==> pixel(
                    *img,
                    x,
                    y,
                ) == pixel(start, x, y),
            !pen.blend ==> forall|x: int, y: int|
                #![trigger image_pixels(*img)[(x, y)]]
                in_bounds(start, x, y) && covered(path@.take(k as int), r, x, y) ==> pixel(
                    *img,
                    x,
                    y,
                ) == from_rgba(image_format(start), pen.color@),
            forall|x: int, y: int|
                #![trigger image_pixels(*img)[(x, y)]]
                in_bounds(start, x, y) && covered_once(path@.take(k as int), r, x, y) ==> pixel(
                    *img,
                    x,
                    y,
                ) == painted(*pen, image_format(start), pixel(start, x, y)),
            forall|x: int, y: int|
                #![trigger image_pixels(*img)[(x, y)]]
                in_bounds(start, x, y) ==> pixel(*img, x, y) == painted_along(
                    *pen,
                    image_format(start),
                    path@.take(k as int),
                    x,
                    y,
                    pixel(start, x, y),
                ),
        decreases path.len() - k,
    {
        let ghost before = *img;
        stamp(img, path[k], pen);
        proof {
            let done = path@.take(k as int);
            let next = path@.take(k + 1);
            assert(next.drop_last() =~= done);
            assert(next.last() == path@[k as int]);
            assert forall|x: int, y: int|
                #![trigger image_pixels(*img)[(x, y)]]
                in_bounds(start, x, y) implies pixel(*img, x, y) == painted_along(
                    *pen,
                    image_format(start),
                    next,
                    x,
                    y,
                    pixel(start, x, y),
                ) by {
                assert(pixel(before, x, y) == painted_along(
                    *pen,
                    image_format(start),
                    done,
                    x,
                    y,
                    pixel(start, x, y),
                ));
            }
            assert forall|x: int, y: int|
                #![trigger covered(next, r, x, y)]
                covered(next, r, x, y) == (covered(done, r, x, y) || in_disc(path@[k as int], r, x, y)) by {
                if covered(next, r, x, y) {
                    let j = choose|j: int| 0 <= j < next.len() && #[trigger] in_disc(next[j], r, x, y);
                    if j < k {
                        assert(done[j] == next[j]);
                    }
                }
                if covered(done, r, x, y) {
                    let j = choose|j: int| 0 <= j < done.len() && #[trigger] in_disc(done[j], r, x, y);
                    assert(next[j] == done[j]);
                }
                if in_disc(path@[k as int], r, x, y) {
                    assert(next[k as int] == path@[k as int]);
                }
            }
            assert forall|x: int, y: int|
                #![trigger covered_once(next, r, x, y)]
                covered_once(next, r, x, y) ==> (covered_once(done, r, x, y) && !in_disc(
                    path@[k as int],
                    r,
                    x,
                    y,
                )) || (!covered(done, r, x, y) && in_disc(path@[k as int], r, x, y)) by {
                if covered_once(next, r, x, y) {
                    let i = choose|i: int|
                        0 <= i < next.len() && #[trigger] in_disc(next[i], r, x, y) && forall|j: int|
                            0 <= j < next.len() && j != i ==> !in_disc(next[j], r, x, y);
                    if i < k {
                        assert(done[i] == next[i]);
                        assert(!in_disc(next[k as int], r, x, y));
                        assert forall|j: int| 0 <= j < done.len() && j != i implies !in_disc(
                            done[j],
                            r,
                            x,
                            y,
                        ) by {
                            assert(done[j] == next[j]);
                        }
                    } else {
                        assert(next[k as int] == path@[k as int]);
                        if covered(done, r, x, y) {
                            let j = choose|j: int| 0 <= j < done.len() && #[trigger] in_disc(done[j], r, x, y);
                            assert(next[j] == done[j]);
                        }
                    }
                }
            }
            assert forall|x: int, y: int|
                #![trigger image_pixels(*img)[(x, y)]]
                in_bounds(start, x, y) && covered_once(next, r, x, y) implies pixel(*img, x, y)
                == painted(*pen, image_format(start), pixel(start, x, y)) by {
                assert(covered_once(next, r, x, y));
                if in_disc(path@[k as int], r, x, y) {
                    assert(pixel(before, x, y) == pixel(start, x, y));
                } else {
                    assert(covered_once(done, r, x, y));
                    assert(pixel(*img, x, y) == pixel(before, x, y));
                }
            }
        }
        k = k + 1;
    }
    assert(path@.take(path.len() as int) =~= path@);
    path
}

/// A stroke between two pen samples on one row leaves no gap: every pixel of
/// that row between them lies within the pen's reach of some point of the
/// path, so a replacing pen paints it.
pub proof fn lemma_row_stroke_has_no_gaps(
    path: Seq<PixelPos>,
    from: PixelPos,
    to: PixelPos,
    r: int,
    x: int,
)
    requires
        is_line(path, from, to),
        from.y == to.y,
        r >= 0,
        between(x, from.x as int, to.x as int),
    ensures
        covered(path, r, x, from.y as int),
{
    let k = if from.x <= to.x { x - from.x } else { from.x - x };
    assert(0 <= k < path.len());
    assert(path[k].x == x);
    assert(between(path[k].y as int, from.y as int, to.y as int));
    assert(r * r >= 0) by (nonlinear_arith)
        requires
            r >= 0,
    ;
    assert(in_disc(path[k], r, x, from.y as int));
}

} // verus!
