//! The region edit engine: one operation applied to the whole image, or to
//! the part a selection covers and spliced back in place.

use vstd::prelude::*;

use image::{ColorType, DynamicImage};

use crate::errors::AppError;
use crate::pixels::{
    blend, blended, brighten, brightened_samples, color, crop, duplicate, fliph, flipv,
    from_rgba, get_pixel, gray_format, grayscaled, grayscale, height, huerotate, image_format, image_height,
    image_pixels, image_width, in_bounds, invert, inverted_samples, is_conversion,
    is_integer_format, is_window, paste, pixel, put_pixel, rotate270, rotate90, same_outside,
    same_shape, sample_max, to_rgba, to_luma16,
    to_luma8, to_luma_alpha16, to_luma_alpha8, to_rgb16, to_rgb32f, to_rgb8, to_rgba16,
    to_rgba32f, to_rgba8, width,
};
use crate::selection::{min, SelectionRect};

verus! {

/// `img` re-encoded in `target`.
pub fn convert(img: &DynamicImage, target: ColorType) -> (r: DynamicImage)
    ensures
        is_conversion(*img, target, r),
{
    match target {
        ColorType::L8 => to_luma8(img),
        ColorType::L16 => to_luma16(img),
        ColorType::La8 => to_luma_alpha8(img),
        ColorType::La16 => to_luma_alpha16(img),
        ColorType::Rgb8 => to_rgb8(img),
        ColorType::Rgb16 => to_rgb16(img),
        ColorType::Rgb32F => to_rgb32f(img),
        ColorType::Rgba8 => to_rgba8(img),
        ColorType::Rgba16 => to_rgba16(img),
        ColorType::Rgba32F => to_rgba32f(img),
        _ => to_rgba8(img),
    }
}

/// A copy of `img` with its colours inverted.
pub fn inverted(img: &DynamicImage) -> (r: DynamicImage)
    ensures
        same_shape(r, *img),
        is_integer_format(image_format(*img)) ==> forall|x: int, y: int|
            #![trigger image_pixels(r)[(x, y)]]
            in_bounds(*img, x, y) ==> pixel(r, x, y) == inverted_samples(
                image_format(*img),
                pixel(*img, x, y),
            ),
{
    let mut copy = duplicate(img);
    invert(&mut copy);
    copy
}

/// A transform of a whole image, with the settings it runs with.
#[derive(Clone, Copy, Debug, PartialEq, Eq, Structural)]
pub enum Operation {
    /// Luminance only.
    Grayscale,
    /// Each colour sample turned to its complement.
    Invert,
    /// Hue turned by this many degrees.
    HueRotate(i32),
    /// This much added to every colour sample.
    Brighten(i32),
    /// A quarter turn clockwise.
    Rotate90,
    /// A quarter turn counter-clockwise.
    Rotate270,
    /// Mirrored left to right.
    FlipHorizontal,
    /// Mirrored top to bottom.
    FlipVertical,
}

impl Operation {
    /// The operation is meant to leave the image in its encoding, so an edit
    /// re-encodes what the library hands back.
    pub open spec fn keeps_format_spec(&self) -> bool {
        match self {
            Operation::Grayscale | Operation::Invert | Operation::HueRotate(_)
            | Operation::Brighten(_) => true,
            _ => false,
        }
    }

    #[verifier::when_used_as_spec(keeps_format_spec)]
    pub fn keeps_format(&self) -> (r: bool)
        ensures
            r == self.keeps_format_spec(),
    {
        match self {
            Operation::Grayscale | Operation::Invert | Operation::HueRotate(_)
            | Operation::Brighten(_) => true,
            _ => false,
        }
    }

    /// The operation can run on an image in encoding `f`: brightening needs
    /// integer samples and a value that leaves room above the largest sample.
    pub open spec fn runs_on(&self, f: ColorType) -> bool {
        match *self {
            Operation::Brighten(v) => is_integer_format(f) && v + sample_max(f) <= i32::MAX,
            _ => true,
        }
    }

    /// Whether the operation can run on an image in encoding `f`.
    pub fn can_run_on(&self, f: ColorType) -> (r: bool)
        ensures
            r == self.runs_on(f),
    {
        let integer = match f {
            ColorType::Rgb32F | ColorType::Rgba32F => false,
            ColorType::L8 | ColorType::La8 | ColorType::Rgb8 | ColorType::Rgba8 => true,
            ColorType::L16 | ColorType::La16 | ColorType::Rgb16 | ColorType::Rgba16 => true,
            _ => false,
        };
        let max: i32 = match f {
            ColorType::L8 | ColorType::La8 | ColorType::Rgb8 | ColorType::Rgba8 => 255,
            _ => 65535,
        };
        match self {
            Operation::Brighten(v) => integer && *v <= i32::MAX - max,
            _ => true,
        }
    }

    /// What is known of running the operation on `img` and getting `r`: the
    /// size and encoding always; the library's grayscale image itself; and
    /// the samples where the source gives them in a few lines (inversion,
    /// brightening, rotations, flips).
    pub open spec fn gives(self, img: DynamicImage, r: DynamicImage) -> bool {
        let w = image_width(img) as int;
        let h = image_height(img) as int;
        match self {
            Operation::Grayscale => {
                &&& image_width(r) == w
                &&& image_height(r) == h
                &&& image_format(r) == gray_format(image_format(img))
                &&& r == grayscaled(img)
            },
            Operation::Invert => {
                &&& same_shape(r, img)
                &&& is_integer_format(image_format(img)) ==> forall|x: int, y: int|
                    #![trigger image_pixels(r)[(x, y)]]
                    in_bounds(img, x, y) ==> pixel(r, x, y) == inverted_samples(
                        image_format(img),
                        pixel(img, x, y),
                    )
            },
            Operation::HueRotate(_) => same_shape(r, img),
            Operation::Brighten(v) => {
                &&& same_shape(r, img)
                &&& forall|x: int, y: int|
                    #![trigger image_pixels(r)[(x, y)]]
                    in_bounds(img, x, y) ==> pixel(r, x, y) == brightened_samples(
                        image_format(img),
                        pixel(img, x, y),
                        v as int,
                    )
            },
            Operation::Rotate90 => {
                &&& image_width(r) == h
                &&& image_height(r) == w
                &&& image_format(r) == image_format(img)
                &&& forall|x: int, y: int|
                    #![trigger image_pixels(img)[(x, y)]]
                    in_bounds(img, x, y) ==> pixel(r, h - 1 - y, x) == pixel(img, x, y)
            },
            Operation::Rotate270 => {
                &&& image_width(r) == h
                &&& image_height(r) == w
                &&& image_format(r) == image_format(img)
                &&& forall|x: int, y: int|
                    #![trigger image_pixels(img)[(x, y)]]
                    in_bounds(img, x, y) ==> pixel(r, y, w - 1 - x) == pixel(img, x, y)
            },
            Operation::FlipHorizontal => {
                &&& same_shape(r, img)
                &&& forall|x: int, y: int|
                    #![trigger image_pixels(img)[(x, y)]]
                    in_bounds(img, x, y) ==> pixel(r, w - 1 - x, y) == pixel(img, x, y)
            },
            Operation::FlipVertical => {
                &&& same_shape(r, img)
                &&& forall|x: int, y: int|
                    #![trigger image_pixels(img)[(x, y)]]
                    in_bounds(img, x, y) ==> pixel(r, x, h - 1 - y) == pixel(img, x, y)
            },
        }
    }

    /// Runs the operation on `img`.
    pub fn run(&self, img: &DynamicImage) -> (r: DynamicImage)
        requires
            self.runs_on(image_format(*img)),
        ensures
            self.gives(*img, r),
    {
        match self {
            Operation::Grayscale => grayscale(img),
            Operation::Invert => inverted(img),
            Operation::HueRotate(degrees) => huerotate(img, *degrees),
            Operation::Brighten(value) => brighten(img, *value),
            Operation::Rotate90 => rotate90(img),
            Operation::Rotate270 => rotate270(img),
            Operation::FlipHorizontal => fliph(img),
            Operation::FlipVertical => flipv(img),
        }
    }
}

/// The part of an image of `w` × `h` that `sel` covers, as `(x, y, width,
/// height)`: the rectangle cut down to the image.
pub open spec fn region(sel: SelectionRect, w: int, h: int) -> (int, int, int, int) {
    let x = min(sel.left(), w);
    let y = min(sel.top(), h);
    (x, y, min(sel.right(), w) - x, min(sel.bottom(), h) - y)
}

/// The part of an image of `w` × `h` that `sel` covers.
pub fn selection_region(sel: &SelectionRect, w: u32, h: u32) -> (r: (u32, u32, u32, u32))
    ensures
        (r.0 as int, r.1 as int, r.2 as int, r.3 as int) == region(*sel, w as int, h as int),
{
    let x0 = if sel.min_x() <= w { sel.min_x() } else { w };
    let y0 = if sel.min_y() <= h { sel.min_y() } else { h };
    let x1 = if sel.max_x() <= w { sel.max_x() } else { w };
    let y1 = if sel.max_y() <= h { sel.max_y() } else { h };
    (x0, y0, x1 - x0, y1 - y0)
}

/// `after` is what an edit leaves of the operation's output `out`: `out`
/// re-encoded in `f` when the edit keeps the encoding, else `out` itself.
pub open spec fn finished(out: DynamicImage, keep: bool, f: ColorType, after: DynamicImage) -> bool {
    if keep {
        is_conversion(out, f, after)
    } else {
        after == out
    }
}

/// `after` is `before` with `patch` written at `(x, y)`: same size and
/// encoding, the same pixels outside the patch, and inside it, for RGBA8, the
/// patch's pixels.
pub open spec fn pasted(before: DynamicImage, patch: DynamicImage, x: int, y: int, after: DynamicImage) -> bool {
    &&& same_shape(after, before)
    &&& same_outside(before, after, x, y, image_width(patch) as int, image_height(patch) as int)
    &&& forall|i: int, j: int|
        #![trigger image_pixels(patch)[(i, j)]]
        in_bounds(patch, i, j) ==> pixel(after, x + i, y + j) == from_rgba(
            image_format(before),
            to_rgba(image_format(patch), pixel(patch, i, j)),
        )
    &&& image_format(before) == ColorType::Rgba8 && image_format(patch) == ColorType::Rgba8
        ==> forall|i: int, j: int|
        #![trigger image_pixels(patch)[(i, j)]]
        in_bounds(patch, i, j) ==> pixel(after, x + i, y + j) == pixel(patch, i, j)
}

/// One way an edit of the region `(x, y, w, h)` of `before` can go: `part`
/// is that region cut out, `out` what the operation made of it (`gives`
/// relates an operation's input to its output), `patch` the output as kept,
/// and `after` the image with `patch` written back in place when it has the
/// region's size (then `ok`), else `before` unchanged.
pub open spec fn region_step(
    before: DynamicImage,
    x: int,
    y: int,
    w: int,
    h: int,
    keep: bool,
    gives: spec_fn(DynamicImage, DynamicImage) -> bool,
    after: DynamicImage,
    ok: bool,
    part: DynamicImage,
    out: DynamicImage,
    patch: DynamicImage,
) -> bool {
    &&& image_width(part) == w
    &&& image_height(part) == h
    &&& is_window(before, x, y, part)
    &&& gives(part, out)
    &&& finished(out, keep, image_format(before), patch)
    &&& ok == (image_width(patch) == w && image_height(patch) == h)
    &&& ok ==> pasted(before, patch, x, y, after)
    &&& !ok ==> after == before
}

/// An edit of the region `(x, y, w, h)` of `before` gave `after`, and
/// succeeded when `ok`: the operation ran on that part of the image, and its
/// result went back in place if it still had the region's size; otherwise
/// nothing changed.
pub open spec fn region_edited(
    before: DynamicImage,
    x: int,
    y: int,
    w: int,
    h: int,
    keep: bool,
    gives: spec_fn(DynamicImage, DynamicImage) -> bool,
    after: DynamicImage,
    ok: bool,
) -> bool {
    exists|part: DynamicImage, out: DynamicImage, patch: DynamicImage|
        #[trigger] region_step(before, x, y, w, h, keep, gives, after, ok, part, out, patch)
}

/// What applying an operation whose input and output `gives` relates, to
/// `before` under `selection`, leaves: `after`, and whether it succeeded.
pub open spec fn applied(
    before: DynamicImage,
    selection: Option<SelectionRect>,
    keep: bool,
    gives: spec_fn(DynamicImage, DynamicImage) -> bool,
    after: DynamicImage,
    ok: bool,
) -> bool {
    match selection {
        None => ok && exists|out: DynamicImage|
            gives(before, out) && #[trigger] finished(
                out,
                keep,
                image_format(before),
                after,
            ),
        Some(sel) => {
            let (x, y, w, h) = region(sel, image_width(before) as int, image_height(before) as int);
            if w == 0 || h == 0 {
                ok && after == before
            } else {
                region_edited(before, x, y, w, h, keep, gives, after, ok)
            }
        },
    }
}

/// The input-output relation of a closure.
pub open spec fn outputs<F: Fn(&DynamicImage) -> DynamicImage>(op: F) -> spec_fn(DynamicImage, DynamicImage) -> bool {
    |i: DynamicImage, o: DynamicImage| call_ensures(op, (&i,), o)
}

/// Applies `op` to the image, or to the part of it that `selection` covers.
///
/// Without a selection the image becomes the operation's output. With one,
/// the covered part is cut out, `op` runs on it, and the result is written
/// back at the same place; a selection that covers no pixel changes nothing.
/// When `keep_format` holds, the operation's output is first re-encoded in
/// the image's encoding. A result whose size differs from the region's is an
/// error, and then the image is left as it was.
pub fn apply<F: Fn(&DynamicImage) -> DynamicImage>(
    img: &mut DynamicImage,
    selection: Option<SelectionRect>,
    keep_format: bool,
    op: F,
) -> (r: Result<(), AppError>)
    requires
        forall|i: &DynamicImage| call_requires(op, (i,)),
    ensures
        applied(*old(img), selection, keep_format, outputs(op), *final(img), r is Ok),
        r is Err ==> *final(img) == *old(img),
        r matches Err(e) ==> !e.fake(),
        keep_format ==> image_format(*final(img)) == image_format(*old(img)),
        selection is Some ==> same_shape(*final(img), *old(img)),
        selection matches Some(sel) ==> same_outside(
            *old(img),
            *final(img),
            sel.left(),
            sel.top(),
            sel.right() - sel.left(),
            sel.bottom() - sel.top(),
        ),
        selection matches Some(sel) && (sel.left() == sel.right() || sel.top() == sel.bottom())
            ==> r is Ok && *final(img) == *old(img),
{
    let f = color(img);
    match selection {
        None => {
            let ghost before = *img;
            let out = op(img);
            let result = if keep_format {
                convert(&out, f)
            } else {
                out
            };
            assert(outputs(op)(before, out));
            assert(finished(out, keep_format, image_format(before), result));
            *img = result;
            Ok(())
        },
        Some(sel) => {
            let w = width(img);
            let h = height(img);
            let (x, y, rw, rh) = selection_region(&sel, w, h);
            if rw == 0 || rh == 0 {
                return Ok(());
            }
            let part = crop(img, x, y, rw, rh);
            let out = op(&part);
            let patch = if keep_format {
                convert(&out, f)
            } else {
                out
            };
            let ghost before = *img;
            if width(&patch) != rw || height(&patch) != rh {
                proof {
                    assert(region_step(before, x as int, y as int, rw as int, rh as int, keep_format, outputs(op), *img, false, part, out, patch));
                }
                let message = "The edited region no longer has the size of the selection".to_owned();
                return Err(AppError::new(message));
            }
            let pasted_ok = paste(img, &patch, x, y);
            match pasted_ok {
                Ok(()) => {
                    proof {
                        assert(region_step(before, x as int, y as int, rw as int, rh as int, keep_format, outputs(op), *img, true, part, out, patch));
                    }
                    Ok(())
                },
                Err(e) => Err(AppError::from_image_error(&e)),
            }
        },
    }
}

/// Over a selection of the whole image, an edit that keeps the encoding
/// leaves the image in the same encoding as the same edit without a
/// selection; and when the operation keeps the size of what it is given, it
/// succeeds and leaves the same size too.
pub proof fn lemma_whole_selection_keeps_format(
    before: DynamicImage,
    gives: spec_fn(DynamicImage, DynamicImage) -> bool,
    sel: SelectionRect,
    whole: DynamicImage,
    selected: DynamicImage,
    ok: bool,
)
    requires
        sel.left() == 0,
        sel.top() == 0,
        sel.right() == image_width(before),
        sel.bottom() == image_height(before),
        applied(before, None, true, gives, whole, true),
        applied(before, Some(sel), true, gives, selected, ok),
    ensures
        image_format(whole) == image_format(selected),
        image_format(selected) == image_format(before),
        (forall|a: DynamicImage, b: DynamicImage| #[trigger] gives(a, b) ==> same_size(a, b)) ==> {
            &&& ok
            &&& same_size(whole, selected)
            &&& same_size(selected, before)
        },
{
    let out = choose|out: DynamicImage|
        gives(before, out) && #[trigger] finished(
            out,
            true,
            image_format(before),
            whole,
        );
    let (x, y, w, h) = region(sel, image_width(before) as int, image_height(before) as int);
    if w != 0 && h != 0 {
        let (part, out2, patch) = choose|part: DynamicImage, out2: DynamicImage, patch: DynamicImage|
            #[trigger] region_step(before, x, y, w, h, true, gives, selected, ok, part, out2, patch);
        if forall|a: DynamicImage, b: DynamicImage| #[trigger] gives(a, b) ==> same_size(a, b) {
            assert(gives(part, out2));
            assert(gives(before, out));
        }
    } else {
        if forall|a: DynamicImage, b: DynamicImage| #[trigger] gives(a, b) ==> same_size(a, b) {
            assert(gives(before, out));
        }
    }
}

/// An edit described with a relation `p` between an operation's input and
/// output is also described with any relation `q` that `p` implies.
pub proof fn lemma_applied_weaken(
    before: DynamicImage,
    selection: Option<SelectionRect>,
    keep: bool,
    p: spec_fn(DynamicImage, DynamicImage) -> bool,
    q: spec_fn(DynamicImage, DynamicImage) -> bool,
    after: DynamicImage,
    ok: bool,
)
    requires
        forall|a: DynamicImage, b: DynamicImage| #[trigger] p(a, b) ==> q(a, b),
        applied(before, selection, keep, p, after, ok),
    ensures
        applied(before, selection, keep, q, after, ok),
{
    match selection {
        None => {
            let out = choose|out: DynamicImage|
                p(before, out) && #[trigger] finished(out, keep, image_format(before), after);
            assert(q(before, out));
        },
        Some(sel) => {
            let (x, y, w, h) = region(sel, image_width(before) as int, image_height(before) as int);
            if w != 0 && h != 0 {
                let (part, out, patch) = choose|part: DynamicImage, out: DynamicImage, patch: DynamicImage|
                    #[trigger] region_step(before, x, y, w, h, keep, p, after, ok, part, out, patch);
                assert(q(part, out));
                assert(region_step(before, x, y, w, h, keep, q, after, ok, part, out, patch));
            }
        },
    }
}

/// The samples that layering four 8-bit RGBA responses gives in encoding
/// `f`: the first, with the other three blended over it in turn.
pub open spec fn layered(f: ColorType, a: Seq<u8>, b: Seq<u8>, c: Seq<u8>, d: Seq<u8>) -> Seq<int> {
    from_rgba(f, blended(blended(blended(a, b), c), d))
}

/// Pixel `(x, y)` of `img` read as 8-bit RGBA.
pub open spec fn rgba_at(img: DynamicImage, x: int, y: int) -> Seq<u8> {
    to_rgba(image_format(img), pixel(img, x, y))
}

pub open spec fn same_size(a: DynamicImage, b: DynamicImage) -> bool {
    image_width(a) == image_width(b) && image_height(a) == image_height(b)
}

/// Layers four edge responses of `img`, each the size of `img`, into an
/// outline: at every pixel the first response, with the second, third and
/// fourth blended over it in turn, written into a copy of `img`.
pub fn outline(
    img: &DynamicImage,
    first: &DynamicImage,
    second: &DynamicImage,
    third: &DynamicImage,
    fourth: &DynamicImage,
) -> (r: DynamicImage)
    requires
        same_size(*first, *img),
        same_size(*second, *img),
        same_size(*third, *img),
        same_size(*fourth, *img),
    ensures
        same_shape(r, *img),
        forall|x: int, y: int|
            #![trigger image_pixels(r)[(x, y)]]
            in_bounds(*img, x, y) ==> pixel(r, x, y) == layered(
                image_format(*img),
                rgba_at(*first, x, y),
                rgba_at(*second, x, y),
                rgba_at(*third, x, y),
                rgba_at(*fourth, x, y),
            ),
{
    let mut out = duplicate(img);
    let w = width(img);
    let h = height(img);
    let mut y: u32 = 0;
    while y < h
        invariant
            w == image_width(*img),
            h == image_height(*img),
            y <= h,
            same_size(*first, *img),
            same_size(*second, *img),
            same_size(*third, *img),
            same_size(*fourth, *img),
            same_shape(out, *img),
            forall|px: int, py: int|
                #![trigger image_pixels(out)[(px, py)]]
                in_bounds(*img, px, py) && py < y ==> pixel(out, px, py) == layered(
                    image_format(*img),
                    rgba_at(*first, px, py),
                    rgba_at(*second, px, py),
                    rgba_at(*third, px, py),
                    rgba_at(*fourth, px, py),
                ),
        decreases h - y,
    {
        let mut x: u32 = 0;
        while x < w
            invariant
                w == image_width(*img),
                h == image_height(*img),
                y < h,
                x <= w,
                same_size(*first, *img),
                same_size(*second, *img),
                same_size(*third, *img),
                same_size(*fourth, *img),
                same_shape(out, *img),
                forall|px: int, py: int|
                    #![trigger image_pixels(out)[(px, py)]]
                    in_bounds(*img, px, py) && (py < y || (py == y && px < x)) ==> pixel(
                        out,
                        px,
                        py,
                    ) == layered(
                        image_format(*img),
                        rgba_at(*first, px, py),
                        rgba_at(*second, px, py),
                        rgba_at(*third, px, py),
                        rgba_at(*fourth, px, py),
                    ),
            decreases w - x,
        {
            let a = get_pixel(first, x, y);
            let b = get_pixel(second, x, y);
            let c = get_pixel(third, x, y);
            let d = get_pixel(fourth, x, y);
            let p = blend(blend(blend(a, b), c), d);
            put_pixel(&mut out, x, y, p);
            x = x + 1;
        }
        y = y + 1;
    }
    out
}

} // verus!
