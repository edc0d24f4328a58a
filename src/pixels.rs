//! The image buffer of the `image` crate, seen through a model of its contents.
//!
//! An image is described by its width, its height, its pixel encoding and the
//! samples of each pixel. Every call into the crate that the editing logic makes
//! stands here, with what it does stated over that model.

use vstd::prelude::*;

use image::{ColorType, DynamicImage, ImageError, ImageFormat};

verus! {

#[verifier::external_type_specification]
#[verifier::external_body]
pub struct ExDynamicImage(DynamicImage);

#[verifier::external_type_specification]
#[verifier::external_body]
pub struct ExImageError(ImageError);

#[verifier::external_type_specification]
pub struct ExColorType(ColorType);

#[verifier::external_type_specification]
pub struct ExImageFormat(ImageFormat);

/// Width in pixels of an image buffer.
pub uninterp spec fn image_width(img: DynamicImage) -> nat;

/// Height in pixels of an image buffer.
pub uninterp spec fn image_height(img: DynamicImage) -> nat;

/// Pixel encoding of an image buffer.
pub uninterp spec fn image_format(img: DynamicImage) -> ColorType;

/// The channel samples of each pixel, keyed by `(x, y)`; integer samples as
/// their value, floating-point samples as their bit pattern.
pub uninterp spec fn image_pixels(img: DynamicImage) -> Map<(int, int), Seq<int>>;

/// Source-over alpha compositing of one 8-bit RGBA pixel onto another.
pub uninterp spec fn blended(under: Seq<u8>, over: Seq<u8>) -> Seq<u8>;

/// A pixel of encoding `f` with these samples, read as 8-bit RGBA.
pub uninterp spec fn to_rgba(f: ColorType, samples: Seq<int>) -> Seq<u8>;

/// The samples that an 8-bit RGBA value becomes when stored in encoding `f`.
pub uninterp spec fn from_rgba(f: ColorType, rgba: Seq<u8>) -> Seq<int>;

/// The bytes of an image encoded in a container format, or `None` when the
/// encoder refuses it.
pub uninterp spec fn encoding(img: DynamicImage, format: ImageFormat) -> Option<Seq<u8>>;

/// The bytes hold an image file that the decoders recognise and read.
pub uninterp spec fn decodes(bytes: Seq<u8>) -> bool;

/// The image that the decoders read from the bytes, when they decode.
pub uninterp spec fn decoded(bytes: Seq<u8>) -> DynamicImage;

/// What `DynamicImage::grayscale` makes of an image.
pub uninterp spec fn grayscaled(img: DynamicImage) -> DynamicImage;

/// An image converted to encoding `f` by the `DynamicImage::to_*` method for it.
pub uninterp spec fn converted(img: DynamicImage, f: ColorType) -> DynamicImage;

pub open spec fn in_bounds(img: DynamicImage, x: int, y: int) -> bool {
    0 <= x < image_width(img) && 0 <= y < image_height(img)
}

/// The samples of the pixel at `(x, y)`.
pub open spec fn pixel(img: DynamicImage, x: int, y: int) -> Seq<int> {
    image_pixels(img)[(x, y)]
}

/// An 8-bit RGBA value as a sequence of samples.
pub open spec fn samples_of(p: Seq<u8>) -> Seq<int> {
    p.map_values(|v: u8| v as int)
}

pub open spec fn channel_count(f: ColorType) -> nat {
    match f {
        ColorType::L8 | ColorType::L16 => 1,
        ColorType::La8 | ColorType::La16 => 2,
        ColorType::Rgb8 | ColorType::Rgb16 | ColorType::Rgb32F => 3,
        _ => 4,
    }
}

pub open spec fn sample_bytes(f: ColorType) -> nat {
    match f {
        ColorType::L8 | ColorType::La8 | ColorType::Rgb8 | ColorType::Rgba8 => 1,
        ColorType::L16 | ColorType::La16 | ColorType::Rgb16 | ColorType::Rgba16 => 2,
        _ => 4,
    }
}

pub open spec fn has_alpha(f: ColorType) -> bool {
    match f {
        ColorType::La8 | ColorType::Rgba8 | ColorType::La16 | ColorType::Rgba16
        | ColorType::Rgba32F => true,
        _ => false,
    }
}

/// The encodings whose samples are integers.
pub open spec fn is_integer_format(f: ColorType) -> bool {
    sample_bytes(f) != 4
}

/// Largest value of one sample in an integer encoding.
pub open spec fn sample_max(f: ColorType) -> int {
    if sample_bytes(f) == 1 {
        255
    } else {
        65535
    }
}

/// What inverting does to one pixel: each colour sample `s` becomes
/// `max - s`, the alpha sample stays.
pub open spec fn inverted_samples(f: ColorType, p: Seq<int>) -> Seq<int> {
    Seq::new(
        p.len(),
        |i: int|
            if has_alpha(f) && i == p.len() - 1 {
                p[i]
            } else {
                sample_max(f) - p[i]
            },
    )
}

/// What brightening does to one pixel: each colour sample `s` becomes
/// `s + value` held inside `[0, max]`, the alpha sample stays.
pub open spec fn brightened_samples(f: ColorType, p: Seq<int>, value: int) -> Seq<int> {
    Seq::new(
        p.len(),
        |i: int|
            if has_alpha(f) && i == p.len() - 1 {
                p[i]
            } else if p[i] + value < 0 {
                0
            } else if p[i] + value > sample_max(f) {
                sample_max(f)
            } else {
                p[i] + value
            },
    )
}

/// The encoding that `DynamicImage::grayscale` gives for each encoding.
pub open spec fn gray_format(f: ColorType) -> ColorType {
    match f {
        ColorType::L8 | ColorType::Rgb8 => ColorType::L8,
        ColorType::La8 | ColorType::Rgba8 => ColorType::La8,
        ColorType::L16 | ColorType::Rgb16 => ColorType::L16,
        ColorType::La16 | ColorType::Rgba16 => ColorType::La16,
        _ => f,
    }
}

/// Same width, height and encoding.
pub open spec fn same_shape(a: DynamicImage, b: DynamicImage) -> bool {
    &&& image_width(a) == image_width(b)
    &&& image_height(a) == image_height(b)
    &&& image_format(a) == image_format(b)
}

/// `dst` holds, pixel for pixel, the part of `src` whose top-left corner is
/// `(x, y)`, in the same encoding.
pub open spec fn is_window(src: DynamicImage, x: int, y: int, dst: DynamicImage) -> bool {
    &&& 0 <= x
    &&& 0 <= y
    &&& x + image_width(dst) <= image_width(src)
    &&& y + image_height(dst) <= image_height(src)
    &&& image_format(dst) == image_format(src)
    &&& forall|i: int, j: int|
        #![trigger image_pixels(dst)[(i, j)]]
        in_bounds(dst, i, j) ==> pixel(dst, i, j) == pixel(src, x + i, y + j)
}

/// `dst` is `src` converted to encoding `f`: the library's conversion, of the
/// same size, and `src` itself when it was already in that encoding.
pub open spec fn is_conversion(src: DynamicImage, f: ColorType, dst: DynamicImage) -> bool {
    &&& dst == converted(src, f)
    &&& image_format(src) == f ==> dst == src
    &&& image_width(dst) == image_width(src)
    &&& image_height(dst) == image_height(src)
    &&& image_format(dst) == f
    &&& image_format(src) == f ==> image_pixels(dst) == image_pixels(src)
}

/// Every pixel of `b` outside the rectangle `[x, x + w) × [y, y + h)` equals
/// the one of `a` at the same place.
pub open spec fn same_outside(a: DynamicImage, b: DynamicImage, x: int, y: int, w: int, h: int) -> bool {
    forall|px: int, py: int|
        #![trigger image_pixels(b)[(px, py)]]
        in_bounds(a, px, py) && !(x <= px < x + w && y <= py < y + h) ==> pixel(b, px, py)
            == pixel(a, px, py)
}

/// `v` moved into `[0, limit]` from above.
pub open spec fn clamp_start(v: int, limit: int) -> int {
    if v <= limit {
        v
    } else {
        limit
    }
}

/// A length cut down to what is `left`.
pub open spec fn clamp_len(v: int, left: int) -> int {
    if v <= left {
        v
    } else {
        left
    }
}

/// Relies on `DynamicImage::width`.
#[verifier::external_body]
pub(crate) fn width(img: &DynamicImage) -> (r: u32)
    ensures
        r == image_width(*img),
{
    img.width()
}

/// Relies on `DynamicImage::height`.
#[verifier::external_body]
pub(crate) fn height(img: &DynamicImage) -> (r: u32)
    ensures
        r == image_height(*img),
{
    img.height()
}

/// Relies on `DynamicImage::color`: the encoding of the buffer.
#[verifier::external_body]
pub(crate) fn color(img: &DynamicImage) -> (r: ColorType)
    ensures
        r == image_format(*img),
{
    img.color()
}

/// Relies on `DynamicImage::new`: a zero-filled buffer of the given size and
/// encoding. Its allocation must fit in `isize`.
#[verifier::external_body]
pub(crate) fn blank(w: u32, h: u32, f: ColorType) -> (r: DynamicImage)
    requires
        w * h * channel_count(f) * sample_bytes(f) <= isize::MAX,
    ensures
        image_width(r) == w,
        image_height(r) == h,
        image_format(r) == f,
        forall|x: int, y: int|
            #![trigger image_pixels(r)[(x, y)]]
            in_bounds(r, x, y) ==> pixel(r, x, y) == Seq::new(channel_count(f), |i: int| 0int),
{
    DynamicImage::new(w, h, f)
}

/// Relies on `Clone` for `DynamicImage`: an equal buffer.
#[verifier::external_body]
pub(crate) fn duplicate(img: &DynamicImage) -> (r: DynamicImage)
    ensures
        r == *img,
{
    img.clone()
}

/// Relies on `DynamicImage::crop_imm`: the corner is first clamped into the
/// image, then the size into what is left of it.
#[verifier::external_body]
pub(crate) fn crop(img: &DynamicImage, x: u32, y: u32, w: u32, h: u32) -> (r: DynamicImage)
    ensures
        image_width(r) == clamp_len(w as int, image_width(*img) - clamp_start(x as int, image_width(*img) as int)),
        image_height(r) == clamp_len(h as int, image_height(*img) - clamp_start(y as int, image_height(*img) as int)),
        is_window(*img, clamp_start(x as int, image_width(*img) as int), clamp_start(y as int, image_height(*img) as int), r),
{
    img.crop_imm(x, y, w, h)
}

/// Relies on `GenericImage::copy_from` for `DynamicImage`: it fails, and
/// changes nothing, unless `patch` fits inside at `(x, y)`; else it reads each
/// pixel of `patch` as 8-bit RGBA, stores it at its place, and leaves the rest.
#[verifier::external_body]
pub(crate) fn paste(img: &mut DynamicImage, patch: &DynamicImage, x: u32, y: u32) -> (r: Result<(), ImageError>)
    ensures
        r is Ok <==> (x + image_width(*patch) <= image_width(*old(img)) && y + image_height(*patch)
            <= image_height(*old(img))),
        r is Err ==> *final(img) == *old(img),
        r is Ok ==> {
            &&& same_shape(*final(img), *old(img))
            &&& same_outside(
                *old(img),
                *final(img),
                x as int,
                y as int,
                image_width(*patch) as int,
                image_height(*patch) as int,
            )
            &&& forall|i: int, j: int|
                #![trigger image_pixels(*patch)[(i, j)]]
                in_bounds(*patch, i, j) ==> pixel(*final(img), x + i, y + j) == from_rgba(
                    image_format(*old(img)),
                    to_rgba(image_format(*patch), pixel(*patch, i, j)),
                )
            &&& image_format(*old(img)) == ColorType::Rgba8 && image_format(*patch)
                == ColorType::Rgba8 ==> forall|i: int, j: int|
                #![trigger image_pixels(*patch)[(i, j)]]
                in_bounds(*patch, i, j) ==> pixel(*final(img), x + i, y + j) == pixel(
                    *patch,
                    i,
                    j,
                )
        },
{
    image::GenericImage::copy_from(img, patch, x, y)
}

/// Relies on `DynamicImage::invert`: in the integer encodings each colour
/// sample `s` becomes `max - s` and alpha stays.
#[verifier::external_body]
pub(crate) fn invert(img: &mut DynamicImage)
    ensures
        same_shape(*final(img), *old(img)),
        is_integer_format(image_format(*old(img))) ==> forall|x: int, y: int|
            #![trigger image_pixels(*final(img))[(x, y)]]
            in_bounds(*old(img), x, y) ==> pixel(*final(img), x, y) == inverted_samples(
                image_format(*old(img)),
                pixel(*old(img), x, y),
            ),
{
    img.invert()
}

/// Relies on `DynamicImage::grayscale`: same size, a luminance encoding for
/// the integer ones, and a plain copy of a luminance buffer.
#[verifier::external_body]
pub(crate) fn grayscale(img: &DynamicImage) -> (r: DynamicImage)
    ensures
        r == grayscaled(*img),
        image_width(r) == image_width(*img),
        image_height(r) == image_height(*img),
        image_format(r) == gray_format(image_format(*img)),
        image_format(*img) == ColorType::L8 || image_format(*img) == ColorType::L16 ==> r == *img,
{
    img.grayscale()
}

/// Relies on `DynamicImage::brighten`: each colour sample `s` becomes `s +
/// value` held inside the encoding's range, alpha stays. It adds in `i32`
/// and converts each sample to `i32` with a panic on failure, so the value
/// must leave room above the largest sample and the encoding must hold
/// integers.
#[verifier::external_body]
pub(crate) fn brighten(img: &DynamicImage, value: i32) -> (r: DynamicImage)
    requires
        is_integer_format(image_format(*img)),
        value + sample_max(image_format(*img)) <= i32::MAX,
    ensures
        same_shape(r, *img),
        forall|x: int, y: int|
            #![trigger image_pixels(r)[(x, y)]]
            in_bounds(*img, x, y) ==> pixel(r, x, y) == brightened_samples(
                image_format(*img),
                pixel(*img, x, y),
                value as int,
            ),
{
    img.brighten(value)
}

/// Relies on `DynamicImage::huerotate`: same size and encoding. The samples
/// come from `f64` sine and cosine, whose precision std documents as varying
/// by platform and even between calls, so they are left unnamed.
#[verifier::external_body]
pub(crate) fn huerotate(img: &DynamicImage, degrees: i32) -> (r: DynamicImage)
    ensures
        same_shape(r, *img),
{
    img.huerotate(degrees)
}

/// Relies on `DynamicImage::rotate90`: pixel `(x, y)` moves to `(h - 1 - y, x)`.
#[verifier::external_body]
pub(crate) fn rotate90(img: &DynamicImage) -> (r: DynamicImage)
    ensures
        image_width(r) == image_height(*img),
        image_height(r) == image_width(*img),
        image_format(r) == image_format(*img),
        forall|x: int, y: int|
            #![trigger image_pixels(*img)[(x, y)]]
            in_bounds(*img, x, y) ==> pixel(r, image_height(*img) - 1 - y, x) == pixel(*img, x, y),
{
    img.rotate90()
}

/// Relies on `DynamicImage::rotate270`: pixel `(x, y)` moves to `(y, w - 1 - x)`.
#[verifier::external_body]
pub(crate) fn rotate270(img: &DynamicImage) -> (r: DynamicImage)
    ensures
        image_width(r) == image_height(*img),
        image_height(r) == image_width(*img),
        image_format(r) == image_format(*img),
        forall|x: int, y: int|
            #![trigger image_pixels(*img)[(x, y)]]
            in_bounds(*img, x, y) ==> pixel(r, y, image_width(*img) - 1 - x) == pixel(*img, x, y),
{
    img.rotate270()
}

/// Relies on `DynamicImage::fliph`: pixel `(x, y)` moves to `(w - 1 - x, y)`.
#[verifier::external_body]
pub(crate) fn fliph(img: &DynamicImage) -> (r: DynamicImage)
    ensures
        same_shape(r, *img),
        forall|x: int, y: int|
            #![trigger image_pixels(*img)[(x, y)]]
            in_bounds(*img, x, y) ==> pixel(r, image_width(*img) - 1 - x, y) == pixel(*img, x, y),
{
    img.fliph()
}

/// Relies on `DynamicImage::flipv`: pixel `(x, y)` moves to `(x, h - 1 - y)`.
#[verifier::external_body]
pub(crate) fn flipv(img: &DynamicImage) -> (r: DynamicImage)
    ensures
        same_shape(r, *img),
        forall|x: int, y: int|
            #![trigger image_pixels(*img)[(x, y)]]
            in_bounds(*img, x, y) ==> pixel(r, x, image_height(*img) - 1 - y) == pixel(*img, x, y),
{
    img.flipv()
}

/// Relies on `DynamicImage::to_luma8`.
#[verifier::external_body]
pub(crate) fn to_luma8(img: &DynamicImage) -> (r: DynamicImage)
    ensures
        r == converted(*img, ColorType::L8),
        is_conversion(*img, ColorType::L8, r),
{
    img.to_luma8().into()
}

/// Relies on `DynamicImage::to_luma16`.
#[verifier::external_body]
pub(crate) fn to_luma16(img: &DynamicImage) -> (r: DynamicImage)
    ensures
        r == converted(*img, ColorType::L16),
        is_conversion(*img, ColorType::L16, r),
{
    img.to_luma16().into()
}

/// Relies on `DynamicImage::to_luma_alpha8`.
#[verifier::external_body]
pub(crate) fn to_luma_alpha8(img: &DynamicImage) -> (r: DynamicImage)
    ensures
        r == converted(*img, ColorType::La8),
        is_conversion(*img, ColorType::La8, r),
{
    img.to_luma_alpha8().into()
}

/// Relies on `DynamicImage::to_luma_alpha16`.
#[verifier::external_body]
pub(crate) fn to_luma_alpha16(img: &DynamicImage) -> (r: DynamicImage)
    ensures
        r == converted(*img, ColorType::La16),
        is_conversion(*img, ColorType::La16, r),
{
    img.to_luma_alpha16().into()
}

/// Relies on `DynamicImage::to_rgb8`.
#[verifier::external_body]
pub(crate) fn to_rgb8(img: &DynamicImage) -> (r: DynamicImage)
    ensures
        r == converted(*img, ColorType::Rgb8),
        is_conversion(*img, ColorType::Rgb8, r),
{
    img.to_rgb8().into()
}

/// Relies on `DynamicImage::to_rgb16`.
#[verifier::external_body]
pub(crate) fn to_rgb16(img: &DynamicImage) -> (r: DynamicImage)
    ensures
        r == converted(*img, ColorType::Rgb16),
        is_conversion(*img, ColorType::Rgb16, r),
{
    img.to_rgb16().into()
}

/// Relies on `DynamicImage::to_rgb32f`.
#[verifier::external_body]
pub(crate) fn to_rgb32f(img: &DynamicImage) -> (r: DynamicImage)
    ensures
        r == converted(*img, ColorType::Rgb32F),
        is_conversion(*img, ColorType::Rgb32F, r),
{
    img.to_rgb32f().into()
}

/// Relies on `DynamicImage::to_rgba8`.
#[verifier::external_body]
pub(crate) fn to_rgba8(img: &DynamicImage) -> (r: DynamicImage)
    ensures
        r == converted(*img, ColorType::Rgba8),
        is_conversion(*img, ColorType::Rgba8, r),
{
    img.to_rgba8().into()
}

/// Relies on `DynamicImage::to_rgba16`.
#[verifier::external_body]
pub(crate) fn to_rgba16(img: &DynamicImage) -> (r: DynamicImage)
    ensures
        r == converted(*img, ColorType::Rgba16),
        is_conversion(*img, ColorType::Rgba16, r),
{
    img.to_rgba16().into()
}

/// Relies on `DynamicImage::to_rgba32f`.
#[verifier::external_body]
pub(crate) fn to_rgba32f(img: &DynamicImage) -> (r: DynamicImage)
    ensures
        r == converted(*img, ColorType::Rgba32F),
        is_conversion(*img, ColorType::Rgba32F, r),
{
    img.to_rgba32f().into()
}

/// Relies on `GenericImageView::get_pixel` for `DynamicImage`, which panics
/// outside the image: the pixel as 8-bit RGBA, exact for an RGBA8 buffer.
#[verifier::external_body]
pub(crate) fn get_pixel(img: &DynamicImage, x: u32, y: u32) -> (r: [u8; 4])
    requires
        in_bounds(*img, x as int, y as int),
    ensures
        r@ == to_rgba(image_format(*img), pixel(*img, x as int, y as int)),
        image_format(*img) == ColorType::Rgba8 ==> samples_of(r@) == pixel(*img, x as int, y as int),
{
    image::GenericImageView::get_pixel(img, x, y).0
}

/// Relies on `GenericImage::put_pixel` for `DynamicImage`, which panics
/// outside the image: only pixel `(x, y)` changes, to `p` stored in the
/// buffer's encoding (exactly `p` in an RGBA8 buffer).
#[verifier::external_body]
pub(crate) fn put_pixel(img: &mut DynamicImage, x: u32, y: u32, p: [u8; 4])
    requires
        in_bounds(*old(img), x as int, y as int),
    ensures
        same_shape(*final(img), *old(img)),
        same_outside(*old(img), *final(img), x as int, y as int, 1, 1),
        pixel(*final(img), x as int, y as int) == from_rgba(image_format(*old(img)), p@),
        image_format(*old(img)) == ColorType::Rgba8 ==> pixel(*final(img), x as int, y as int)
            == samples_of(p@),
{
    image::GenericImage::put_pixel(img, x, y, image::Rgba(p))
}

/// Relies on `Rgba::<u8>::blend`: an opaque top pixel replaces the one below,
/// a fully transparent one leaves it as it was.
#[verifier::external_body]
pub(crate) fn blend(under: [u8; 4], over: [u8; 4]) -> (r: [u8; 4])
    ensures
        r@ == blended(under@, over@),
        over[3] == 0 ==> r@ == under@,
        over[3] == 255 ==> r@ == over@,
{
    let mut p = image::Rgba(under);
    image::Pixel::blend(&mut p, &image::Rgba(over));
    p.0
}

/// Relies on `DynamicImage::write_to` into an in-memory buffer: the image
/// encoded in `format`, or the encoder's error. The bytes depend on the image
/// and the format alone.
#[verifier::external_body]
pub(crate) fn encode(img: &DynamicImage, format: ImageFormat) -> (r: Result<Vec<u8>, ImageError>)
    ensures
        r is Ok <==> encoding(*img, format) is Some,
        r matches Ok(b) ==> encoding(*img, format) == Some(b@),
{
    let mut bytes: Vec<u8> = Vec::new();
    img.write_to(std::io::Cursor::new(&mut bytes), format).map(|_| bytes)
}

/// Relies on `image::load_from_memory`: the container format is guessed
/// from the bytes, then decoded; whether that succeeds depends on the bytes
/// alone.
#[verifier::external_body]
pub(crate) fn decode(bytes: &[u8]) -> (r: Result<DynamicImage, ImageError>)
    ensures
        r is Ok <==> decodes(bytes@),
        r matches Ok(i) ==> i == decoded(bytes@),
{
    image::load_from_memory(bytes)
}

/// Relies on `Display` for `ImageError`: the message of the error.
#[verifier::external_body]
pub(crate) fn error_text(e: &ImageError) -> (r: String)
{
    e.to_string()
}

} // verus!
