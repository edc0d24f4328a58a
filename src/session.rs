//! The editing session: the image, its saved copy, the pointer state and the
//! pen, and every change the user can make to them.

use vstd::prelude::*;

use image::{ColorType, DynamicImage, ImageFormat};

use crate::draw::{covered, covered_once, in_disc, is_move_path, painted, painted_along, stamp, stroke, PenSettings};
use crate::edit::{apply, applied, convert, lemma_applied_weaken, outputs, region, Operation};
use crate::errors::{AppError, ErrorManager};
use crate::pixels::{
    color, decoded, decodes, encoding, from_rgba, blank, channel_count, crop, decode, duplicate, encode, height, image_format, image_height,
    image_pixels, image_width, in_bounds, is_conversion, is_window, pixel, same_shape,
    sample_bytes, samples_of, width,
};
use crate::selection::{CursorState, EditMode, PixelPos, PointerEvent, ScreenPos};

verus! {

#[verifier::external_type_specification]
#[verifier::external_body]
pub struct ExExif(exif::Exif);

/// The Exif data that an image file holds, when any parses.
pub uninterp spec fn exif_of(bytes: Seq<u8>) -> Option<exif::Exif>;

/// Relies on `exif::Reader::read_from_container`: the Exif data of an image
/// file, when the file holds any that parses; it depends on the bytes alone.
#[verifier::external_body]
fn read_exif(bytes: &[u8]) -> (r: Option<exif::Exif>)
    ensures
        r == exif_of(bytes@),
{
    exif::Reader::new().read_from_container(&mut std::io::Cursor::new(bytes)).ok()
}

/// The containers an image can be saved in.
#[derive(Clone, Copy, Debug, PartialEq, Eq, Structural)]
pub enum SaveFormat {
    Png,
    Jpeg,
    Bmp,
    Gif,
}

impl SaveFormat {
    /// The `image` crate's name for the container.
    pub open spec fn container(self) -> ImageFormat {
        match self {
            SaveFormat::Png => ImageFormat::Png,
            SaveFormat::Jpeg => ImageFormat::Jpeg,
            SaveFormat::Bmp => ImageFormat::Bmp,
            SaveFormat::Gif => ImageFormat::Gif,
        }
    }

    /// The `image` crate's name for the container.
    pub fn image_format(&self) -> (r: ImageFormat)
        ensures
            r == self.container(),
    {
        match self {
            SaveFormat::Png => ImageFormat::Png,
            SaveFormat::Jpeg => ImageFormat::Jpeg,
            SaveFormat::Bmp => ImageFormat::Bmp,
            SaveFormat::Gif => ImageFormat::Gif,
        }
    }
}

/// Settings for a new blank image.
#[derive(Clone, Copy, Debug)]
pub struct NewImage {
    /// The dialog is open.
    pub is_open: bool,
    /// Width in pixels.
    pub width: u32,
    /// Height in pixels.
    pub height: u32,
    /// Pixel encoding.
    pub color_type: ColorType,
}

impl NewImage {
    /// A closed dialog for a 400 × 400 RGBA16 image.
    pub fn new() -> (r: NewImage)
        ensures
            !r.is_open,
            r.width == 400,
            r.height == 400,
            r.color_type == ColorType::Rgba16,
    {
        NewImage { is_open: false, width: 400, height: 400, color_type: ColorType::Rgba16 }
    }

    /// The buffer of such an image fits in memory's address range.
    pub open spec fn fits(self) -> bool {
        self.width * self.height * channel_count(self.color_type) * sample_bytes(self.color_type)
            <= isize::MAX
    }

    /// Whether the buffer of such an image fits in memory's address range.
    pub fn fits_in_memory(&self) -> (r: bool)
        ensures
            r == self.fits(),
    {
        let per_pixel: u128 = match self.color_type {
            ColorType::L8 => 1,
            ColorType::La8 => 2,
            ColorType::Rgb8 => 3,
            ColorType::Rgba8 => 4,
            ColorType::L16 => 2,
            ColorType::La16 => 4,
            ColorType::Rgb16 => 6,
            ColorType::Rgba16 => 8,
            ColorType::Rgb32F => 12,
            ColorType::Rgba32F => 16,
            _ => 16,
        };
        assert(self.width * self.height <= 0xffff_ffff * 0xffff_ffff) by (nonlinear_arith)
            requires
                0 <= self.width <= 0xffff_ffff,
                0 <= self.height <= 0xffff_ffff,
        ;
        let pixels: u128 = self.width as u128 * self.height as u128;
        assert(pixels * per_pixel <= 0x1_0000_0000_0000_0000 * 16) by (nonlinear_arith)
            requires
                pixels == self.width * self.height,
                0 <= self.width <= 0xffff_ffff,
                0 <= self.height <= 0xffff_ffff,
                per_pixel <= 16,
        ;
        assert(self.width * self.height * channel_count(self.color_type) * sample_bytes(
            self.color_type,
        ) == pixels * per_pixel) by (nonlinear_arith)
            requires
                pixels == self.width * self.height,
                per_pixel == channel_count(self.color_type) * sample_bytes(self.color_type),
        ;
        pixels * per_pixel <= isize::MAX as u128
    }
}

/// Which windows are shown.
#[derive(Clone, Copy, Debug, PartialEq, Eq, Structural)]
pub struct WindowsManager {
    /// Right panel toggle.
    pub right_panel: bool,
    /// Selection window toggle.
    pub selection_window: bool,
    /// Debug and inspection toggle.
    pub show_inspection: bool,
}

impl WindowsManager {
    /// The right panel and the selection window shown, inspection hidden.
    pub fn new() -> (r: WindowsManager)
        ensures
            r.right_panel,
            r.selection_window,
            !r.show_inspection,
    {
        WindowsManager { right_panel: true, selection_window: true, show_inspection: false }
    }
}

/// The bytes of a file the user picked or dropped.
pub struct File {
    /// File data.
    pub data: Vec<u8>,
}

/// The image of a file whose reading has finished: `None` while it has not,
/// the read's error as it came, or the decoded image.
pub fn handle_file_upload(ready: Option<Result<File, AppError>>) -> (r: Result<
    Option<DynamicImage>,
    AppError,
>)
    ensures
        ready is None ==> r == Ok::<Option<DynamicImage>, AppError>(None),
        ready matches Some(Err(e)) ==> r == Err::<Option<DynamicImage>, AppError>(e),
        ready matches Some(Ok(f)) ==> (r is Ok <==> decodes(f.data@)),
        ready matches Some(Ok(f)) ==> (decodes(f.data@) ==> r == Ok::<Option<DynamicImage>, AppError>(
            Some(decoded(f.data@)),
        )),
        ready matches Some(Ok(_)) ==> (r matches Ok(Some(_)) || (r matches Err(e) && !e.fake())),
{
    match ready {
        None => Ok(None),
        Some(Err(e)) => Err(e),
        Some(Ok(file)) => match decode(file.data.as_slice()) {
            Ok(img) => Ok(Some(img)),
            Err(e) => Err(AppError::from_image_error(&e)),
        },
    }
}

/// The image being edited and everything the user has set up around it.
pub struct Editor {
    /// Current image.
    pub img: DynamicImage,
    /// The image as it was loaded, for resets.
    pub saved_img: DynamicImage,
    /// Exif data of the loaded file.
    pub exif: Option<exif::Exif>,
    /// Selection, pen stroke and mode.
    pub cursor_info: CursorState,
    /// The pen.
    pub pen: PenSettings,
    /// The image changed since it was last drawn, so whatever was rendered
    /// from it must be rebuilt.
    pub texture_stale: bool,
}

impl Editor {
    /// A session on `img`, with nothing selected.
    pub fn new(img: DynamicImage) -> (r: Editor)
        ensures
            r.img == img,
            r.saved_img == img,
            r.exif is None,
            r.cursor_info.selection is None,
            r.cursor_info.mode == EditMode::Selection,
            r.texture_stale,
    {
        let saved_img = duplicate(&img);
        Editor {
            img,
            saved_img,
            exif: None,
            cursor_info: CursorState::new(),
            pen: PenSettings::new(),
            texture_stale: true,
        }
    }

    /// After any change of the image: what was rendered from it is stale,
    /// and the selection, which pointed into the old content, is dropped.
    pub fn updated_image(&mut self)
        ensures
            final(self).img == old(self).img,
            final(self).saved_img == old(self).saved_img,
            final(self).cursor_info == (CursorState { selection: None, ..old(self).cursor_info }),
            final(self).texture_stale,
            final(self).pen == old(self).pen,
            final(self).exif == old(self).exif,
    {
        self.texture_stale = true;
        self.cursor_info.clear_selection();
    }

    /// Replaces the image.
    pub fn update_image(&mut self, new_img: DynamicImage)
        ensures
            final(self).img == new_img,
            final(self).saved_img == old(self).saved_img,
            final(self).cursor_info == (CursorState { selection: None, ..old(self).cursor_info }),
            final(self).texture_stale,
            final(self).pen == old(self).pen,
            final(self).exif == old(self).exif,
    {
        self.img = new_img;
        self.updated_image();
    }

    /// Replaces the image and the copy kept for resets with a newly loaded
    /// one; `bytes`, the file it came from, gives the Exif data.
    pub fn update_file(&mut self, new_img: DynamicImage, bytes: Option<&[u8]>)
        ensures
            final(self).img == new_img,
            final(self).saved_img == new_img,
            bytes is None ==> final(self).exif is None,
            bytes matches Some(b) ==> final(self).exif == exif_of(b@),
            final(self).cursor_info == (CursorState { selection: None, ..old(self).cursor_info }),
            final(self).texture_stale,
            final(self).pen == old(self).pen,
    {
        self.saved_img = duplicate(&new_img);
        self.update_image(new_img);
        self.exif = match bytes {
            Some(b) => read_exif(b),
            None => None,
        };
    }

    /// Decodes an image file and edits it from now on. Fails exactly when
    /// the bytes do not decode, and then nothing changes.
    pub fn load(&mut self, bytes: &[u8]) -> (r: Result<(), AppError>)
        ensures
            r is Ok <==> decodes(bytes@),
            r matches Err(e) ==> !e.fake() && e.message@ == "Cannot decode image"@,
            r is Err ==> *final(self) == *old(self),
            r is Ok ==> {
                &&& final(self).img == decoded(bytes@)
                &&& final(self).img == final(self).saved_img
                &&& final(self).exif == exif_of(bytes@)
                &&& final(self).cursor_info == (CursorState { selection: None, ..old(self).cursor_info })
                &&& final(self).texture_stale
                &&& final(self).pen == old(self).pen
            },
    {
        match decode(bytes) {
            Ok(img) => {
                self.update_file(img, Some(bytes));
                Ok(())
            },
            Err(_) => {
                proof {
                    reveal_strlit("Cannot decode image");
                }
                Err(AppError::new("Cannot decode image".to_owned()))
            },
        }
    }

    /// Starts over on a blank image made from `settings`.
    pub fn new_image(&mut self, settings: &NewImage)
        requires
            settings.fits(),
        ensures
            image_width(final(self).img) == settings.width,
            image_height(final(self).img) == settings.height,
            image_format(final(self).img) == settings.color_type,
            final(self).saved_img == final(self).img,
            forall|x: int, y: int|
                #![trigger image_pixels(final(self).img)[(x, y)]]
                in_bounds(final(self).img, x, y) ==> pixel(final(self).img, x, y) == Seq::new(
                    channel_count(settings.color_type),
                    |i: int| 0int,
                ),
            final(self).exif is None,
            final(self).cursor_info == (CursorState { selection: None, ..old(self).cursor_info }),
            final(self).texture_stale,
            final(self).pen == old(self).pen,
    {
        let img = blank(settings.width, settings.height, settings.color_type);
        self.update_file(img, None);
    }

    /// Goes back to the image as it was loaded.
    pub fn reset(&mut self)
        ensures
            final(self).img == old(self).saved_img,
            final(self).saved_img == old(self).saved_img,
            final(self).cursor_info.selection is None,
            final(self).texture_stale,
    {
        let copy = duplicate(&self.saved_img);
        self.update_image(copy);
    }

    /// Re-encodes the whole image in `target`.
    pub fn convert_to(&mut self, target: ColorType)
        ensures
            is_conversion(old(self).img, target, final(self).img),
            final(self).cursor_info.selection is None,
            final(self).texture_stale,
    {
        let converted = convert(&self.img, target);
        self.update_image(converted);
    }

    /// Cuts the image down to the selection. Without a selection, or with one
    /// that covers no pixel, nothing changes.
    pub fn crop_to_selection(&mut self)
        ensures
            match old(self).cursor_info.selection {
                Some(sel) => {
                    let (x, y, w, h) = region(
                        sel,
                        image_width(old(self).img) as int,
                        image_height(old(self).img) as int,
                    );
                    if w == 0 || h == 0 {
                        final(self).img == old(self).img && final(self).cursor_info == old(
                            self,
                        ).cursor_info
                    } else {
                        &&& image_width(final(self).img) == w
                        &&& image_height(final(self).img) == h
                        &&& is_window(old(self).img, x, y, final(self).img)
                        &&& final(self).cursor_info.selection is None
                        &&& final(self).texture_stale
                    }
                },
                None => final(self).img == old(self).img && final(self).cursor_info == old(
                    self,
                ).cursor_info,
            },
    {
        match self.cursor_info.selection {
            Some(sel) => {
                let (x, y, w, h) = crate::edit::selection_region(
                    &sel,
                    width(&self.img),
                    height(&self.img),
                );
                if w == 0 || h == 0 {
                    return;
                }
                let cropped = crop(&self.img, x, y, w, h);
                self.update_image(cropped);
            },
            None => {},
        }
    }

    /// Everything but the image, the selection and the texture flag stays
    /// from `a` to `b`, and the selection is dropped.
    pub open spec fn setup_kept(a: Editor, b: Editor) -> bool {
        &&& b.saved_img == a.saved_img
        &&& b.exif == a.exif
        &&& b.pen == a.pen
        &&& b.cursor_info == (CursorState { selection: None, ..a.cursor_info })
    }

    /// Applies `op` to the image, or to the selected part of it (see
    /// [`apply`]), then drops the selection and marks the texture stale. A
    /// failure appends exactly one real error to `errors` and leaves the
    /// image as it was.
    pub fn apply_op<F: Fn(&DynamicImage) -> DynamicImage>(
        &mut self,
        keep_format: bool,
        op: F,
        errors: &mut ErrorManager,
    )
        requires
            forall|i: &DynamicImage| call_requires(op, (i,)),
        ensures
            applied(
                old(self).img,
                old(self).cursor_info.selection,
                keep_format,
                outputs(op),
                final(self).img,
                final(errors).errors@ == old(errors).errors@,
            ),
            recorded(old(errors).errors@, final(errors).errors@),
            final(errors).is_open == old(errors).is_open,
            final(errors).was_open == old(errors).was_open,
            Editor::setup_kept(*old(self), *final(self)),
            final(self).texture_stale,
    {
        let r = apply(&mut self.img, self.cursor_info.selection, keep_format, op);
        match r {
            Ok(()) => {},
            Err(e) => {
                errors.add_error(e);
                assert(errors.errors@ == old(errors).errors@.push(e));
            },
        }
        self.updated_image();
    }

    /// Applies `op` as [`Editor::apply_op`] does, re-encoding its output in
    /// the image's encoding when the operation is meant to keep it. An
    /// operation that cannot run on the image's encoding changes nothing and
    /// appends one real error.
    pub fn apply_operation(&mut self, op: Operation, errors: &mut ErrorManager)
        ensures
            !op.runs_on(image_format(old(self).img)) ==> {
                &&& *final(self) == *old(self)
                &&& exists|e: AppError| !e.fake() && final(errors).errors@ == old(errors).errors@.push(e)
            },
            op.runs_on(image_format(old(self).img)) ==> {
                &&& applied(
                    old(self).img,
                    old(self).cursor_info.selection,
                    op.keeps_format(),
                    |a: DynamicImage, b: DynamicImage| op.runs_on(image_format(a)) ==> op.gives(a, b),
                    final(self).img,
                    final(errors).errors@ == old(errors).errors@,
                )
                &&& recorded(old(errors).errors@, final(errors).errors@)
                &&& Editor::setup_kept(*old(self), *final(self))
                &&& final(self).texture_stale
            },
            final(errors).is_open == old(errors).is_open,
            final(errors).was_open == old(errors).was_open,
    {
        if !op.can_run_on(color(&self.img)) {
            let e = AppError::new("This operation needs an image with integer samples".to_owned());
            errors.add_error(e);
            assert(errors.errors@ == old(errors).errors@.push(e));
            return;
        }
        let run = |img: &DynamicImage| -> (r: DynamicImage)
            ensures
                op.runs_on(image_format(*img)) ==> op.gives(*img, r),
            {
                if op.can_run_on(color(img)) {
                    op.run(img)
                } else {
                    duplicate(img)
                }
            };
        let ghost before = self.img;
        let ghost sel = self.cursor_info.selection;
        self.apply_op(op.keeps_format(), run, errors);
        proof {
            lemma_applied_weaken(
                before,
                sel,
                op.keeps_format(),
                outputs(run),
                |a: DynamicImage, b: DynamicImage| op.runs_on(image_format(a)) ==> op.gives(a, b),
                self.img,
                errors.errors@ == old(errors).errors@,
            );
        }
    }

    /// Switches what a drag does; entering drawing mode drops the selection.
    pub fn set_mode(&mut self, mode: EditMode)
        ensures
            final(self).cursor_info == old(self).cursor_info.with_mode(mode),
            final(self).img == old(self).img,
    {
        self.cursor_info.set_mode(mode);
    }

    /// Stamps one pen disc at `center`.
    pub fn draw_point(&mut self, center: PixelPos)
        ensures
            same_shape(final(self).img, old(self).img),
            forall|x: int, y: int|
                #![trigger image_pixels(final(self).img)[(x, y)]]
                in_bounds(old(self).img, x, y) && !in_disc(center, old(self).pen.radius as int, x, y)
                    ==> pixel(final(self).img, x, y) == pixel(old(self).img, x, y),
            forall|x: int, y: int|
                #![trigger image_pixels(final(self).img)[(x, y)]]
                in_bounds(old(self).img, x, y) && in_disc(center, old(self).pen.radius as int, x, y)
                    ==> pixel(final(self).img, x, y) == painted(
                    old(self).pen,
                    image_format(old(self).img),
                    pixel(old(self).img, x, y),
                ),
            final(self).pen == old(self).pen,
            final(self).cursor_info.selection is None,
            final(self).texture_stale,
    {
        stamp(&mut self.img, center, &self.pen);
        self.updated_image();
    }

    /// Takes one frame's pointer input over the image shown at `origin`:
    /// the cursor state moves on (see [`CursorState::on_pointer`]), and a pen
    /// move it asks for is painted. Returns the painted path.
    pub fn on_pointer(&mut self, event: PointerEvent, origin: ScreenPos) -> (r: Option<Vec<PixelPos>>)
        ensures
            ({
                let (next, mv) = old(self).cursor_info.next(
                    event,
                    origin,
                    image_width(old(self).img) as u32,
                    image_height(old(self).img) as u32,
                );
                &&& mv is None ==> r is None && final(self).img == old(self).img
                    && final(self).cursor_info == next
                &&& mv matches Some(m) ==> r matches Some(path) && is_move_path(path@, m)
                    && final(self).cursor_info == (CursorState { selection: None, ..next })
                    && final(self).texture_stale
            }),
            r matches Some(path) ==> {
                &&& same_shape(final(self).img, old(self).img)
                &&& forall|x: int, y: int|
                    #![trigger image_pixels(final(self).img)[(x, y)]]
                    in_bounds(old(self).img, x, y) && !covered(path@, old(self).pen.radius as int, x, y)
                        ==> pixel(final(self).img, x, y) == pixel(old(self).img, x, y)
                &&& !old(self).pen.blend ==> forall|x: int, y: int|
                    #![trigger image_pixels(final(self).img)[(x, y)]]
                    in_bounds(old(self).img, x, y) && covered(path@, old(self).pen.radius as int, x, y)
                        ==> pixel(final(self).img, x, y) == from_rgba(image_format(old(self).img), old(self).pen.color@)
                &&& forall|x: int, y: int|
                    #![trigger image_pixels(final(self).img)[(x, y)]]
                    in_bounds(old(self).img, x, y) ==> pixel(final(self).img, x, y) == painted_along(
                        old(self).pen,
                        image_format(old(self).img),
                        path@,
                        x,
                        y,
                        pixel(old(self).img, x, y),
                    )
                &&& forall|x: int, y: int|
                    #![trigger image_pixels(final(self).img)[(x, y)]]
                    in_bounds(old(self).img, x, y) && covered_once(path@, old(self).pen.radius as int, x, y)
                        ==> pixel(final(self).img, x, y) == painted(
                        old(self).pen,
                        image_format(old(self).img),
                        pixel(old(self).img, x, y),
                    )
            },
            final(self).pen == old(self).pen,
    {
        let w = width(&self.img);
        let h = height(&self.img);
        match self.cursor_info.on_pointer(event, origin, w, h) {
            Some(mv) => {
                let path = stroke(&mut self.img, mv, &self.pen);
                self.updated_image();
                Some(path)
            },
            None => None,
        }
    }

    /// The image encoded in `format`; fails exactly when the encoder
    /// refuses it.
    pub fn save(&self, format: SaveFormat) -> (r: Result<Vec<u8>, AppError>)
        ensures
            r is Ok <==> encoding(self.img, format.container()) is Some,
            r matches Ok(b) ==> encoding(self.img, format.container()) == Some(b@),
            r matches Err(e) ==> !e.fake(),
    {
        match encode(&self.img, format.image_format()) {
            Ok(bytes) => Ok(bytes),
            Err(e) => Err(AppError::from_image_error(&e)),
        }
    }
}

/// A list of errors after an edit: unchanged, or with exactly one more real
/// error at its end.
pub open spec fn recorded(before: Seq<AppError>, after: Seq<AppError>) -> bool {
    after == before || exists|e: AppError| !e.fake() && after == before.push(e)
}

} // verus!
