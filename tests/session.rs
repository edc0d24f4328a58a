use image::{ColorType, DynamicImage, GenericImageView, Rgba, RgbaImage};
use tarsier::errors::{AppError, ErrorManager};
use tarsier::session::{handle_file_upload, Editor, File, NewImage, SaveFormat, WindowsManager};
use tarsier::selection::{EditMode, PixelPos, PointerEvent, ScreenPos};
use tarsier::edit::{inverted, Operation};

fn pattern(w: u32, h: u32) -> DynamicImage {
    DynamicImage::ImageRgba8(RgbaImage::from_fn(w, h, |x, y| {
        Rgba([(x * 5 % 256) as u8, (y * 11 % 256) as u8, ((x * y) % 256) as u8, 255])
    }))
}

fn drag(e: &mut Editor, x: i64, y: i64) {
    e.on_pointer(PointerEvent::Drag(ScreenPos { x, y }), ScreenPos { x: 0, y: 0 });
}

#[test]
fn png_and_bmp_round_trip_exactly() {
    let img = pattern(17, 9);
    let editor = Editor::new(img.clone());
    for f in [SaveFormat::Png, SaveFormat::Bmp] {
        let bytes = editor.save(f).unwrap();
        let mut other = Editor::new(DynamicImage::new_rgba8(1, 1));
        other.load(&bytes).unwrap();
        assert_eq!(other.img.to_rgba8().as_raw(), img.to_rgba8().as_raw());
        assert_eq!((other.img.width(), other.img.height()), (17, 9));
    }
}

#[test]
fn jpeg_output_decodes() {
    let editor = Editor::new(DynamicImage::ImageRgb8(pattern(20, 10).to_rgb8()));
    let bytes = editor.save(SaveFormat::Jpeg).unwrap();
    let decoded = handle_file_upload(Some(Ok(File { data: bytes }))).unwrap().unwrap();
    assert_eq!((decoded.width(), decoded.height()), (20, 10));
}

#[test]
fn gif_output_decodes() {
    let editor = Editor::new(pattern(6, 4));
    let bytes = editor.save(SaveFormat::Gif).unwrap();
    let mut other = Editor::new(pattern(1, 1));
    assert!(other.load(&bytes).is_ok());
    assert_eq!((other.img.width(), other.img.height()), (6, 4));
}

#[test]
fn garbage_does_not_load() {
    let mut editor = Editor::new(pattern(3, 3));
    let before = editor.img.clone();
    let e = editor.load(&[1, 2, 3, 4, 5]).unwrap_err();
    assert!(!e.is_fake());
    assert_eq!(e.message, "Cannot decode image");
    assert_eq!(editor.img.as_bytes(), before.as_bytes());
}

#[test]
fn edit_consumes_selection_and_marks_texture_stale() {
    let mut editor = Editor::new(pattern(20, 20));
    let before = editor.img.clone();
    editor.texture_stale = false;
    drag(&mut editor, 2, 2);
    drag(&mut editor, 6, 5);
    assert!(editor.cursor_info.selection.is_some());
    let mut errors = ErrorManager::new();
    editor.apply_op(true, |i| inverted(i), &mut errors);
    assert!(errors.errors.is_empty());
    assert!(editor.cursor_info.selection.is_none());
    assert!(editor.texture_stale);
    assert_eq!(editor.img.get_pixel(3, 3).0[0], 255 - before.get_pixel(3, 3).0[0]);
    assert_eq!(editor.img.get_pixel(6, 3), before.get_pixel(6, 3));
}

#[test]
fn failed_region_edit_is_reported() {
    let mut editor = Editor::new(pattern(20, 20));
    let before = editor.img.clone();
    drag(&mut editor, 0, 0);
    drag(&mut editor, 8, 3);
    let mut errors = ErrorManager::new();
    editor.apply_op(false, |i| Operation::Rotate270.run(i), &mut errors);
    assert_eq!(errors.errors.len(), 1);
    assert_eq!(editor.img.as_bytes(), before.as_bytes());
}

#[test]
fn crop_to_selection_and_reset() {
    let mut editor = Editor::new(pattern(30, 20));
    drag(&mut editor, 25, 4);
    drag(&mut editor, 5, 14);
    editor.crop_to_selection();
    assert_eq!((editor.img.width(), editor.img.height()), (20, 10));
    assert_eq!(editor.img.get_pixel(0, 0), editor.saved_img.get_pixel(5, 4));
    assert!(editor.cursor_info.selection.is_none());
    editor.reset();
    assert_eq!((editor.img.width(), editor.img.height()), (30, 20));
}

#[test]
fn crop_without_area_does_nothing() {
    let mut editor = Editor::new(pattern(10, 10));
    drag(&mut editor, 4, 4);
    editor.crop_to_selection();
    assert_eq!((editor.img.width(), editor.img.height()), (10, 10));
    assert!(editor.cursor_info.selection.is_some());
}

#[test]
fn drawing_through_the_session() {
    let mut editor = Editor::new(pattern(10, 10));
    editor.set_mode(EditMode::Drawing);
    editor.pen.radius = 0;
    editor.pen.color = [1, 2, 3, 255];
    drag(&mut editor, 1, 1);
    let path = editor.on_pointer(PointerEvent::Drag(ScreenPos { x: 4, y: 1 }), ScreenPos { x: 0, y: 0 }).unwrap();
    assert_eq!(path.len(), 4);
    for x in 1..=4 {
        assert_eq!(editor.img.get_pixel(x, 1).0, [1, 2, 3, 255]);
    }
    editor.draw_point(PixelPos { x: 8, y: 8 });
    assert_eq!(editor.img.get_pixel(8, 8).0, [1, 2, 3, 255]);
}

#[test]
fn mode_switch_through_the_session() {
    let mut editor = Editor::new(pattern(10, 10));
    drag(&mut editor, 1, 1);
    drag(&mut editor, 5, 5);
    editor.set_mode(EditMode::Drawing);
    assert!(editor.cursor_info.selection.is_none());
    editor.set_mode(EditMode::Selection);
    assert!(editor.cursor_info.selection.is_none());
}

#[test]
fn convert_and_new_image() {
    let mut editor = Editor::new(pattern(4, 4));
    editor.convert_to(ColorType::L16);
    assert_eq!(editor.img.color(), ColorType::L16);
    let settings = NewImage::new();
    assert_eq!((settings.width, settings.height, settings.color_type), (400, 400, ColorType::Rgba16));
    assert!(!settings.is_open);
    let small = NewImage { is_open: true, width: 3, height: 2, color_type: ColorType::La8 };
    editor.new_image(&small);
    assert_eq!((editor.img.width(), editor.img.height(), editor.img.color()), (3, 2, ColorType::La8));
    assert!(editor.img.as_bytes().iter().all(|b| *b == 0));
    assert!(editor.exif.is_none());
}

#[test]
fn upload_outcomes() {
    assert!(matches!(handle_file_upload(None), Ok(None)));
    let fake = handle_file_upload(Some(Err(AppError::new_fake("Upload: no file Selected".to_string()))));
    assert!(fake.unwrap_err().is_fake());
    let bytes = Editor::new(pattern(2, 2)).save(SaveFormat::Png).unwrap();
    let ok = handle_file_upload(Some(Ok(File { data: bytes }))).unwrap().unwrap();
    assert_eq!((ok.width(), ok.height()), (2, 2));
    let bad = handle_file_upload(Some(Ok(File { data: vec![0, 1, 2] })));
    assert!(!bad.unwrap_err().is_fake());
}

#[test]
fn window_toggles_default() {
    let w = WindowsManager::new();
    assert!(w.right_panel && w.selection_window && !w.show_inspection);
}

#[test]
fn apply_operation_on_selection() {
    let mut editor = Editor::new(pattern(12, 12));
    let before = editor.img.clone();
    drag(&mut editor, 2, 3);
    drag(&mut editor, 6, 7);
    let mut errors = ErrorManager::new();
    editor.apply_operation(Operation::FlipHorizontal, &mut errors);
    assert!(errors.errors.is_empty());
    assert_eq!(editor.img.get_pixel(5, 3), before.get_pixel(2, 3));
    assert_eq!(editor.img.get_pixel(7, 3), before.get_pixel(7, 3));
    editor.apply_operation(Operation::Grayscale, &mut errors);
    assert_eq!(editor.img.color(), ColorType::Rgba8);
    let p = editor.img.get_pixel(9, 9).0;
    assert!(p[0] == p[1] && p[1] == p[2]);
}

#[test]
fn new_image_size_limit() {
    let big = NewImage { is_open: true, width: 4000, height: 4000, color_type: ColorType::Rgba32F };
    assert!(big.fits_in_memory());
    let huge = NewImage { is_open: true, width: u32::MAX, height: u32::MAX, color_type: ColorType::Rgba32F };
    assert!(!huge.fits_in_memory());
    let wide = NewImage { is_open: true, width: u32::MAX, height: 1, color_type: ColorType::L8 };
    assert!(wide.fits_in_memory());
}

#[test]
fn brighten_is_refused_on_float_images_and_hue_rotation_is_not() {
    let mut editor = Editor::new(DynamicImage::ImageRgba32F(pattern(4, 4).to_rgba32f()));
    let before = editor.img.clone();
    let mut errors = ErrorManager::new();
    editor.apply_operation(Operation::Brighten(10), &mut errors);
    assert_eq!(errors.errors.len(), 1);
    assert!(!errors.errors[0].is_fake());
    assert_eq!(editor.img.as_bytes(), before.as_bytes());
    editor.apply_operation(Operation::HueRotate(90), &mut errors);
    assert_eq!(errors.errors.len(), 1);
    assert_eq!(editor.img.color(), ColorType::Rgba32F);
    assert_ne!(editor.img.as_bytes(), before.as_bytes());
    editor.apply_operation(Operation::FlipHorizontal, &mut errors);
    assert_eq!(errors.errors.len(), 1);
}

#[test]
fn grayscale_through_the_session_keeps_rgb8() {
    let mut editor = Editor::new(DynamicImage::ImageRgb8(pattern(5, 5).to_rgb8()));
    let mut errors = ErrorManager::new();
    editor.apply_operation(Operation::Grayscale, &mut errors);
    assert_eq!(editor.img.color(), ColorType::Rgb8);
    let expect = DynamicImage::ImageRgb8(pattern(5, 5).to_rgb8()).grayscale().to_rgb8();
    assert_eq!(editor.img.to_rgb8().as_raw(), expect.as_raw());
}

#[test]
fn loading_keeps_the_decoded_image() {
    let original = pattern(7, 5);
    let bytes = Editor::new(original.clone()).save(SaveFormat::Png).unwrap();
    let mut editor = Editor::new(DynamicImage::new_rgba8(1, 1));
    editor.load(&bytes).unwrap();
    assert_eq!(editor.img.to_rgba8().as_raw(), original.to_rgba8().as_raw());
    assert_eq!(editor.saved_img.to_rgba8().as_raw(), original.to_rgba8().as_raw());
    assert!(editor.exif.is_none());
}

#[test]
fn error_defaults() {
    let e = AppError::default();
    assert!(e.message.is_empty());
    assert!(!e.is_fake());
    let m = ErrorManager::default();
    assert!(m.errors.is_empty() && !m.is_open && !m.was_open);
}

#[test]
fn drawing_on_a_16_bit_image() {
    let mut editor = Editor::new(DynamicImage::new_rgba16(6, 6));
    editor.pen.radius = 1;
    editor.pen.color = [255, 0, 0, 255];
    editor.draw_point(PixelPos { x: 2, y: 2 });
    let buf = editor.img.as_rgba16().unwrap();
    assert_eq!(buf.get_pixel(2, 3).0, [65535, 0, 0, 65535]);
    assert_eq!(buf.get_pixel(4, 4).0, [0, 0, 0, 0]);
}
