use image::{ColorType, DynamicImage, GenericImageView, Rgba, RgbaImage};
use tarsier::edit::{apply, convert, inverted, outline, selection_region, Operation};
use tarsier::selection::{PixelPos, SelectionRect};

fn pattern(w: u32, h: u32) -> DynamicImage {
    DynamicImage::ImageRgba8(RgbaImage::from_fn(w, h, |x, y| {
        Rgba([(x * 7 % 256) as u8, (y * 13 % 256) as u8, ((x + y) % 256) as u8, 200])
    }))
}

fn rect(x0: u32, y0: u32, x1: u32, y1: u32) -> SelectionRect {
    SelectionRect::from_two_pos(PixelPos { x: x0, y: y0 }, PixelPos { x: x1, y: y1 })
}

#[test]
fn invert_inside_selection_only() {
    let before = pattern(100, 100);
    let mut img = before.clone();
    let r = apply(&mut img, Some(rect(10, 10, 30, 30)), true, |i| inverted(i));
    assert!(r.is_ok());
    assert_eq!(img.color(), ColorType::Rgba8);
    for y in 0..100 {
        for x in 0..100 {
            let old = before.get_pixel(x, y).0;
            let new = img.get_pixel(x, y).0;
            if (10..30).contains(&x) && (10..30).contains(&y) {
                assert_eq!(new, [255 - old[0], 255 - old[1], 255 - old[2], old[3]]);
            } else {
                assert_eq!(new, old);
            }
        }
    }
}

#[test]
fn corners_given_in_reverse_select_the_same_region() {
    let before = pattern(40, 40);
    let mut a = before.clone();
    let mut b = before.clone();
    apply(&mut a, Some(rect(5, 6, 20, 25)), true, |i| inverted(i)).unwrap();
    apply(&mut b, Some(rect(20, 25, 5, 6)), true, |i| inverted(i)).unwrap();
    assert_eq!(a.as_bytes(), b.as_bytes());
}

#[test]
fn zero_area_selection_changes_nothing() {
    let before = pattern(30, 20);
    for sel in [rect(5, 5, 5, 15), rect(3, 8, 20, 8), rect(7, 7, 7, 7), rect(40, 40, 50, 50)] {
        let mut img = before.clone();
        let r = apply(&mut img, Some(sel), true, |i| inverted(i));
        assert!(r.is_ok());
        assert_eq!(img.as_bytes(), before.as_bytes());
    }
}

#[test]
fn outside_pixels_untouched_by_blur_of_region() {
    let before = pattern(50, 40);
    let mut img = before.clone();
    apply(&mut img, Some(rect(12, 8, 33, 27)), true, |i| i.blur(2.5)).unwrap();
    for y in 0..40 {
        for x in 0..50 {
            if !((12..33).contains(&x) && (8..27).contains(&y)) {
                assert_eq!(img.get_pixel(x, y), before.get_pixel(x, y));
            }
        }
    }
}

#[test]
fn grayscale_keeps_format_with_whole_selection_or_none() {
    let before = pattern(16, 12);
    let mut whole = before.clone();
    let mut selected = before.clone();
    apply(&mut whole, None, true, |i| Operation::Grayscale.run(i)).unwrap();
    apply(&mut selected, Some(rect(0, 0, 16, 12)), true, |i| Operation::Grayscale.run(i)).unwrap();
    assert_eq!(whole.color(), ColorType::Rgba8);
    assert_eq!(selected.color(), whole.color());
    assert_eq!(whole.as_bytes(), selected.as_bytes());
}

#[test]
fn grayscale_without_keeping_format_narrows_whole_image() {
    let mut img = pattern(8, 8);
    apply(&mut img, None, false, |i| Operation::Grayscale.run(i)).unwrap();
    assert_eq!(img.color(), ColorType::La8);
}

#[test]
fn rotating_a_non_square_region_is_an_error_and_changes_nothing() {
    let before = pattern(30, 30);
    let mut img = before.clone();
    let r = apply(&mut img, Some(rect(2, 2, 12, 7)), false, |i| Operation::Rotate90.run(i));
    let e = r.unwrap_err();
    assert!(!e.is_fake());
    assert_eq!(img.as_bytes(), before.as_bytes());
}

#[test]
fn rotating_a_square_region_works() {
    let before = pattern(30, 30);
    let mut img = before.clone();
    apply(&mut img, Some(rect(4, 4, 14, 14)), false, |i| Operation::Rotate90.run(i)).unwrap();
    // pixel (x, y) of the region moves to (h - 1 - y, x)
    assert_eq!(img.get_pixel(4 + 9 - 0, 4 + 3), before.get_pixel(4 + 3, 4));
}

#[test]
fn region_is_cut_to_the_image() {
    assert_eq!(selection_region(&rect(5, 6, 50, 60), 20, 30), (5, 6, 15, 24));
    assert_eq!(selection_region(&rect(25, 1, 40, 2), 20, 30), (20, 1, 0, 1));
    assert_eq!(selection_region(&rect(9, 9, 3, 4), 20, 30), (3, 4, 6, 5));
}

#[test]
fn convert_reaches_every_encoding() {
    let img = pattern(4, 3);
    for t in [
        ColorType::L8,
        ColorType::L16,
        ColorType::La8,
        ColorType::La16,
        ColorType::Rgb8,
        ColorType::Rgb16,
        ColorType::Rgb32F,
        ColorType::Rgba8,
        ColorType::Rgba16,
        ColorType::Rgba32F,
    ] {
        let c = convert(&img, t);
        assert_eq!(c.color(), t);
        assert_eq!((c.width(), c.height()), (4, 3));
    }
    assert_eq!(convert(&img, ColorType::Rgba8).as_bytes(), img.as_bytes());
}

#[test]
fn inverted_16_bit_samples() {
    let img = DynamicImage::ImageLuma16(image::ImageBuffer::from_fn(2, 1, |x, _| image::Luma([x as u16 * 1000])));
    let inv = inverted(&img);
    let buf = inv.as_luma16().unwrap();
    assert_eq!(buf.get_pixel(0, 0).0, [65535]);
    assert_eq!(buf.get_pixel(1, 0).0, [64535]);
}

#[test]
fn outline_layers_responses() {
    let base = pattern(3, 2);
    let opaque = |v: u8| DynamicImage::ImageRgba8(RgbaImage::from_pixel(3, 2, Rgba([v, v, v, 255])));
    let clear = DynamicImage::ImageRgba8(RgbaImage::from_pixel(3, 2, Rgba([9, 9, 9, 0])));
    let out = outline(&base, &opaque(10), &clear, &opaque(70), &clear);
    assert_eq!(out.get_pixel(1, 1).0, [70, 70, 70, 255]);
    let out = outline(&base, &opaque(10), &clear, &clear, &clear);
    assert_eq!(out.get_pixel(2, 0).0, [10, 10, 10, 255]);
}

#[test]
fn operations_move_pixels_as_stated() {
    let img = pattern(5, 3);
    let h = Operation::FlipHorizontal.run(&img);
    assert_eq!(h.get_pixel(4, 1), img.get_pixel(0, 1));
    let v = Operation::FlipVertical.run(&img);
    assert_eq!(v.get_pixel(1, 2), img.get_pixel(1, 0));
    let r = Operation::Rotate270.run(&img);
    assert_eq!((r.width(), r.height()), (3, 5));
    assert_eq!(r.get_pixel(1, 5 - 1 - 2), img.get_pixel(2, 1));
    let r = Operation::Rotate90.run(&img);
    assert_eq!(r.get_pixel(3 - 1 - 1, 2), img.get_pixel(2, 1));
    let g = Operation::Grayscale.run(&img);
    assert_eq!(g.color(), ColorType::La8);
    let b = Operation::Brighten(10).run(&img);
    assert_eq!(b.get_pixel(0, 0).0[0], img.get_pixel(0, 0).0[0] + 10);
    let hr = Operation::HueRotate(180).run(&img);
    assert_eq!(hr.color(), ColorType::Rgba8);
    assert_ne!(hr.as_bytes(), img.as_bytes());
    let i = Operation::Invert.run(&img);
    assert_eq!(i.get_pixel(2, 2).0[1], 255 - img.get_pixel(2, 2).0[1]);
    assert!(Operation::Grayscale.keeps_format());
    assert!(Operation::Invert.keeps_format());
    assert!(!Operation::Rotate90.keeps_format());
}

#[test]
fn brighten_clamps_colour_and_keeps_alpha() {
    let img = DynamicImage::ImageRgba8(RgbaImage::from_pixel(2, 1, Rgba([10, 250, 0, 77])));
    let b = Operation::Brighten(20).run(&img);
    assert_eq!(b.get_pixel(1, 0).0, [30, 255, 20, 77]);
    let d = Operation::Brighten(-15).run(&img);
    assert_eq!(d.get_pixel(0, 0).0, [0, 235, 0, 77]);
    assert!(Operation::Brighten(20).can_run_on(ColorType::Rgba16));
    assert!(!Operation::Brighten(20).can_run_on(ColorType::Rgb32F));
    assert!(!Operation::Brighten(i32::MAX).can_run_on(ColorType::L8));
    assert!(Operation::Brighten(i32::MAX - 255).can_run_on(ColorType::L8));
    assert!(!Operation::Brighten(i32::MAX - 255).can_run_on(ColorType::L16));
    assert!(Operation::HueRotate(90).can_run_on(ColorType::Rgba32F));
    assert!(Operation::FlipVertical.can_run_on(ColorType::Rgba32F));
}

#[test]
fn region_edit_on_16_bit_image_keeps_outside_exact() {
    let before = DynamicImage::ImageRgba16(image::ImageBuffer::from_fn(10, 10, |x, y| {
        image::Rgba([x as u16 * 1001, y as u16 * 777, 12345, 65535])
    }));
    let mut img = before.clone();
    apply(&mut img, Some(rect(2, 2, 5, 5)), true, |i| inverted(i)).unwrap();
    assert_eq!(img.color(), ColorType::Rgba16);
    let a = img.as_rgba16().unwrap();
    let b = before.as_rgba16().unwrap();
    assert_eq!(a.get_pixel(7, 7), b.get_pixel(7, 7));
    assert_eq!(a.get_pixel(1, 3), b.get_pixel(1, 3));
    // inside, the pasted value went through 8-bit RGBA
    assert_eq!(a.get_pixel(3, 3).0[3], 65535);
}
