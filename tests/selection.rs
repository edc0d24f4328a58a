use tarsier::selection::{
    to_image_space, CursorState, EditMode, PenMove, PixelPos, PointerEvent, ScreenPos,
    SelectionRect,
};

fn at(x: i64, y: i64) -> ScreenPos {
    ScreenPos { x, y }
}

#[test]
fn pointer_is_clamped_into_the_image() {
    let origin = at(100, 50);
    assert_eq!(to_image_space(at(130, 70), origin, 64, 48), PixelPos { x: 30, y: 20 });
    assert_eq!(to_image_space(at(10, 10), origin, 64, 48), PixelPos { x: 0, y: 0 });
    assert_eq!(to_image_space(at(1000, 1000), origin, 64, 48), PixelPos { x: 64, y: 48 });
    assert_eq!(to_image_space(at(i64::MIN, i64::MAX), at(i64::MAX, i64::MIN), 5, 7), PixelPos { x: 0, y: 7 });
}

#[test]
fn selection_corners_stay_inside_on_a_wild_path() {
    let mut s = CursorState::new();
    let origin = at(-20, 30);
    let path = [
        at(-500, -500),
        at(10_000, 3),
        at(5, 90_000),
        at(i64::MAX, i64::MIN),
        at(0, 0),
        at(17, 42),
    ];
    for p in path {
        s.on_pointer(PointerEvent::Drag(p), origin, 40, 25);
        let r = s.selection.unwrap();
        for c in [r.anchor, r.corner] {
            assert!(c.x <= 40 && c.y <= 25);
        }
    }
    let r = s.selection.unwrap();
    assert_eq!(r.anchor, PixelPos { x: 0, y: 0 });
    assert_eq!(r.corner, PixelPos { x: 37, y: 12 });
}

#[test]
fn drag_anchors_then_extends_and_release_keeps_rect() {
    let mut s = CursorState::new();
    let o = at(0, 0);
    assert_eq!(s.on_pointer(PointerEvent::Drag(at(10, 12)), o, 100, 100), None);
    assert_eq!(s.selection, Some(SelectionRect { anchor: PixelPos { x: 10, y: 12 }, corner: PixelPos { x: 10, y: 12 } }));
    s.on_pointer(PointerEvent::Drag(at(4, 30)), o, 100, 100);
    let r = s.selection.unwrap();
    assert_eq!((r.min_x(), r.min_y(), r.max_x(), r.max_y()), (4, 12, 10, 30));
    assert_eq!((r.width(), r.height()), (6, 18));
    s.on_pointer(PointerEvent::Idle, o, 100, 100);
    assert!(!s.is_selecting);
    assert_eq!(s.selection, Some(r));
    // a new drag starts a new rectangle
    s.on_pointer(PointerEvent::Drag(at(50, 50)), o, 100, 100);
    assert_eq!(s.selection.unwrap().anchor, PixelPos { x: 50, y: 50 });
}

#[test]
fn click_clears_selection() {
    let mut s = CursorState::new();
    s.on_pointer(PointerEvent::Drag(at(1, 1)), at(0, 0), 10, 10);
    s.on_pointer(PointerEvent::Drag(at(5, 5)), at(0, 0), 10, 10);
    assert!(s.selection.is_some());
    assert_eq!(s.on_pointer(PointerEvent::Click(at(3, 3)), at(0, 0), 10, 10), None);
    assert_eq!(s.selection, None);
}

#[test]
fn zero_area_selection_is_empty() {
    let p = PixelPos { x: 3, y: 3 };
    assert!(SelectionRect::from_two_pos(p, p).is_empty());
    assert!(SelectionRect::from_two_pos(p, PixelPos { x: 9, y: 3 }).is_empty());
    assert!(!SelectionRect::from_two_pos(p, PixelPos { x: 9, y: 4 }).is_empty());
}

#[test]
fn switching_to_drawing_clears_selection_and_back_does_not_restore() {
    let mut s = CursorState::new();
    s.on_pointer(PointerEvent::Drag(at(2, 2)), at(0, 0), 50, 50);
    s.on_pointer(PointerEvent::Drag(at(20, 20)), at(0, 0), 50, 50);
    assert!(s.selection.is_some());
    s.set_mode(EditMode::Drawing);
    assert_eq!(s.selection, None);
    s.set_mode(EditMode::Selection);
    assert_eq!(s.selection, None);
    assert_eq!(s.mode, EditMode::Selection);
}

#[test]
fn drawing_drag_continues_stroke_and_release_ends_it() {
    let mut s = CursorState::new();
    s.set_mode(EditMode::Drawing);
    let o = at(0, 0);
    let first = s.on_pointer(PointerEvent::Drag(at(1, 2)), o, 10, 10);
    assert_eq!(first, Some(PenMove { from: None, to: PixelPos { x: 1, y: 2 } }));
    let second = s.on_pointer(PointerEvent::Drag(at(6, 2)), o, 10, 10);
    assert_eq!(second, Some(PenMove { from: Some(PixelPos { x: 1, y: 2 }), to: PixelPos { x: 6, y: 2 } }));
    s.on_pointer(PointerEvent::Idle, o, 10, 10);
    assert_eq!(s.last_drawing_point, None);
    let click = s.on_pointer(PointerEvent::Click(at(4, 4)), o, 10, 10);
    assert_eq!(click, Some(PenMove { from: None, to: PixelPos { x: 4, y: 4 } }));
}

#[test]
fn mode_labels() {
    assert_eq!(EditMode::Selection.label(), "Selection");
    assert_eq!(EditMode::Drawing.label(), "Drawing");
}
