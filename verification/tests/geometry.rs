use trezor_ui::display::Color;
use trezor_ui::geometry::{Alignment2D, Offset, Point, Rect, COORD_MAX, COORD_MIN};
use trezor_ui::qr_code::{Error, Qr, MAX_DATA};

#[test]
fn rect_center_and_sizes() {
    let r = Rect::new(Point::new(0, 0), Point::new(240, 120));
    assert_eq!(r.width(), 240);
    assert_eq!(r.height(), 120);
    assert_eq!(r.center(), Point::new(120, 60));
}

#[test]
fn rect_new_normalizes_corners() {
    let r = Rect::new(Point::new(240, 120), Point::new(0, 0));
    assert_eq!(r, Rect { x0: 0, y0: 0, x1: 240, y1: 120 });
}

#[test]
fn rect_contains_is_half_open() {
    let r = Rect::new(Point::new(10, 10), Point::new(20, 20));
    assert!(r.contains(Point::new(10, 10)));
    assert!(r.contains(Point::new(19, 19)));
    assert!(!r.contains(Point::new(20, 10)));
    assert!(!r.contains(Point::new(10, 20)));
    assert!(!r.contains(Point::new(9, 10)));
}

#[test]
fn rect_splits_clamp_to_the_rectangle() {
    let r = Rect::new(Point::new(0, 0), Point::new(100, 100));
    let (top, rest) = r.split_top(30);
    assert_eq!(top, Rect { x0: 0, y0: 0, x1: 100, y1: 30 });
    assert_eq!(rest, Rect { x0: 0, y0: 30, x1: 100, y1: 100 });

    let (rest, bottom) = r.split_bottom(32);
    assert_eq!(rest, Rect { x0: 0, y0: 0, x1: 100, y1: 68 });
    assert_eq!(bottom, Rect { x0: 0, y0: 68, x1: 100, y1: 100 });

    // An oversized strip takes the whole rectangle.
    let (top, rest) = r.split_top(500);
    assert_eq!(top, r);
    assert_eq!(rest.height(), 0);

    // A negative height takes nothing.
    let (top, rest) = r.split_top(-5);
    assert_eq!(top.height(), 0);
    assert_eq!(rest, r);
}

#[test]
fn rect_snap_centers_and_corners() {
    let c = Point::new(120, 120);
    let r = Rect::snap(c, Offset::uniform(120), Alignment2D::Center);
    assert_eq!(r, Rect { x0: 60, y0: 60, x1: 180, y1: 180 });
    let r = Rect::snap(c, Offset::uniform(10), Alignment2D::TopLeft);
    assert_eq!(r, Rect { x0: 120, y0: 120, x1: 130, y1: 130 });
}

#[test]
fn point_shift_clamps_into_range() {
    let p = Point::new(120, 120).shifted(Offset::y(9));
    assert_eq!(p, Point::new(120, 129));
    let p = Point::new(COORD_MAX, COORD_MIN).shifted(Offset::new(100, -100));
    assert_eq!(p, Point::new(COORD_MAX, COORD_MIN));
}

#[test]
fn color_packs_565() {
    assert_eq!(Color::rgb(0, 0, 0).0, 0);
    assert_eq!(Color::rgb(255, 255, 255).0, 0xFFFF);
    assert_eq!(Color::rgb(0, 170, 68).0, 42 * 32 + 8);
    assert_eq!(Color::black(), Color::rgb(0, 0, 0));
}

#[test]
fn qr_uppercases_when_case_insensitive() {
    let qr = Qr::new("bitcoin:ABC123", false).unwrap();
    assert_eq!(qr.text, b"BITCOIN:ABC123".to_vec());
    let qr = Qr::new("bitcoin:ABC123", true).unwrap();
    assert_eq!(qr.text, b"bitcoin:ABC123".to_vec());
}

#[test]
fn qr_leaves_non_ascii_bytes_alone() {
    // Only the ASCII letters are uppercased; multi-byte characters keep
    // their bytes.
    let qr = Qr::new("žluť", false).unwrap();
    assert_eq!(qr.text, "žLUť".as_bytes().to_vec());
}

#[test]
fn qr_rejects_oversized_text() {
    let long = "a".repeat(MAX_DATA + 1);
    assert!(matches!(Qr::new(&long, true), Err(Error::OutOfRange)));
    let edge = "a".repeat(MAX_DATA);
    assert!(Qr::new(&edge, true).is_ok());
}

#[test]
fn qr_border_is_kept() {
    let qr = Qr::new("x", true).unwrap().with_border(7);
    assert_eq!(qr.border, 7);
}

#[test]
fn qr_scale_fits_the_available_space() {
    // 240 pixels, border 7: 226 usable over 25 modules is 9 per module.
    assert_eq!(Qr::qr_scale(240, 7, 25), Some(9));
    // Too much space per module is not drawable.
    assert_eq!(Qr::qr_scale(240, 0, 21), None);
    // Not even one pixel per module.
    assert_eq!(Qr::qr_scale(20, 0, 25), None);
    // No usable space at all.
    assert_eq!(Qr::qr_scale(10, 20, 25), None);
}
