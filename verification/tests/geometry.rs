use imagekit::errors::ImgError;
use imagekit::geometry::{normalize_rect, Frac, FractionalRect, PixelRect};

fn fr(xn: u32, xd: u32, yn: u32, yd: u32, wn: u32, wd: u32, hn: u32, hd: u32) -> FractionalRect {
    FractionalRect {
        x: Frac { num: xn, den: xd },
        y: Frac { num: yn, den: yd },
        w: Frac { num: wn, den: wd },
        h: Frac { num: hn, den: hd },
    }
}

#[test]
fn normalize_crop_scenario() {
    // A 1000x500 source with a request of (x=0.5, y=0.0, w=0.6, h=1.0):
    // the width would reach 500 + 600 = 1100, so it is clamped to 500
    // while the origin stays put.
    let r = normalize_rect(1000, 500, fr(1, 2, 0, 1, 3, 5, 1, 1)).unwrap();
    assert_eq!(r, PixelRect { x: 500, y: 0, width: 500, height: 500 });
}

#[test]
fn normalize_rounds_half_up() {
    // 0.25 * 10 = 2.5 rounds up to 3.
    let r = normalize_rect(10, 10, fr(1, 4, 0, 1, 1, 2, 1, 2)).unwrap();
    assert_eq!(r.x, 3);
    assert_eq!(r.width, 5);
    // 0.24 * 10 = 2.4 rounds down to 2.
    let r = normalize_rect(10, 10, fr(24, 100, 0, 1, 1, 2, 1, 2)).unwrap();
    assert_eq!(r.x, 2);
}

#[test]
fn normalize_full_rect_is_whole_image() {
    let r = normalize_rect(123, 45, fr(0, 1, 0, 1, 1, 1, 1, 1)).unwrap();
    assert_eq!(r, PixelRect { x: 0, y: 0, width: 123, height: 45 });
}

#[test]
fn normalize_rejects_out_of_range() {
    let e = normalize_rect(100, 100, fr(3, 2, 0, 1, 1, 2, 1, 2)).unwrap_err();
    assert!(matches!(e, ImgError::InvalidRegion));
}

#[test]
fn normalize_rejects_zero_denominator() {
    let e = normalize_rect(100, 100, fr(0, 0, 0, 1, 1, 2, 1, 2)).unwrap_err();
    assert!(matches!(e, ImgError::InvalidRegion));
}

#[test]
fn normalize_stays_in_bounds() {
    // Requests that force clamping on both axes still land inside the
    // image, with the origin unmoved.
    let cases = [
        (640u32, 480u32, fr(9, 10, 9, 10, 9, 10, 9, 10)),
        (1u32, 1u32, fr(1, 2, 1, 2, 1, 1, 1, 1)),
        (7u32, 3u32, fr(1, 3, 2, 3, 2, 3, 2, 3)),
        (4096u32, 4096u32, fr(1, 1, 1, 1, 1, 1, 1, 1)),
    ];
    for (w, h, r) in cases {
        let p = normalize_rect(w, h, r).unwrap();
        assert!(p.x + p.width <= w, "x+width out of bounds for {w}x{h}");
        assert!(p.y + p.height <= h, "y+height out of bounds for {w}x{h}");
    }
}
