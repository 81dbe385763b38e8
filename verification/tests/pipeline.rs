use image::GenericImageView;
use std::io::Cursor;

use imagekit::constraint::OutputFormat;
use imagekit::errors::ImgError;
use imagekit::geometry::{Frac, FractionalRect};
use imagekit::pipeline::{crop_encoded, resize_image_from_data, save_as_encoded};
use imagekit::raster::decode_image;

fn make_png(w: u32, h: u32) -> Vec<u8> {
    let img = image::RgbaImage::from_fn(w, h, |x, y| {
        image::Rgba([(x % 256) as u8, (y % 256) as u8, ((x + y) % 256) as u8, 255])
    });
    let mut buf = Cursor::new(Vec::new());
    image::DynamicImage::ImageRgba8(img)
        .write_to(&mut buf, image::ImageFormat::Png)
        .unwrap();
    buf.into_inner()
}

fn full_rect() -> FractionalRect {
    FractionalRect {
        x: Frac { num: 0, den: 1 },
        y: Frac { num: 0, den: 1 },
        w: Frac { num: 1, den: 1 },
        h: Frac { num: 1, den: 1 },
    }
}

#[test]
fn resize_yields_exact_dimensions() {
    let data = make_png(100, 80);
    let out = resize_image_from_data(data, 50, 40).unwrap();
    let img = image::load_from_memory(&out).unwrap();
    assert_eq!(img.dimensions(), (50, 40));
}

#[test]
fn resize_upscale_exact_dimensions() {
    let data = make_png(10, 10);
    let out = resize_image_from_data(data, 33, 21).unwrap();
    let img = image::load_from_memory(&out).unwrap();
    assert_eq!(img.dimensions(), (33, 21));
}

#[test]
fn resize_zero_side_rejected() {
    let data = make_png(10, 10);
    let e = resize_image_from_data(data, 0, 40).unwrap_err();
    assert!(matches!(e, ImgError::InvalidDimensions));
}

#[test]
fn resize_corrupt_data_rejected() {
    let garbage = vec![0u8, 1, 2, 3, 4, 5, 6, 7];
    let e = resize_image_from_data(garbage, 10, 10).unwrap_err();
    assert!(matches!(e, ImgError::Decode(_)));
}

#[test]
fn crop_full_rect_is_identity() {
    let data = make_png(8, 6);
    let out = crop_encoded(&data, full_rect(), OutputFormat::Png).unwrap();
    let orig = image::load_from_memory(&data).unwrap();
    let cropped = image::load_from_memory(&out).unwrap();
    assert_eq!(cropped.dimensions(), (8, 6));
    assert_eq!(orig.to_rgba8().into_raw(), cropped.to_rgba8().into_raw());
}

#[test]
fn crop_scenario_half_width() {
    // 1000x500 with (x=0.5, y=0.0, w=0.6, h=1.0): the width clamps from
    // 600 to 500, giving a 500x500 result.
    let data = make_png(1000, 500);
    let r = FractionalRect {
        x: Frac { num: 1, den: 2 },
        y: Frac { num: 0, den: 1 },
        w: Frac { num: 3, den: 5 },
        h: Frac { num: 1, den: 1 },
    };
    let out = crop_encoded(&data, r, OutputFormat::Png).unwrap();
    let img = image::load_from_memory(&out).unwrap();
    assert_eq!(img.dimensions(), (500, 500));
}

#[test]
fn crop_preserves_pixel_values() {
    let data = make_png(4, 4);
    // The right half: origin (2, 0), 2x4.
    let r = FractionalRect {
        x: Frac { num: 1, den: 2 },
        y: Frac { num: 0, den: 1 },
        w: Frac { num: 1, den: 2 },
        h: Frac { num: 1, den: 1 },
    };
    let out = crop_encoded(&data, r, OutputFormat::Png).unwrap();
    let orig = image::load_from_memory(&data).unwrap();
    let cropped = image::load_from_memory(&out).unwrap();
    assert_eq!(cropped.dimensions(), (2, 4));
    for y in 0..4 {
        for x in 0..2 {
            assert_eq!(cropped.get_pixel(x, y), orig.get_pixel(x + 2, y));
        }
    }
}

#[test]
fn crop_out_of_range_rejected() {
    let data = make_png(4, 4);
    let r = FractionalRect {
        x: Frac { num: 2, den: 1 },
        y: Frac { num: 0, den: 1 },
        w: Frac { num: 1, den: 2 },
        h: Frac { num: 1, den: 1 },
    };
    let e = crop_encoded(&data, r, OutputFormat::Png).unwrap_err();
    assert!(matches!(e, ImgError::InvalidRegion));
}

#[test]
fn save_as_icon_scales_oversized() {
    let data = make_png(512, 256);
    let out = save_as_encoded(&data, OutputFormat::Ico).unwrap();
    let img = image::load_from_memory(&out).unwrap();
    assert_eq!(img.dimensions(), (256, 128));
}

#[test]
fn save_as_icon_keeps_small_image() {
    let data = make_png(100, 50);
    let out = save_as_encoded(&data, OutputFormat::Ico).unwrap();
    let img = image::load_from_memory(&out).unwrap();
    assert_eq!(img.dimensions(), (100, 50));
}

#[test]
fn save_as_other_format_unchanged() {
    let data = make_png(300, 200);
    let out = save_as_encoded(&data, OutputFormat::Bmp).unwrap();
    let img = image::load_from_memory(&out).unwrap();
    assert_eq!(img.dimensions(), (300, 200));
}

#[test]
fn save_as_qoi_round_trips() {
    let data = make_png(20, 10);
    let out = save_as_encoded(&data, OutputFormat::Qoi).unwrap();
    let img = image::load_from_memory(&out).unwrap();
    assert_eq!(img.dimensions(), (20, 10));
}

#[test]
fn save_as_tga_encodes() {
    // TGA carries no magic bytes, so it is decoded with the format
    // given explicitly.
    let data = make_png(6, 3);
    let out = save_as_encoded(&data, OutputFormat::Tga).unwrap();
    let img = image::load_from_memory_with_format(&out, image::ImageFormat::Tga).unwrap();
    assert_eq!(img.dimensions(), (6, 3));
}

#[test]
fn encode_oversized_icon_directly_fails() {
    // Without the constraint step the icon encoder itself refuses a
    // side above 256.
    let data = make_png(300, 300);
    let handle = decode_image(&data).unwrap();
    let e = handle.encode(OutputFormat::Ico).unwrap_err();
    assert!(matches!(e, ImgError::Encode(_)));
}

#[test]
fn decode_reports_dimensions() {
    let data = make_png(17, 9);
    let handle = decode_image(&data).unwrap();
    assert_eq!(handle.dimensions(), (17, 9));
}

#[test]
fn resize_handle_exact_dimensions() {
    let data = make_png(30, 20);
    let handle = decode_image(&data).unwrap();
    let resized = handle.resize(7, 5).unwrap();
    assert_eq!(resized.dimensions(), (7, 5));
}
