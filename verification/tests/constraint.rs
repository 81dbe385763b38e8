use imagekit::constraint::{constrain_dims, OutputFormat, ICON_MAX_SIDE};

#[test]
fn icon_scale_factor_scenario() {
    // 4096x2048 saved as an icon: scale factor 256/4096, output 256x128.
    assert_eq!(constrain_dims(OutputFormat::Ico, 4096, 2048), (256, 128));
}

#[test]
fn icon_portrait_scales_height_side() {
    assert_eq!(constrain_dims(OutputFormat::Ico, 2048, 4096), (128, 256));
}

#[test]
fn icon_within_cap_unchanged() {
    assert_eq!(constrain_dims(OutputFormat::Ico, 256, 100), (256, 100));
    assert_eq!(constrain_dims(OutputFormat::Ico, 1, 1), (1, 1));
    assert_eq!(constrain_dims(OutputFormat::Ico, 256, 256), (256, 256));
}

#[test]
fn other_formats_never_constrained() {
    assert_eq!(constrain_dims(OutputFormat::Png, 4096, 2048), (4096, 2048));
    assert_eq!(constrain_dims(OutputFormat::Jpeg, 9000, 9000), (9000, 9000));
    assert_eq!(constrain_dims(OutputFormat::Bmp, 300, 300), (300, 300));
}

#[test]
fn icon_longer_side_becomes_cap_exactly() {
    for (w, h) in [(257u32, 100u32), (1000, 999), (300, 200), (511, 257)] {
        let (nw, nh) = constrain_dims(OutputFormat::Ico, w, h);
        assert_eq!(nw.max(nh), ICON_MAX_SIDE, "for {w}x{h}");
        assert!(nw >= 1 && nh >= 1);
    }
}

#[test]
fn icon_aspect_rounding() {
    // 300x200: the height scales to round(200 * 256/300) = round(170.67) = 171.
    assert_eq!(constrain_dims(OutputFormat::Ico, 300, 200), (256, 171));
}

#[test]
fn icon_tiny_side_clamped_to_one() {
    // 1x1000: the width would round to zero; it is held at one pixel.
    assert_eq!(constrain_dims(OutputFormat::Ico, 1, 1000), (1, 256));
}
