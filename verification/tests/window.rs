use ludusavi::gui::{decode_icon, toast_window_width_tenths};

#[test]
fn toast_window_width_clamps_short_text() {
    assert_eq!(toast_window_width_tenths(0), 3000);
    assert_eq!(toast_window_width_tenths(29), 3000);
}

#[test]
fn toast_window_width_grows_with_text() {
    assert_eq!(toast_window_width_tenths(30), 3060);
    assert_eq!(toast_window_width_tenths(35), 3440);
    assert_eq!(toast_window_width_tenths(39), 3744);
}

#[test]
fn toast_window_width_clamps_long_text() {
    assert_eq!(toast_window_width_tenths(40), 3800);
    assert_eq!(toast_window_width_tenths(usize::MAX), 3800);
}

#[test]
fn toast_window_width_is_monotone_and_bounded() {
    let mut previous = 0;
    for hint in 0..200usize {
        let width = toast_window_width_tenths(hint);
        assert!((3000..=3800).contains(&width));
        assert!(width >= previous);
        previous = width;
    }
}

/// A 2 by 1 RGBA PNG: one opaque red pixel, one half-transparent blue one.
fn two_pixel_png() -> Vec<u8> {
    let pixels = vec![255, 0, 0, 255, 0, 0, 255, 128];
    let image = image::RgbaImage::from_raw(2, 1, pixels).unwrap();
    let mut bytes = std::io::Cursor::new(Vec::new());
    image.write_to(&mut bytes, image::ImageFormat::Png).unwrap();
    bytes.into_inner()
}

#[test]
fn decode_icon_reads_png_pixels() {
    let icon = decode_icon(&two_pixel_png()).unwrap();
    assert_eq!(icon.width, 2);
    assert_eq!(icon.height, 1);
    assert_eq!(icon.rgba, vec![255, 0, 0, 255, 0, 0, 255, 128]);
}

#[test]
fn decode_icon_rejects_garbage() {
    assert!(decode_icon(b"not an image").is_none());
    assert!(decode_icon(&[]).is_none());
}

#[test]
fn decode_icon_expands_grey_to_rgba() {
    let image = image::GrayImage::from_raw(2, 1, vec![0, 255]).unwrap();
    let mut bytes = std::io::Cursor::new(Vec::new());
    image.write_to(&mut bytes, image::ImageFormat::Png).unwrap();
    let icon = decode_icon(bytes.get_ref()).unwrap();
    assert_eq!((icon.width, icon.height), (2, 1));
    assert_eq!(icon.rgba, vec![0, 0, 0, 255, 255, 255, 255, 255]);
    assert_eq!(icon.rgba.len(), 4 * 2 * 1);
}
