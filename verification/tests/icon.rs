use gpui_template::icon::canvas::{from_pixel, rgba, Rgba8};
use gpui_template::icon::shapes::{
    draw_dot, fill_rect, fill_rounded_rect, inside_rounded_rect, stroke_rounded_rect,
};
use gpui_template::icon::{build_window_icon, desktop_icon_png, ICON_SIZE};

fn pixel(raw: &[u8], width: u32, x: u32, y: u32) -> [u8; 4] {
    let i = ((y * width + x) * 4) as usize;
    [raw[i], raw[i + 1], raw[i + 2], raw[i + 3]]
}

fn shades() -> Vec<Rgba8> {
    (0..ICON_SIZE).map(|y| rgba(10, 20, y as u8, 255)).collect()
}

#[test]
fn rounded_rect_corners_are_cut() {
    assert!(!inside_rounded_rect(0, 0, 0, 0, 10, 10, 3));
    assert!(inside_rounded_rect(5, 0, 0, 0, 10, 10, 3));
    assert!(inside_rounded_rect(0, 5, 0, 0, 10, 10, 3));
    assert!(inside_rounded_rect(1, 1, 0, 0, 10, 10, 3));
    assert!(!inside_rounded_rect(9, 9, 0, 0, 10, 10, 1));
    assert!(inside_rounded_rect(9, 8, 0, 0, 10, 10, 1));
    assert!(!inside_rounded_rect(9, 0, 0, 0, 10, 10, 3));
    assert!(inside_rounded_rect(0, 0, 0, 0, 10, 10, 0));
}

#[test]
fn fill_rect_paints_only_the_rectangle() {
    let mut image = from_pixel(4, 3, rgba(0, 0, 0, 0));
    fill_rect(&mut image, 1, 1, 2, 2, rgba(9, 8, 7, 6));
    let raw = image.into_raw();
    assert_eq!(raw.len(), 4 * 3 * 4);
    assert_eq!(pixel(&raw, 4, 1, 1), [9, 8, 7, 6]);
    assert_eq!(pixel(&raw, 4, 2, 2), [9, 8, 7, 6]);
    assert_eq!(pixel(&raw, 4, 0, 0), [0, 0, 0, 0]);
    assert_eq!(pixel(&raw, 4, 3, 1), [0, 0, 0, 0]);
}

#[test]
fn rounded_fill_and_outline() {
    let mut image = from_pixel(10, 10, rgba(0, 0, 0, 0));
    fill_rounded_rect(&mut image, 0, 0, 10, 10, 3, rgba(1, 1, 1, 1));
    stroke_rounded_rect(&mut image, 0, 0, 10, 10, 3, rgba(2, 2, 2, 2));
    let raw = image.into_raw();
    assert_eq!(pixel(&raw, 10, 0, 0), [0, 0, 0, 0]);
    assert_eq!(pixel(&raw, 10, 5, 0), [2, 2, 2, 2]);
    assert_eq!(pixel(&raw, 10, 5, 5), [1, 1, 1, 1]);
    assert_eq!(pixel(&raw, 10, 0, 5), [2, 2, 2, 2]);
}

#[test]
fn dot_is_a_disc() {
    let mut image = from_pixel(9, 9, rgba(0, 0, 0, 0));
    draw_dot(&mut image, 4, 4, 3, rgba(5, 5, 5, 5));
    let raw = image.into_raw();
    assert_eq!(pixel(&raw, 9, 4, 4), [5, 5, 5, 5]);
    assert_eq!(pixel(&raw, 9, 7, 4), [5, 5, 5, 5]);
    assert_eq!(pixel(&raw, 9, 1, 4), [5, 5, 5, 5]);
    assert_eq!(pixel(&raw, 9, 7, 7), [0, 0, 0, 0]);
    assert_eq!(pixel(&raw, 9, 6, 6), [5, 5, 5, 5]);
}

#[test]
fn window_icon_pixels() {
    let raw = build_window_icon(&shades()).into_raw();
    assert_eq!(raw.len(), 64 * 64 * 4);
    // Outside the rounded background: transparent.
    assert_eq!(pixel(&raw, 64, 0, 0), [0, 0, 0, 0]);
    assert_eq!(pixel(&raw, 64, 4, 4), [0, 0, 0, 0]);
    // The outline of the background.
    assert_eq!(pixel(&raw, 64, 30, 3), [103, 232, 249, 180]);
    // The background, shaded by row.
    assert_eq!(pixel(&raw, 64, 8, 30), [10, 20, 30, 255]);
    // The plus on the first key.
    assert_eq!(pixel(&raw, 64, 20, 25), [12, 74, 110, 255]);
    // The dot on the second key.
    assert_eq!(pixel(&raw, 64, 43, 25), [8, 145, 178, 255]);
    // The hold bar.
    assert_eq!(pixel(&raw, 64, 30, 43), [14, 116, 144, 255]);
    // The first key cap away from its marks.
    assert_eq!(pixel(&raw, 64, 14, 30), [232, 249, 255, 255]);
}

#[test]
fn desktop_icon_is_a_large_png() {
    let png = desktop_icon_png(&shades()).expect("encode");
    assert_eq!(&png[0..8], &[0x89, b'P', b'N', b'G', 0x0d, 0x0a, 0x1a, 0x0a]);
    assert_eq!(&png[12..16], b"IHDR");
    let width = u32::from_be_bytes([png[16], png[17], png[18], png[19]]);
    let height = u32::from_be_bytes([png[20], png[21], png[22], png[23]]);
    assert_eq!((width, height), (512, 512));
}

#[test]
fn rounded_test_is_mirror_symmetric() {
    // A 10 by 7 rectangle at (2, 3) with radius 3: every pixel and its mirror
    // images agree.
    let (x, y, w, h, r) = (2u32, 3u32, 10u32, 7u32, 3u32);
    for px in x..x + w {
        for py in y..y + h {
            let inside = inside_rounded_rect(px, py, x, y, w, h, r);
            assert_eq!(inside, inside_rounded_rect(2 * x + w - 1 - px, py, x, y, w, h, r));
            assert_eq!(inside, inside_rounded_rect(px, 2 * y + h - 1 - py, x, y, w, h, r));
        }
    }
    // Exactly twice the radius wide and high, it still is.
    let (w, h, r) = (6u32, 6u32, 3u32);
    for px in x..x + w {
        for py in y..y + h {
            let inside = inside_rounded_rect(px, py, x, y, w, h, r);
            assert_eq!(inside, inside_rounded_rect(2 * x + w - 1 - px, py, x, y, w, h, r));
            assert_eq!(inside, inside_rounded_rect(px, 2 * y + h - 1 - py, x, y, w, h, r));
        }
    }
    // Narrower than twice the radius, the shape is not symmetric.
    assert!(inside_rounded_rect(1, 1, 0, 0, 5, 5, 4) != inside_rounded_rect(3, 1, 0, 0, 5, 5, 4));
}
