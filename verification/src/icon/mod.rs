pub mod canvas;
pub mod shapes;

use vstd::prelude::*;

use crate::icon::canvas::{
    covers, from_pixel, png_bytes, rgba, IconImage, ImageModel, Rgba8,
};
use crate::icon::shapes::{
    draw_dot, fill_rect, fill_rounded_rect, inside_rounded, inside_rounded_rect, rounded_outline_fits,
    rounded_rect_fits, rounded_test_defined, stroke_rounded_rect, with_disc, with_rect,
    with_rounded_outline, with_rounded_rect, corner_offset, in_rect, in_disc, on_border,
};

verus! {

/// The application id, which the desktop entry and the window share.
pub const APP_ID: &'static str = "dev.gpui.HotkeyHoldApp";

/// The side of the window icon, in pixels.
pub const ICON_SIZE: u32 = 64;

/// The side of the icon installed for the desktop, in pixels.
pub const DESKTOP_ICON_SIZE: u32 = 512;

/// The file name of the desktop entry.
pub const DESKTOP_FILE_NAME: &'static str = "dev.gpui.HotkeyHoldApp.desktop";

/// The file name of the installed icon.
pub const PNG_ICON_FILE_NAME: &'static str = "dev.gpui.HotkeyHoldApp.png";

/// Why the desktop icon could not be made.
#[derive(Debug)]
pub enum IconError {
    /// The PNG encoder failed.
    EncodePng(image::ImageError),
}

// ---------------------------------------------------------------------------------------------- //
// The picture, as values.

/// A square image of `ICON_SIZE` whose pixels are all transparent.
pub open spec fn blank_icon() -> ImageModel {
    ImageModel {
        width: 64,
        height: 64,
        pixels: Map::new(|p: (u32, u32)| p.0 < 64 && p.1 < 64, |p: (u32, u32)| Rgba8 { r: 0, g: 0, b: 0, a: 0 }),
    }
}

/// The rounded square behind the icon: row `y` takes the colour `shades[y]`,
/// and an outline in light cyan goes round it.
pub open spec fn background(m: ImageModel, shades: Seq<Rgba8>) -> ImageModel {
    let filled = ImageModel {
        width: m.width,
        height: m.height,
        pixels: Map::new(
            |p: (u32, u32)| m.pixels.dom().contains(p),
            |p: (u32, u32)|
                if p.0 < 64 && p.1 < 64 && inside_rounded(p.0, p.1, 3, 3, 58, 58, 14) {
                    shades[p.1 as int]
                } else {
                    m.pixels[p]
                },
        ),
    };
    with_rounded_outline(filled, 3, 3, 58, 58, 14, Rgba8 { r: 103, g: 232, b: 249, a: 180 })
}

/// A key cap: a dark shadow one pixel right and two down, the cap in `color`,
/// and a teal outline.
pub open spec fn keycap(m: ImageModel, x: u32, y: u32, width: u32, height: u32, color: Rgba8) -> ImageModel {
    let shadowed = with_rounded_rect(m, (x + 1) as u32, (y + 2) as u32, width, height, 5, Rgba8 { r: 8, g: 23, b: 42, a: 90 });
    let capped = with_rounded_rect(shadowed, x, y, width, height, 5, color);
    with_rounded_outline(capped, x, y, width, height, 5, Rgba8 { r: 14, g: 116, b: 144, a: 160 })
}

/// A plus sign centred on `(cx, cy)`: a bar three wide and eleven long each way.
pub open spec fn plus_sign(m: ImageModel, cx: u32, cy: u32, color: Rgba8) -> ImageModel {
    let upright = with_rect(m, (cx - 1) as u32, (cy - 5) as u32, 3, 11, color);
    with_rect(upright, (cx - 5) as u32, (cy - 1) as u32, 11, 3, color)
}

/// The bar under the space key: three pixels high, with rounded ends.
pub open spec fn hold_bar(m: ImageModel, x: u32, y: u32, width: u32, color: Rgba8) -> ImageModel {
    with_rounded_rect(m, x, y, width, 3, 2, color)
}

/// The window icon: two key caps and a space bar on the shaded background,
/// a plus on the first cap, a dot on the second, a bar on the space bar.
pub open spec fn window_icon_model(shades: Seq<Rgba8>) -> ImageModel {
    let m = background(blank_icon(), shades);
    let m = keycap(m, 12, 17, 17, 17, Rgba8 { r: 232, g: 249, b: 255, a: 255 });
    let m = keycap(m, 35, 17, 17, 17, Rgba8 { r: 214, g: 245, b: 255, a: 255 });
    let m = keycap(m, 14, 38, 36, 10, Rgba8 { r: 241, g: 252, b: 255, a: 255 });
    let m = plus_sign(m, 20, 25, Rgba8 { r: 12, g: 74, b: 110, a: 255 });
    let m = with_disc(m, 43, 25, 3, Rgba8 { r: 8, g: 145, b: 178, a: 255 });
    hold_bar(m, 21, 42, 22, Rgba8 { r: 14, g: 116, b: 144, a: 255 })
}

// ---------------------------------------------------------------------------------------------- //
// What the window icon shows, pixel by pixel.

/// The outline colour of a key cap.
pub open spec fn outline_teal() -> Rgba8 {
    Rgba8 { r: 14, g: 116, b: 144, a: 160 }
}

/// The colour of a key cap's shadow.
pub open spec fn cap_shadow() -> Rgba8 {
    Rgba8 { r: 8, g: 23, b: 42, a: 90 }
}

/// A pixel of the disc lies in the square round its centre.
proof fn lemma_disc_in_square(px: u32, py: u32, cx: u32, cy: u32, radius: u32)
    requires
        in_disc(px, py, cx, cy, radius),
    ensures
        cx - radius <= px <= cx + radius,
        cy - radius <= py <= cy + radius,
{
    let dx: int = px - cx;
    let dy: int = py - cy;
    assert(dx * dx >= 0 && dy * dy >= 0) by (nonlinear_arith);
    assert(dx * dx <= radius * radius);
    assert(dy * dy <= radius * radius);
    assert(-(radius as int) <= dx <= radius) by (nonlinear_arith)
        requires
            dx * dx <= radius * radius,
            radius >= 0,
    ;
    assert(-(radius as int) <= dy <= radius) by (nonlinear_arith)
        requires
            dy * dy <= radius * radius,
            radius >= 0,
    ;
}

/// Whether the pixel belongs to the rounded rectangle: in the rectangle and
/// kept by the rounded test.
pub open spec fn in_rounded(px: u32, py: u32, x: u32, y: u32, width: u32, height: u32, radius: u32) -> bool {
    in_rect(px, py, x, y, width, height) && inside_rounded(px, py, x, y, width, height, radius)
}

/// The first key cap of the window icon, 17 pixels square at (12, 17): its
/// outline pixels are teal; the rest of the cap is its fill colour, but for
/// the plus drawn on it; what its shadow, one right and two down, shows past
/// the cap is the shadow colour.
pub proof fn lemma_first_keycap(shades: Seq<Rgba8>, px: u32, py: u32)
    requires
        shades.len() == 64,
    ensures
        on_border(px, py, 12, 17, 17, 17) && inside_rounded(px, py, 12, 17, 17, 17, 5)
            ==> window_icon_model(shades).pixels[(px, py)] == outline_teal(),
        in_rounded(px, py, 12, 17, 17, 17, 5) && !on_border(px, py, 12, 17, 17, 17) && !in_rect(
            px,
            py,
            19,
            20,
            3,
            11,
        ) && !in_rect(px, py, 15, 24, 11, 3) ==> window_icon_model(shades).pixels[(px, py)] == (Rgba8 {
            r: 232,
            g: 249,
            b: 255,
            a: 255,
        }),
        in_rounded(px, py, 13, 19, 17, 17, 5) && !in_rounded(px, py, 12, 17, 17, 17, 5)
            ==> window_icon_model(shades).pixels[(px, py)] == cap_shadow(),
{
    if in_disc(px, py, 43, 25, 3) {
        lemma_disc_in_square(px, py, 43, 25, 3);
    }
}

/// The second key cap, 17 pixels square at (35, 17): teal outline, its fill
/// colour but for the dot drawn on it, and its shadow past the cap.
pub proof fn lemma_second_keycap(shades: Seq<Rgba8>, px: u32, py: u32)
    requires
        shades.len() == 64,
    ensures
        on_border(px, py, 35, 17, 17, 17) && inside_rounded(px, py, 35, 17, 17, 17, 5)
            ==> window_icon_model(shades).pixels[(px, py)] == outline_teal(),
        in_rounded(px, py, 35, 17, 17, 17, 5) && !on_border(px, py, 35, 17, 17, 17) && !in_disc(
            px,
            py,
            43,
            25,
            3,
        ) ==> window_icon_model(shades).pixels[(px, py)] == (Rgba8 { r: 214, g: 245, b: 255, a: 255 }),
        in_rounded(px, py, 36, 19, 17, 17, 5) && !in_rounded(px, py, 35, 17, 17, 17, 5)
            ==> window_icon_model(shades).pixels[(px, py)] == cap_shadow(),
{
    if in_disc(px, py, 43, 25, 3) {
        lemma_disc_in_square(px, py, 43, 25, 3);
    }
}

/// The space key, 36 by 10 at (14, 38): teal outline, its fill colour but for
/// the bar drawn on it, and its shadow past the key.
pub proof fn lemma_space_keycap(shades: Seq<Rgba8>, px: u32, py: u32)
    requires
        shades.len() == 64,
    ensures
        on_border(px, py, 14, 38, 36, 10) && inside_rounded(px, py, 14, 38, 36, 10, 5)
            ==> window_icon_model(shades).pixels[(px, py)] == outline_teal(),
        in_rounded(px, py, 14, 38, 36, 10, 5) && !on_border(px, py, 14, 38, 36, 10) && !in_rounded(
            px,
            py,
            21,
            42,
            22,
            3,
            2,
        ) ==> window_icon_model(shades).pixels[(px, py)] == (Rgba8 { r: 241, g: 252, b: 255, a: 255 }),
        in_rounded(px, py, 15, 40, 36, 10, 5) && !in_rounded(px, py, 14, 38, 36, 10, 5)
            ==> window_icon_model(shades).pixels[(px, py)] == cap_shadow(),
{
    if in_disc(px, py, 43, 25, 3) {
        lemma_disc_in_square(px, py, 43, 25, 3);
    }
}

/// Whether the pixel is under any key cap or its shadow.
pub open spec fn under_keycaps(px: u32, py: u32) -> bool {
    ||| in_rounded(px, py, 13, 19, 17, 17, 5)
    ||| in_rounded(px, py, 12, 17, 17, 17, 5)
    ||| in_rounded(px, py, 36, 19, 17, 17, 5)
    ||| in_rounded(px, py, 35, 17, 17, 17, 5)
    ||| in_rounded(px, py, 15, 40, 36, 10, 5)
    ||| in_rounded(px, py, 14, 38, 36, 10, 5)
}

/// The marks on the keys: the plus on the first cap, the dot on the second
/// and the bar on the space key each show their colour everywhere they lie.
pub proof fn lemma_key_marks(shades: Seq<Rgba8>, px: u32, py: u32)
    requires
        shades.len() == 64,
    ensures
        in_rect(px, py, 19, 20, 3, 11) || in_rect(px, py, 15, 24, 11, 3)
            ==> window_icon_model(shades).pixels[(px, py)] == (Rgba8 { r: 12, g: 74, b: 110, a: 255 }),
        in_disc(px, py, 43, 25, 3) ==> window_icon_model(shades).pixels[(px, py)] == (Rgba8 {
            r: 8,
            g: 145,
            b: 178,
            a: 255,
        }),
        in_rounded(px, py, 21, 42, 22, 3, 2) ==> window_icon_model(shades).pixels[(px, py)] == (Rgba8 {
            r: 14,
            g: 116,
            b: 144,
            a: 255,
        }),
{
    if in_disc(px, py, 43, 25, 3) {
        lemma_disc_in_square(px, py, 43, 25, 3);
    }
}

/// The background of the window icon: inside the rounded square, away from
/// its outline and from the keys and their marks, row `py` shows `shades[py]`;
/// on the outline it is light cyan; outside the square and the keys, the
/// icon is transparent.
pub proof fn lemma_icon_background(shades: Seq<Rgba8>, px: u32, py: u32)
    requires
        shades.len() == 64,
        px < 64,
        py < 64,
        !under_keycaps(px, py),
        !in_disc(px, py, 43, 25, 3),
        !in_rect(px, py, 19, 20, 3, 11),
        !in_rect(px, py, 15, 24, 11, 3),
        !in_rounded(px, py, 21, 42, 22, 3, 2),
    ensures
        inside_rounded(px, py, 3, 3, 58, 58, 14) && !on_border(px, py, 3, 3, 58, 58)
            ==> window_icon_model(shades).pixels[(px, py)] == shades[py as int],
        inside_rounded(px, py, 3, 3, 58, 58, 14) && on_border(px, py, 3, 3, 58, 58)
            ==> window_icon_model(shades).pixels[(px, py)] == (Rgba8 { r: 103, g: 232, b: 249, a: 180 }),
        !inside_rounded(px, py, 3, 3, 58, 58, 14) ==> window_icon_model(shades).pixels[(px, py)] == (Rgba8 {
            r: 0,
            g: 0,
            b: 0,
            a: 0,
        }),
{
}

/// The window icon is 64 pixels square and has a colour at each of its pixels.
pub proof fn lemma_icon_size(shades: Seq<Rgba8>)
    requires
        shades.len() == 64,
    ensures
        window_icon_model(shades).width == 64,
        window_icon_model(shades).height == 64,
        covers(window_icon_model(shades)),
{
}

// ---------------------------------------------------------------------------------------------- //
// Facts about small shapes.

proof fn lemma_small_test_defined(px: u32, py: u32, x: u32, y: u32, width: u32, height: u32, radius: u32)
    requires
        px <= 4096,
        py <= 4096,
        x <= 4096,
        y <= 4096,
        width <= 4096,
        height <= 4096,
        radius <= 4096,
        x + width >= radius + 1,
        y + height >= radius + 1,
    ensures
        rounded_test_defined(px, py, x, y, width, height, radius),
{
    let dx = corner_offset(px, x, width, radius);
    let dy = corner_offset(py, y, height, radius);
    assert(dx * dx <= 16384 * 16384) by (nonlinear_arith)
        requires
            -16384 <= dx <= 16384,
    ;
    assert(dy * dy <= 16384 * 16384) by (nonlinear_arith)
        requires
            -16384 <= dy <= 16384,
    ;
    assert(radius * radius <= 4096 * 4096) by (nonlinear_arith)
        requires
            radius <= 4096,
    ;
}

proof fn lemma_small_rect_fits(m: ImageModel, x: u32, y: u32, width: u32, height: u32, radius: u32)
    requires
        m.width <= 4096,
        m.height <= 4096,
        x + width <= m.width,
        y + height <= m.height,
        radius <= 4096,
        width >= 1,
        height >= 1,
        x + width >= radius + 1,
        y + height >= radius + 1,
    ensures
        rounded_rect_fits(m, x, y, width, height, radius),
        rounded_outline_fits(m, x, y, width, height, radius),
{
    assert forall|px: u32, py: u32| #[trigger] in_rect(px, py, x, y, width, height) implies rounded_test_defined(
        px,
        py,
        x,
        y,
        width,
        height,
        radius,
    ) by {
        lemma_small_test_defined(px, py, x, y, width, height, radius);
    }
    assert forall|px: u32| #[trigger] in_rect(px, y, x, y, width, 1) implies {
        &&& rounded_test_defined(px, y, x, y, width, height, radius)
        &&& rounded_test_defined(px, (y + height - 1) as u32, x, y, width, height, radius)
    } by {
        lemma_small_test_defined(px, y, x, y, width, height, radius);
        lemma_small_test_defined(px, (y + height - 1) as u32, x, y, width, height, radius);
    }
    assert forall|py: u32| #[trigger] in_rect(x, py, x, y, 1, height) implies {
        &&& rounded_test_defined(x, py, x, y, width, height, radius)
        &&& rounded_test_defined((x + width - 1) as u32, py, x, y, width, height, radius)
    } by {
        lemma_small_test_defined(x, py, x, y, width, height, radius);
        lemma_small_test_defined((x + width - 1) as u32, py, x, y, width, height, radius);
    }
}

// ---------------------------------------------------------------------------------------------- //
// Drawing.

/// Paints the background: the rounded square in `shades`, row by row, and its outline.
fn draw_background(icon: &mut IconImage, shades: &Vec<Rgba8>)
    requires
        covers(old(icon)@),
        old(icon)@.width == ICON_SIZE,
        old(icon)@.height == ICON_SIZE,
        shades@.len() == ICON_SIZE,
    ensures
        covers(final(icon)@),
        final(icon)@ == background(old(icon)@, shades@),
{
    let ghost start = icon@;
    for y in 0..ICON_SIZE
        invariant
            covers(icon@),
            icon@.width == 64,
            icon@.height == 64,
            start.width == 64,
            start.height == 64,
            shades@.len() == 64,
            icon@.pixels == Map::new(
                |p: (u32, u32)| start.pixels.dom().contains(p),
                |p: (u32, u32)|
                    if p.0 < 64 && p.1 < y && inside_rounded(p.0, p.1, 3, 3, 58, 58, 14) {
                        shades@[p.1 as int]
                    } else {
                        start.pixels[p]
                    },
            ),
    {
        for x in 0..ICON_SIZE
            invariant
                y < 64,
                covers(icon@),
                icon@.width == 64,
                icon@.height == 64,
                start.width == 64,
                start.height == 64,
                shades@.len() == 64,
                icon@.pixels == Map::new(
                    |p: (u32, u32)| start.pixels.dom().contains(p),
                    |p: (u32, u32)|
                        if p.0 < 64 && (p.1 < y || (p.1 == y && p.0 < x)) && inside_rounded(p.0, p.1, 3, 3, 58, 58, 14) {
                            shades@[p.1 as int]
                        } else {
                            start.pixels[p]
                        },
                ),
        {
            proof {
                lemma_small_test_defined(x, y, 3, 3, 58, 58, 14);
            }
            if inside_rounded_rect(x, y, 3, 3, 58, 58, 14) {
                icon.put_pixel(x, y, shades[y as usize]);
            }
            assert(icon@.pixels =~= Map::new(
                |p: (u32, u32)| start.pixels.dom().contains(p),
                |p: (u32, u32)|
                    if p.0 < 64 && (p.1 < y || (p.1 == y && p.0 < x + 1)) && inside_rounded(p.0, p.1, 3, 3, 58, 58, 14) {
                        shades@[p.1 as int]
                    } else {
                        start.pixels[p]
                    },
            ));
        }
        assert(icon@.pixels =~= Map::new(
            |p: (u32, u32)| start.pixels.dom().contains(p),
            |p: (u32, u32)|
                if p.0 < 64 && p.1 < y + 1 && inside_rounded(p.0, p.1, 3, 3, 58, 58, 14) {
                    shades@[p.1 as int]
                } else {
                    start.pixels[p]
                },
        ));
    }
    proof {
        lemma_small_rect_fits(icon@, 3, 3, 58, 58, 14);
    }
    stroke_rounded_rect(icon, 3, 3, 58, 58, 14, rgba(103, 232, 249, 180));
}

/// Paints a key cap with its shadow and outline.
fn draw_keycap(icon: &mut IconImage, x: u32, y: u32, width: u32, height: u32, color: Rgba8)
    requires
        covers(old(icon)@),
        old(icon)@.width <= 4096,
        old(icon)@.height <= 4096,
        x + 1 + width <= old(icon)@.width,
        y + 2 + height <= old(icon)@.height,
        width > 5,
        height > 5,
    ensures
        covers(final(icon)@),
        final(icon)@ == keycap(old(icon)@, x, y, width, height, color),
{
    proof {
        lemma_small_rect_fits(icon@, (x + 1) as u32, (y + 2) as u32, width, height, 5);
    }
    fill_rounded_rect(icon, x + 1, y + 2, width, height, 5, rgba(8, 23, 42, 90));
    proof {
        lemma_small_rect_fits(icon@, x, y, width, height, 5);
    }
    fill_rounded_rect(icon, x, y, width, height, 5, color);
    stroke_rounded_rect(icon, x, y, width, height, 5, rgba(14, 116, 144, 160));
}

/// Paints a plus sign centred on `(center_x, center_y)`.
fn draw_plus(icon: &mut IconImage, center_x: u32, center_y: u32, color: Rgba8)
    requires
        covers(old(icon)@),
        center_x >= 5,
        center_y >= 5,
        center_x + 6 <= old(icon)@.width,
        center_y + 6 <= old(icon)@.height,
    ensures
        covers(final(icon)@),
        final(icon)@ == plus_sign(old(icon)@, center_x, center_y, color),
{
    fill_rect(icon, center_x - 1, center_y - 5, 3, 11, color);
    fill_rect(icon, center_x - 5, center_y - 1, 11, 3, color);
}

/// Paints the bar under the space key.
fn draw_hold_bar(icon: &mut IconImage, x: u32, y: u32, width: u32, color: Rgba8)
    requires
        covers(old(icon)@),
        old(icon)@.width <= 4096,
        old(icon)@.height <= 4096,
        x + width <= old(icon)@.width,
        y + 3 <= old(icon)@.height,
        width >= 1,
        x + width >= 3,
    ensures
        covers(final(icon)@),
        final(icon)@ == hold_bar(old(icon)@, x, y, width, color),
{
    proof {
        lemma_small_rect_fits(icon@, x, y, width, 3, 2);
    }
    fill_rounded_rect(icon, x, y, width, 3, 2, color);
}

/// Draws the window icon, with row `y` of the background in `shades[y]`.
pub fn build_window_icon(shades: &Vec<Rgba8>) -> (icon: IconImage)
    requires
        shades@.len() == ICON_SIZE,
    ensures
        covers(icon@),
        icon@ == window_icon_model(shades@),
{
    let mut icon = from_pixel(ICON_SIZE, ICON_SIZE, rgba(0, 0, 0, 0));
    assert(icon@.pixels =~= blank_icon().pixels);

    draw_background(&mut icon, shades);
    draw_keycap(&mut icon, 12, 17, 17, 17, rgba(232, 249, 255, 255));
    draw_keycap(&mut icon, 35, 17, 17, 17, rgba(214, 245, 255, 255));
    draw_keycap(&mut icon, 14, 38, 36, 10, rgba(241, 252, 255, 255));
    draw_plus(&mut icon, 20, 25, rgba(12, 74, 110, 255));
    draw_dot(&mut icon, 43, 25, 3, rgba(8, 145, 178, 255));
    draw_hold_bar(&mut icon, 21, 42, 22, rgba(14, 116, 144, 255));

    icon
}

/// The window icon scaled to `DESKTOP_ICON_SIZE` with the Lanczos3 filter and
/// encoded as PNG, which always succeeds: the bytes are the PNG encoding of
/// an image of that size.
/// Its pixels are those that the resampler gave, which nothing here fixes.
pub fn desktop_icon_png(shades: &Vec<Rgba8>) -> (png: Result<Vec<u8>, IconError>)
    requires
        shades@.len() == ICON_SIZE,
    ensures
        png is Ok,
        png matches Ok(bytes) ==> exists|image: ImageModel|
            #![trigger png_bytes(image)]
            image.width == DESKTOP_ICON_SIZE && image.height == DESKTOP_ICON_SIZE && covers(image)
                && bytes@ == png_bytes(image),
{
    let icon = build_window_icon(shades);
    let resized = icon.resized(DESKTOP_ICON_SIZE, DESKTOP_ICON_SIZE);
    match resized.encode_png() {
        Ok(bytes) => Ok(bytes),
        Err(error) => Err(IconError::EncodePng(error)),
    }
}

} // verus!
