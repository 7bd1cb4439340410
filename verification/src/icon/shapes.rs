use vstd::prelude::*;

use crate::icon::canvas::{covers, painted, IconImage, ImageModel, Rgba8};

verus! {

// ---------------------------------------------------------------------------------------------- //
// The rounded-rectangle test.

/// Whether `(px, py)` lies in the band of the rectangle that runs between its
/// rounded corners, across or down.
pub open spec fn in_bands(px: u32, py: u32, x: u32, y: u32, width: u32, height: u32, radius: u32) -> bool {
    ||| (x + radius <= px && px <= x + width - radius - 1)
    ||| (y + radius <= py && py <= y + height - radius - 1)
}

/// How far `p` lies from the nearer corner centre along one axis.
pub open spec fn corner_offset(p: u32, start: u32, extent: u32, radius: u32) -> int {
    let low = start + radius;
    let high = start + extent - radius - 1;
    if p < low {
        p - low
    } else {
        p - high
    }
}

/// The squared distance of `(px, py)` from the nearer corner centre.
pub open spec fn corner_distance2(px: u32, py: u32, x: u32, y: u32, width: u32, height: u32, radius: u32) -> int {
    let dx = corner_offset(px, x, width, radius);
    let dy = corner_offset(py, y, height, radius);
    dx * dx + dy * dy
}

/// Whether `(px, py)` lies in the rectangle at `(x, y)` of the given size whose
/// corners are rounded with `radius`: in one of its bands, or within `radius`
/// of the nearer corner centre.
pub open spec fn inside_rounded(px: u32, py: u32, x: u32, y: u32, width: u32, height: u32, radius: u32) -> bool {
    in_bands(px, py, x, y, width, height, radius) || corner_distance2(
        px,
        py,
        x,
        y,
        width,
        height,
        radius,
    ) <= radius * radius
}

/// When the test can be computed: the corner centres fit a `u32`, and away
/// from the bands the squared distances fit an `i64`.
pub open spec fn rounded_test_defined(px: u32, py: u32, x: u32, y: u32, width: u32, height: u32, radius: u32) -> bool {
    &&& x + radius <= u32::MAX
    &&& x + width <= u32::MAX
    &&& x + width >= radius + 1
    &&& y + radius <= u32::MAX
    &&& y + height <= u32::MAX
    &&& y + height >= radius + 1
    &&& !in_bands(px, py, x, y, width, height, radius) ==> {
        let dx = corner_offset(px, x, width, radius);
        let dy = corner_offset(py, y, height, radius);
        &&& dx * dx <= i64::MAX
        &&& dy * dy <= i64::MAX
        &&& dx * dx + dy * dy <= i64::MAX
        &&& radius * radius <= i64::MAX
    }
}

/// Whether the pixel `(px, py)` belongs to the rectangle at `(x, y)` of size
/// `width` by `height` whose corners are rounded with `radius`.
pub fn inside_rounded_rect(px: u32, py: u32, x: u32, y: u32, width: u32, height: u32, radius: u32) -> (inside: bool)
    requires
        rounded_test_defined(px, py, x, y, width, height, radius),
    ensures
        inside == inside_rounded(px, py, x, y, width, height, radius),
{
    let left = x + radius;
    let right = x + width - radius - 1;
    let top = y + radius;
    let bottom = y + height - radius - 1;

    if (left <= px && px <= right) || (top <= py && py <= bottom) {
        return true;
    }
    let corner_x = if px < left {
        left
    } else {
        right
    };
    let corner_y = if py < top {
        top
    } else {
        bottom
    };
    let dx = px as i64 - corner_x as i64;
    let dy = py as i64 - corner_y as i64;
    assert(dx == corner_offset(px, x, width, radius));
    assert(dy == corner_offset(py, y, height, radius));
    assert(dx * dx >= 0 && dy * dy >= 0 && (radius as int) * (radius as int) >= 0) by (nonlinear_arith);
    dx * dx + dy * dy <= (radius as i64 * radius as i64)
}

/// The coordinate that `p` is mirrored to across the middle of the span of
/// `extent` pixels from `start`.
pub open spec fn mirrored(p: u32, start: u32, extent: u32) -> u32 {
    (2 * start + extent - 1 - p) as u32
}

/// Mirroring a point along an axis moves its offset from the nearer corner
/// centre to the other side, when the span is at least twice the radius.
proof fn lemma_offset_mirrored(p: u32, start: u32, extent: u32, radius: u32)
    requires
        start <= p < start + extent,
        start + extent <= u32::MAX,
        2 * radius <= extent,
    ensures
        mirrored(p, start, extent) == 2 * start + extent - 1 - p,
        start <= mirrored(p, start, extent) < start + extent,
        (start + radius <= p && p <= start + extent - radius - 1) == (start + radius <= mirrored(
            p,
            start,
            extent,
        ) && mirrored(p, start, extent) <= start + extent - radius - 1),
        !(start + radius <= p && p <= start + extent - radius - 1) ==> corner_offset(
            mirrored(p, start, extent),
            start,
            extent,
            radius,
        ) == -corner_offset(p, start, extent, radius),
{
    let m: int = 2 * start + extent - 1 - p;
    assert(0 <= m <= u32::MAX);
    assert(mirrored(p, start, extent) == m);
}

/// The rounded rectangle is symmetric: mirroring a pixel of it left to right
/// keeps it in or out of the shape when the rectangle is at least `2 * radius`
/// wide, and mirroring top to bottom does when it is that high.
pub proof fn lemma_rounded_mirror(px: u32, py: u32, x: u32, y: u32, width: u32, height: u32, radius: u32)
    requires
        x <= px < x + width,
        y <= py < y + height,
        x + width <= u32::MAX,
        y + height <= u32::MAX,
    ensures
        2 * radius <= width ==> inside_rounded(mirrored(px, x, width), py, x, y, width, height, radius)
            == inside_rounded(px, py, x, y, width, height, radius),
        2 * radius <= height ==> inside_rounded(px, mirrored(py, y, height), x, y, width, height, radius)
            == inside_rounded(px, py, x, y, width, height, radius),
{
    if 2 * radius <= width {
        lemma_offset_mirrored(px, x, width, radius);
        let dx: int = corner_offset(px, x, width, radius);
        assert((-dx) * (-dx) == dx * dx) by (nonlinear_arith);
    }
    if 2 * radius <= height {
        lemma_offset_mirrored(py, y, height, radius);
        let dy: int = corner_offset(py, y, height, radius);
        assert((-dy) * (-dy) == dy * dy) by (nonlinear_arith);
    }
}

// ---------------------------------------------------------------------------------------------- //
// Regions.

/// Whether `(px, py)` lies in the rectangle at `(x, y)` of size `width` by `height`.
pub open spec fn in_rect(px: u32, py: u32, x: u32, y: u32, width: u32, height: u32) -> bool {
    x <= px && px < x + width && y <= py && py < y + height
}

/// Whether `(px, py)` lies on the outer ring of pixels of that rectangle.
pub open spec fn on_border(px: u32, py: u32, x: u32, y: u32, width: u32, height: u32) -> bool {
    ||| (x <= px && px < x + width && (py == y || py == y + height - 1))
    ||| (y <= py && py < y + height && (px == x || px == x + width - 1))
}

/// Whether `(px, py)` lies within `radius` of `(cx, cy)`.
pub open spec fn in_disc(px: u32, py: u32, cx: u32, cy: u32, radius: u32) -> bool {
    (px - cx) * (px - cx) + (py - cy) * (py - cy) <= radius * radius
}

/// `m` with the rectangle painted.
pub open spec fn with_rect(m: ImageModel, x: u32, y: u32, width: u32, height: u32, color: Rgba8) -> ImageModel {
    painted(m, |px: u32, py: u32| in_rect(px, py, x, y, width, height), color)
}

/// `m` with the rounded rectangle painted.
pub open spec fn with_rounded_rect(m: ImageModel, x: u32, y: u32, width: u32, height: u32, radius: u32, color: Rgba8) -> ImageModel {
    painted(
        m,
        |px: u32, py: u32|
            in_rect(px, py, x, y, width, height) && inside_rounded(px, py, x, y, width, height, radius),
        color,
    )
}

/// `m` with the outline of the rounded rectangle painted: the pixels of the
/// rectangle's outer ring that the rounded shape keeps.
pub open spec fn with_rounded_outline(m: ImageModel, x: u32, y: u32, width: u32, height: u32, radius: u32, color: Rgba8) -> ImageModel {
    painted(
        m,
        |px: u32, py: u32|
            on_border(px, py, x, y, width, height) && inside_rounded(px, py, x, y, width, height, radius),
        color,
    )
}

/// `m` with the disc painted.
pub open spec fn with_disc(m: ImageModel, cx: u32, cy: u32, radius: u32, color: Rgba8) -> ImageModel {
    painted(m, |px: u32, py: u32| in_disc(px, py, cx, cy, radius), color)
}

/// The loops over the rectangle can run, the rounded test can be computed at
/// each of its pixels, and each pixel that the test keeps lies in the image.
pub open spec fn rounded_rect_fits(m: ImageModel, x: u32, y: u32, width: u32, height: u32, radius: u32) -> bool {
    &&& y + height <= u32::MAX
    &&& height > 0 ==> x + width <= u32::MAX
    &&& forall|px: u32, py: u32|
        #![trigger in_rect(px, py, x, y, width, height)]
        in_rect(px, py, x, y, width, height) ==> {
            &&& rounded_test_defined(px, py, x, y, width, height, radius)
            &&& (inside_rounded(px, py, x, y, width, height, radius) ==> px < m.width && py < m.height)
        }
}

/// The outline's rounded test can be computed at each pixel of the outer
/// ring, and each pixel that it keeps lies in the image.
pub open spec fn rounded_outline_fits(m: ImageModel, x: u32, y: u32, width: u32, height: u32, radius: u32) -> bool {
    &&& x + width <= u32::MAX
    &&& y + height <= u32::MAX
    &&& forall|px: u32|
        #![trigger in_rect(px, y, x, y, width, 1)]
        in_rect(px, y, x, y, width, 1) ==> {
            &&& rounded_test_defined(px, y, x, y, width, height, radius)
            &&& rounded_test_defined(px, (y + height - 1) as u32, x, y, width, height, radius)
            &&& (inside_rounded(px, y, x, y, width, height, radius) ==> px < m.width && y < m.height)
            &&& (inside_rounded(px, (y + height - 1) as u32, x, y, width, height, radius) ==> px < m.width
                && y + height - 1 < m.height)
        }
    &&& forall|py: u32|
        #![trigger in_rect(x, py, x, y, 1, height)]
        in_rect(x, py, x, y, 1, height) ==> {
            &&& rounded_test_defined(x, py, x, y, width, height, radius)
            &&& rounded_test_defined((x + width - 1) as u32, py, x, y, width, height, radius)
            &&& (inside_rounded(x, py, x, y, width, height, radius) ==> x < m.width && py < m.height)
            &&& (inside_rounded((x + width - 1) as u32, py, x, y, width, height, radius) ==> x + width - 1
                < m.width && py < m.height)
        }
}

// ---------------------------------------------------------------------------------------------- //
// Painting.

/// Paints every pixel of the rectangle.
pub fn fill_rect(icon: &mut IconImage, x: u32, y: u32, width: u32, height: u32, color: Rgba8)
    requires
        covers(old(icon)@),
        y + height <= u32::MAX,
        height > 0 ==> x + width <= u32::MAX,
        width > 0 && height > 0 ==> x + width <= old(icon)@.width && y + height <= old(icon)@.height,
    ensures
        covers(final(icon)@),
        final(icon)@ == with_rect(old(icon)@, x, y, width, height, color),
{
    let ghost start = icon@;
    for py in y..y + height
        invariant
            covers(icon@),
            height > 0 ==> x + width <= u32::MAX,
            width > 0 && height > 0 ==> x + width <= start.width && y + height <= start.height,
            icon@.width == start.width,
            icon@.height == start.height,
            icon@.pixels == with_rect(start, x, y, width, (py - y) as u32, color).pixels,
    {
        for px in x..x + width
            invariant
                y <= py < y + height,
                covers(icon@),
                width > 0 ==> x + width <= start.width && y + height <= start.height,
                icon@.width == start.width,
                icon@.height == start.height,
                icon@.pixels == painted(
                    start,
                    |a: u32, b: u32| in_rect(a, b, x, y, width, (py - y) as u32) || (b == py && x <= a && a < px),
                    color,
                ).pixels,
        {
            icon.put_pixel(px, py, color);
            assert(icon@.pixels =~= painted(
                start,
                |a: u32, b: u32| in_rect(a, b, x, y, width, (py - y) as u32) || (b == py && x <= a && a < px + 1),
                color,
            ).pixels);
        }
        assert(icon@.pixels =~= with_rect(start, x, y, width, (py + 1 - y) as u32, color).pixels);
    }
    assert(icon@.pixels =~= with_rect(start, x, y, width, height, color).pixels);
}

/// Paints every pixel of the rectangle that the rounded shape keeps.
pub fn fill_rounded_rect(icon: &mut IconImage, x: u32, y: u32, width: u32, height: u32, radius: u32, color: Rgba8)
    requires
        covers(old(icon)@),
        rounded_rect_fits(old(icon)@, x, y, width, height, radius),
    ensures
        covers(final(icon)@),
        final(icon)@ == with_rounded_rect(old(icon)@, x, y, width, height, radius, color),
{
    let ghost start = icon@;
    for py in y..y + height
        invariant
            covers(icon@),
            rounded_rect_fits(start, x, y, width, height, radius),
            icon@.width == start.width,
            icon@.height == start.height,
            icon@.pixels == painted(
                start,
                |a: u32, b: u32|
                    in_rect(a, b, x, y, width, (py - y) as u32) && inside_rounded(a, b, x, y, width, height, radius),
                color,
            ).pixels,
    {
        for px in x..x + width
            invariant
                y <= py < y + height,
                covers(icon@),
                rounded_rect_fits(start, x, y, width, height, radius),
                icon@.width == start.width,
                icon@.height == start.height,
                icon@.pixels == painted(
                    start,
                    |a: u32, b: u32|
                        (in_rect(a, b, x, y, width, (py - y) as u32) || (b == py && x <= a && a < px))
                            && inside_rounded(a, b, x, y, width, height, radius),
                    color,
                ).pixels,
        {
            assert(in_rect(px, py, x, y, width, height));
            if inside_rounded_rect(px, py, x, y, width, height, radius) {
                icon.put_pixel(px, py, color);
            }
            assert(icon@.pixels =~= painted(
                start,
                |a: u32, b: u32|
                    (in_rect(a, b, x, y, width, (py - y) as u32) || (b == py && x <= a && a < px + 1))
                        && inside_rounded(a, b, x, y, width, height, radius),
                color,
            ).pixels);
        }
        assert(icon@.pixels =~= painted(
            start,
            |a: u32, b: u32|
                in_rect(a, b, x, y, width, (py + 1 - y) as u32) && inside_rounded(a, b, x, y, width, height, radius),
            color,
        ).pixels);
    }
    assert(icon@.pixels =~= with_rounded_rect(start, x, y, width, height, radius, color).pixels);
}

/// Paints the pixels of the rectangle's outer ring that the rounded shape keeps.
pub fn stroke_rounded_rect(icon: &mut IconImage, x: u32, y: u32, width: u32, height: u32, radius: u32, color: Rgba8)
    requires
        covers(old(icon)@),
        rounded_outline_fits(old(icon)@, x, y, width, height, radius),
    ensures
        covers(final(icon)@),
        final(icon)@ == with_rounded_outline(old(icon)@, x, y, width, height, radius, color),
{
    let ghost start = icon@;
    for px in x..x + width
        invariant
            covers(icon@),
            rounded_outline_fits(start, x, y, width, height, radius),
            icon@.width == start.width,
            icon@.height == start.height,
            icon@.pixels == painted(
                start,
                |a: u32, b: u32|
                    (x <= a && a < px && (b == y || b == y + height - 1)) && inside_rounded(a, b, x, y, width, height, radius),
                color,
            ).pixels,
    {
        assert(in_rect(px, y, x, y, width, 1));
        if inside_rounded_rect(px, y, x, y, width, height, radius) {
            icon.put_pixel(px, y, color);
        }
        let bottom = y + height - 1;
        if inside_rounded_rect(px, bottom, x, y, width, height, radius) {
            icon.put_pixel(px, bottom, color);
        }
        assert(icon@.pixels =~= painted(
            start,
            |a: u32, b: u32|
                (x <= a && a < px + 1 && (b == y || b == y + height - 1)) && inside_rounded(a, b, x, y, width, height, radius),
            color,
        ).pixels);
    }
    for py in y..y + height
        invariant
            covers(icon@),
            rounded_outline_fits(start, x, y, width, height, radius),
            icon@.width == start.width,
            icon@.height == start.height,
            icon@.pixels == painted(
                start,
                |a: u32, b: u32|
                    ((x <= a && a < x + width && (b == y || b == y + height - 1)) || (y <= b && b < py && (a == x
                        || a == x + width - 1))) && inside_rounded(a, b, x, y, width, height, radius),
                color,
            ).pixels,
    {
        assert(in_rect(x, py, x, y, 1, height));
        if inside_rounded_rect(x, py, x, y, width, height, radius) {
            icon.put_pixel(x, py, color);
        }
        let right = x + width - 1;
        if inside_rounded_rect(right, py, x, y, width, height, radius) {
            icon.put_pixel(right, py, color);
        }
        assert(icon@.pixels =~= painted(
            start,
            |a: u32, b: u32|
                ((x <= a && a < x + width && (b == y || b == y + height - 1)) || (y <= b && b < py + 1 && (a == x
                    || a == x + width - 1))) && inside_rounded(a, b, x, y, width, height, radius),
            color,
        ).pixels);
    }
    assert(icon@.pixels =~= with_rounded_outline(start, x, y, width, height, radius, color).pixels);
}

proof fn lemma_outside_square_not_in_disc(p: u32, c: u32, q: u32, d: u32, radius: u32)
    requires
        p < c - radius || p > c + radius,
    ensures
        (p - c) * (p - c) + (q - d) * (q - d) > radius * radius,
{
    let a = p - c;
    let b = q - d;
    assert(a * a > radius * radius) by (nonlinear_arith)
        requires
            a < -(radius as int) || a > radius,
            radius >= 0,
    ;
    assert(b * b >= 0) by (nonlinear_arith);
}

/// Paints the disc of `radius` around `(center_x, center_y)`.
pub fn draw_dot(icon: &mut IconImage, center_x: u32, center_y: u32, radius: u32, color: Rgba8)
    requires
        covers(old(icon)@),
        radius * radius <= u32::MAX,
        radius <= center_x,
        radius <= center_y,
        center_x + radius < old(icon)@.width,
        center_y + radius < old(icon)@.height,
    ensures
        covers(final(icon)@),
        final(icon)@ == with_disc(old(icon)@, center_x, center_y, radius, color),
{
    let ghost start = icon@;
    let radius_squared = (radius * radius) as i64;
    let top = center_y - radius;
    let bottom = center_y + radius;
    let left = center_x - radius;
    let right = center_x + radius;
    let mut y = top;
    while y <= bottom
        invariant
            covers(icon@),
            top <= y <= bottom + 1,
            top == center_y - radius,
            bottom == center_y + radius,
            left == center_x - radius,
            right == center_x + radius,
            radius_squared == radius * radius,
            radius * radius <= u32::MAX,
            right < start.width,
            bottom < start.height,
            icon@.width == start.width,
            icon@.height == start.height,
            icon@.pixels == painted(
                start,
                |a: u32, b: u32| left <= a <= right && top <= b < y && in_disc(a, b, center_x, center_y, radius),
                color,
            ).pixels,
        decreases bottom + 1 - y,
    {
        let mut x = left;
        while x <= right
            invariant
                covers(icon@),
                top <= y <= bottom,
                left <= x <= right + 1,
                top == center_y - radius,
                bottom == center_y + radius,
                left == center_x - radius,
                right == center_x + radius,
                radius_squared == radius * radius,
                radius * radius <= u32::MAX,
            radius * radius <= u32::MAX,
                right < start.width,
                bottom < start.height,
                icon@.width == start.width,
                icon@.height == start.height,
                icon@.pixels == painted(
                    start,
                    |a: u32, b: u32|
                        left <= a <= right && (top <= b < y || (b == y && a < x)) && in_disc(a, b, center_x, center_y, radius),
                    color,
                ).pixels,
            decreases right + 1 - x,
        {
            let dx = x as i64 - center_x as i64;
            let dy = y as i64 - center_y as i64;
            assert(dx * dx <= radius * radius) by (nonlinear_arith)
                requires
                    -(radius as int) <= dx <= radius,
            ;
            assert(dy * dy <= radius * radius) by (nonlinear_arith)
                requires
                    -(radius as int) <= dy <= radius,
            ;
            assert(dx * dx >= 0 && dy * dy >= 0) by (nonlinear_arith);
            assert(dx * dx + dy * dy <= 2 * u32::MAX);
            if dx * dx + dy * dy <= radius_squared {
                icon.put_pixel(x, y, color);
            }
            assert(icon@.pixels =~= painted(
                start,
                |a: u32, b: u32|
                    left <= a <= right && (top <= b < y || (b == y && a < x + 1)) && in_disc(a, b, center_x, center_y, radius),
                color,
            ).pixels);
            x = x + 1;
        }
        assert(icon@.pixels =~= painted(
            start,
            |a: u32, b: u32| left <= a <= right && top <= b < y + 1 && in_disc(a, b, center_x, center_y, radius),
            color,
        ).pixels);
        y = y + 1;
    }
    assert forall|a: u32, b: u32| #[trigger] in_disc(a, b, center_x, center_y, radius) implies left <= a <= right && top <= b <= bottom by {
        if a < left || a > right {
            lemma_outside_square_not_in_disc(a, center_x, b, center_y, radius);
        }
        if b < top || b > bottom {
            lemma_outside_square_not_in_disc(b, center_y, a, center_x, radius);
        }
    }
    assert(icon@.pixels =~= with_disc(start, center_x, center_y, radius, color).pixels);
}

} // verus!
