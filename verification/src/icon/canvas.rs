use vstd::prelude::*;

verus! {

/// An 8-bit red, green, blue and alpha colour.
#[derive(Clone, Copy, Debug, PartialEq, Eq, Structural)]
pub struct Rgba8 {
    pub r: u8,
    pub g: u8,
    pub b: u8,
    pub a: u8,
}

/// A colour from its four channels.
pub fn rgba(r: u8, g: u8, b: u8, a: u8) -> (color: Rgba8)
    ensures
        color == (Rgba8 { r, g, b, a }),
{
    Rgba8 { r, g, b, a }
}

/// An image as values: its size and the colour of every pixel in it.
pub struct ImageModel {
    pub width: u32,
    pub height: u32,
    pub pixels: Map<(u32, u32), Rgba8>,
}

/// The pixels of an image are exactly those left of its width and above its height.
pub open spec fn covers(m: ImageModel) -> bool {
    forall|p: (u32, u32)| #[trigger] m.pixels.dom().contains(p) <==> (p.0 < m.width && p.1 < m.height)
}

/// `m` with every pixel of the region painted `color`.
pub open spec fn painted(m: ImageModel, region: spec_fn(u32, u32) -> bool, color: Rgba8) -> ImageModel {
    ImageModel {
        width: m.width,
        height: m.height,
        pixels: Map::new(
            |p: (u32, u32)| m.pixels.dom().contains(p),
            |p: (u32, u32)| if region(p.0, p.1) { color } else { m.pixels[p] },
        ),
    }
}

/// The channel `channel` (0 red, 1 green, 2 blue, 3 alpha) of a colour.
pub open spec fn channel(color: Rgba8, channel: int) -> u8 {
    if channel == 0 {
        color.r
    } else if channel == 1 {
        color.g
    } else if channel == 2 {
        color.b
    } else {
        color.a
    }
}

/// The bytes of an image laid out row by row, four channels per pixel.
pub open spec fn raw_layout(m: ImageModel) -> Seq<u8> {
    Seq::new(
        (4 * m.width * m.height) as nat,
        |k: int| {
            let index = k / 4;
            let x = (index % (m.width as int)) as u32;
            let y = (index / (m.width as int)) as u32;
            channel(m.pixels[(x, y)], k % 4)
        },
    )
}

/// An RGBA image with 8 bits per channel, held in the `image` crate's buffer.
#[verifier::external_body]
pub struct IconImage {
    inner: image::RgbaImage,
}

/// The width an image was made with.
pub uninterp spec fn icon_width(image: IconImage) -> u32;

/// The height an image was made with.
pub uninterp spec fn icon_height(image: IconImage) -> u32;

/// The colour of every pixel of an image.
pub uninterp spec fn icon_pixels(image: IconImage) -> Map<(u32, u32), Rgba8>;

/// The bytes that the `image` crate's PNG encoder writes for an image.
pub uninterp spec fn png_bytes(image: ImageModel) -> Seq<u8>;

impl View for IconImage {
    type V = ImageModel;

    open spec fn view(&self) -> ImageModel {
        ImageModel { width: icon_width(*self), height: icon_height(*self), pixels: icon_pixels(*self) }
    }
}

#[verifier::external_type_specification]
#[verifier::external_body]
pub struct ExImageError(image::ImageError);

/// Calls `image::ImageBuffer::from_pixel`.  Claimed: the image has the given
/// size and every pixel has the given colour.  It panics when its byte
/// length does not fit a `usize` or is more than a vector can hold, which
/// `requires` leaves out.
#[verifier::external_body]
pub fn from_pixel(width: u32, height: u32, pixel: Rgba8) -> (image: IconImage)
    requires
        4 * width * height <= isize::MAX,
    ensures
        icon_width(image) == width,
        icon_height(image) == height,
        covers(image@),
        forall|p: (u32, u32)| #[trigger] icon_pixels(image).dom().contains(p) ==> icon_pixels(image)[p] == pixel,
{
    IconImage {
        inner: image::RgbaImage::from_pixel(
            width,
            height,
            image::Rgba([pixel.r, pixel.g, pixel.b, pixel.a]),
        ),
    }
}

impl IconImage {
    /// Calls `image::ImageBuffer::put_pixel`.  Claimed: the pixel at `(x, y)`
    /// takes the colour and nothing else changes.  It panics outside the
    /// image, which `requires` leaves out.
    #[verifier::external_body]
    pub fn put_pixel(&mut self, x: u32, y: u32, pixel: Rgba8)
        requires
            x < old(self)@.width,
            y < old(self)@.height,
        ensures
            icon_width(*final(self)) == icon_width(*old(self)),
            icon_height(*final(self)) == icon_height(*old(self)),
            icon_pixels(*final(self)) == icon_pixels(*old(self)).insert((x, y), pixel),
    {
        self.inner.put_pixel(x, y, image::Rgba([pixel.r, pixel.g, pixel.b, pixel.a]));
    }

    /// Calls `image::imageops::resize` with the Lanczos3 filter, which is what
    /// `DynamicImage::resize_exact` does for an RGBA image.  Claimed: the new
    /// image has the asked size and a colour for each of its pixels.  Which
    /// colours is left unsaid: the filter's weights come from `f32::sin`,
    /// whose precision the standard library does not fix.  The resampler
    /// holds an intermediate image of 32-bit floats, of this width and the
    /// new height; `requires` keeps it and the new image within memory sizes.
    #[verifier::external_body]
    pub fn resized(&self, width: u32, height: u32) -> (image: IconImage)
        requires
            4 * width * height <= isize::MAX,
            16 * self@.width * height <= isize::MAX,
        ensures
            icon_width(image) == width,
            icon_height(image) == height,
            covers(image@),
    {
        IconImage {
            inner: image::imageops::resize(
                &self.inner,
                width,
                height,
                image::imageops::FilterType::Lanczos3,
            ),
        }
    }

    /// Calls `DynamicImage::write_to` with the PNG format on this image, into
    /// an in-memory buffer.  Claimed: on success the bytes are the named PNG
    /// encoding of the image.  The encoding also records the image's colour
    /// space, which every image made here leaves at the crate's sRGB default.
    /// The `png` encoder refuses only an image of zero width or height (an
    /// RGBA image of 8-bit channels is always a valid combination, and the
    /// buffer's length matches its size), and writing into a vector cannot
    /// fail; so an image of positive size is claimed to encode.
    #[verifier::external_body]
    pub fn encode_png(self) -> (bytes: Result<Vec<u8>, image::ImageError>)
        ensures
            bytes matches Ok(b) ==> b@ == png_bytes(self@),
            self@.width > 0 && self@.height > 0 ==> bytes is Ok,
    {
        let mut cursor = std::io::Cursor::new(Vec::new());
        match image::DynamicImage::ImageRgba8(self.inner).write_to(
            &mut cursor,
            image::ImageFormat::Png,
        ) {
            Ok(()) => Ok(cursor.into_inner()),
            Err(error) => Err(error),
        }
    }

    /// Calls `image::ImageBuffer::into_raw`.  Claimed: the buffer holds the
    /// pixels row by row from the top, left to right, four bytes each in the
    /// order red, green, blue, alpha, and nothing more.
    #[verifier::external_body]
    pub fn into_raw(self) -> (bytes: Vec<u8>)
        requires
            covers(self@),
        ensures
            bytes@ == raw_layout(self@),
    {
        self.inner.into_raw()
    }
}

} // verus!
