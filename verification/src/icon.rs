//! The icon of the overlay's window: an image file decoded into pixels, each
//! packed into one word.

use vstd::prelude::*;

verus! {

/// The error of the `image` crate. Nothing is known of its values.
#[verifier::external_type_specification]
#[verifier::external_body]
pub struct ExImageError(image::ImageError);

/// What an image file decodes to: its width, its height, and its samples,
/// four for each pixel (red, green, blue, alpha), row by row; `None` for
/// bytes that are no image file that can be read.
pub uninterp spec fn decoded_rgba8(bytes: Seq<u8>) -> Option<(u32, u32, Seq<u8>)>;

/// Decodes an image file.
///
/// Trusted: calls `image::load_from_memory` and takes from the image it
/// gives its `width`, its `height` and the buffer of `into_rgba8`. The
/// contract gives the outcome a name, [`decoded_rgba8`], says that an error
/// comes exactly where that is `None`, and says that the buffer holds four
/// samples for each pixel: the crate allocates it with exactly that length,
/// for an image decoded with alpha as for one converted to it.
#[verifier::external_body]
fn decode_rgba8(bytes: &[u8]) -> (r: Result<(u32, u32, Vec<u8>), image::ImageError>)
    ensures
        match r {
            Ok(image) => decoded_rgba8(bytes@) == Some((image.0, image.1, image.2@))
                && image.2@.len() == 4 * image.0 * image.1,
            Err(_) => decoded_rgba8(bytes@) is None,
        },
{
    let img = image::load_from_memory(bytes)?;
    let (width, height) = (img.width(), img.height());
    Ok((width, height, img.into_rgba8().to_vec()))
}

/// Why an icon could not be had.
#[derive(Clone, Copy, Debug, PartialEq, Eq, Structural)]
pub enum IconError {
    /// The bytes are no image file that can be read.
    Undecodable,
}

/// An image as the windowing system takes it: one word for each pixel, row
/// by row.
#[derive(Debug, PartialEq, Eq)]
pub struct PixelIcon {
    pub width: u32,
    pub height: u32,
    pub pixels: Vec<u32>,
}

/// The word of a pixel: alpha in the highest byte, then blue, then green,
/// and red in the lowest.
pub open spec fn pixel_word(red: u8, green: u8, blue: u8, alpha: u8) -> u32 {
    (alpha as int * 0x100_0000 + blue as int * 0x1_0000 + green as int * 0x100 + red as int) as u32
}

/// The words of the pixels whose samples are given, four for each pixel.
pub open spec fn packed(samples: Seq<u8>) -> Seq<u32> {
    Seq::new(
        (samples.len() / 4) as nat,
        |i: int|
            pixel_word(
                samples[4 * i],
                samples[4 * i + 1],
                samples[4 * i + 2],
                samples[4 * i + 3],
            ),
    )
}

/// What the bytes of an image file give: the icon, or why there is none.
pub open spec fn icon_of(decoded: Option<(u32, u32, Seq<u8>)>) -> Result<
    (u32, u32, Seq<u32>),
    IconError,
> {
    match decoded {
        None => Err(IconError::Undecodable),
        Some((width, height, samples)) => Ok((width, height, packed(samples))),
    }
}

/// Packs one pixel into a word.
pub fn pack_pixel(red: u8, green: u8, blue: u8, alpha: u8) -> (r: u32)
    ensures
        r == pixel_word(red, green, blue, alpha),
{
    let r: u32 = red as u32;
    let g: u32 = green as u32;
    let b: u32 = blue as u32;
    let a: u32 = alpha as u32;
    assert(((a << 24) | (b << 16) | (g << 8) | r) == a * 0x100_0000 + b * 0x1_0000 + g * 0x100
        + r) by (bit_vector)
        requires
            r < 256,
            g < 256,
            b < 256,
            a < 256,
    ;
    (a << 24) | (b << 16) | (g << 8) | r
}

/// Packs the samples of an image, four for each pixel, into one word for
/// each pixel.
pub fn pack_pixels(img_rgba: &Vec<u8>) -> (r: Vec<u32>)
    requires
        img_rgba@.len() % 4 == 0,
    ensures
        r@ == packed(img_rgba@),
{
    let len = img_rgba.len();
    let count = len / 4;
    let mut img_pixels: Vec<u32> = Vec::with_capacity(count);
    let mut i: usize = 0;
    while i < count
        invariant
            i <= count,
            len == img_rgba@.len(),
            count == len / 4,
            len % 4 == 0,
            img_pixels@.len() == i,
            forall|j: int| 0 <= j < i ==> #[trigger] img_pixels@[j] == packed(img_rgba@)[j],
        decreases count - i,
    {
        assert(4 * i + 3 < len);
        let rgba_pixel = pack_pixel(
            img_rgba[4 * i],
            img_rgba[4 * i + 1],
            img_rgba[4 * i + 2],
            img_rgba[4 * i + 3],
        );
        img_pixels.push(rgba_pixel);
        i += 1;
    }
    assert(img_pixels@ =~= packed(img_rgba@));
    img_pixels
}

/// Decodes an image file and packs its pixels.
pub fn load_pixel_icon(icon_image: &[u8]) -> (r: Result<PixelIcon, IconError>)
    ensures
        match r {
            Ok(icon) => icon_of(decoded_rgba8(icon_image@)) == Ok::<
                (u32, u32, Seq<u32>),
                IconError,
            >((icon.width, icon.height, icon.pixels@)) && icon.pixels@.len() == icon.width
                * icon.height,
            Err(error) => icon_of(decoded_rgba8(icon_image@)) == Err::<
                (u32, u32, Seq<u32>),
                IconError,
            >(error),
        },
{
    match decode_rgba8(icon_image) {
        Ok((width, height, samples)) => {
            let ghost pixels = width * height;
            assert(4 * width * height == 4 * pixels) by (nonlinear_arith)
                requires
                    pixels == width * height,
            ;
            assert(samples@.len() % 4 == 0 && samples@.len() / 4 == pixels);
            Ok(PixelIcon { width, height, pixels: pack_pixels(&samples) })
        },
        Err(_) => Err(IconError::Undecodable),
    }
}

} // verus!
