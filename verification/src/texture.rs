use crate::png_layout::{admitted_png, is_admitted_png};
use vstd::prelude::*;

verus! {

/// How a sampler reads between texels.
#[derive(PartialEq, Eq, Clone, Copy, Debug, Structural)]
pub enum SamplerFilter {
    Linear,
    Nearest,
}

/// A decoded image: its size and four bytes (red, green, blue, alpha) per
/// pixel, rows from the top down.
#[derive(PartialEq, Eq, Debug)]
pub struct DecodedImage {
    pub width: u32,
    pub height: u32,
    pub pixels: Vec<u8>,
}

/// What the `image` crate decodes `data` to: width, height and RGBA bytes,
/// or nothing where it reports an error.
pub uninterp spec fn decoded_image(data: Seq<u8>) -> Option<(u32, u32, Seq<u8>)>;

/// `data` cut into rows of `row` bytes (the last one may be shorter), the
/// rows then written out last to first.
pub open spec fn flipped_rows(data: Seq<u8>, row: nat) -> Seq<u8>
    decreases data.len(),
{
    if row == 0 || data.len() <= row {
        data
    } else {
        flipped_rows(data.skip(row as int), row) + data.take(row as int)
    }
}

/// Calls `image::load_from_memory`, which takes a file that starts with
/// the PNG signature to its PNG decoder, and converts the result with
/// `DynamicImage::to_rgba`. Only files of the admitted layout are handed
/// in: on the paths that those reach, the decoder reports what it cannot
/// read as an error. The contract only names the outcome: the same bytes
/// always decode to the same image or fail alike.
#[verifier::external_body]
fn decode_rgba(data: &Vec<u8>) -> (image: Option<DecodedImage>)
    requires
        admitted_png(data@),
    ensures
        match image {
            Some(i) => decoded_image(data@) == Some((i.width, i.height, i.pixels@)),
            None => decoded_image(data@) is None,
        },
{
    match image::load_from_memory(data) {
        Ok(decoded) => {
            let rgba = decoded.to_rgba();
            let (width, height) = rgba.dimensions();
            Some(DecodedImage { width, height, pixels: rgba.into_raw() })
        },
        Err(_) => None,
    }
}

/// Calls `glium::texture::RawImage2d::from_raw_rgba_reversed`, which cuts
/// the bytes into rows of `4 * width` and writes the rows out in reverse
/// order, and returns the bytes of the image it built. A zero width makes
/// it panic and is left out.
#[verifier::external_body]
fn flip_rows(data: &Vec<u8>, width: u16, height: u16) -> (flipped: Vec<u8>)
    requires
        width > 0,
    ensures
        flipped@ == flipped_rows(data@, (4 * width) as nat),
{
    let dimensions = (u32::from(width), u32::from(height));
    glium::texture::RawImage2d::from_raw_rgba_reversed(data, dimensions).data.into_owned()
}

/// A GPU texture as the engine core knows it: the backend's handle, the
/// size, the two sampler filters and the bytes to upload, bottom row first.
pub struct Texture2D {
    handle: u32,
    dimensions: (u16, u16),
    min_filter: SamplerFilter,
    max_filter: SamplerFilter,
    pixels: Vec<u8>,
}

/// Everything a [`Texture2D`] holds, as plain values.
pub struct TextureView {
    pub handle: u32,
    pub dimensions: (u16, u16),
    pub min_filter: SamplerFilter,
    pub max_filter: SamplerFilter,
    pub pixels: Seq<u8>,
}

impl View for Texture2D {
    type V = TextureView;

    closed spec fn view(&self) -> TextureView {
        TextureView {
            handle: self.handle,
            dimensions: self.dimensions,
            min_filter: self.min_filter,
            max_filter: self.max_filter,
            pixels: self.pixels@,
        }
    }
}

impl Texture2D {
    /// A texture of the given size without content, filtered linearly.
    pub fn empty(handle: u32, width: u16, height: u16) -> (texture: Texture2D)
        ensures
            texture@ == (TextureView {
                handle,
                dimensions: (width, height),
                min_filter: SamplerFilter::Linear,
                max_filter: SamplerFilter::Linear,
                pixels: Seq::empty(),
            }),
    {
        Texture2D {
            handle,
            dimensions: (width, height),
            min_filter: SamplerFilter::Linear,
            max_filter: SamplerFilter::Linear,
            pixels: Vec::new(),
        }
    }

    /// A texture from RGBA bytes given top row first; it holds them bottom
    /// row first, as the GPU wants them. Filtered linearly.
    pub fn from_data(handle: u32, data: &Vec<u8>, width: u16, height: u16) -> (texture: Texture2D)
        requires
            width > 0,
        ensures
            texture@ == (TextureView {
                handle,
                dimensions: (width, height),
                min_filter: SamplerFilter::Linear,
                max_filter: SamplerFilter::Linear,
                pixels: flipped_rows(data@, (4 * width) as nat),
            }),
    {
        Texture2D {
            handle,
            dimensions: (width, height),
            min_filter: SamplerFilter::Linear,
            max_filter: SamplerFilter::Linear,
            pixels: flip_rows(data, width, height),
        }
    }

    /// Whether an image of the given size can be a texture: the width is
    /// not zero and both dimensions fit in sixteen bits.
    pub open spec fn fits(width: u32, height: u32) -> bool {
        0 < width <= 0xFFFF && height <= 0xFFFF
    }

    /// The texture that a decoded image of the given size and pixels
    /// becomes, where the size fits.
    pub open spec fn of_decoded(handle: u32, width: u32, height: u32, pixels: Seq<u8>) -> TextureView {
        TextureView {
            handle,
            dimensions: (width as u16, height as u16),
            min_filter: SamplerFilter::Linear,
            max_filter: SamplerFilter::Linear,
            pixels: flipped_rows(pixels, (4 * width) as nat),
        }
    }

    /// A texture from a decoded image; nothing where the width is zero or
    /// a dimension does not fit in sixteen bits.
    pub fn from_decoded(handle: u32, image: &DecodedImage) -> (texture: Option<Texture2D>)
        ensures
            match texture {
                Some(t) => Self::fits(image.width, image.height) && t@ == Self::of_decoded(
                    handle,
                    image.width,
                    image.height,
                    image.pixels@,
                ),
                None => !Self::fits(image.width, image.height),
            },
    {
        if image.width == 0 || image.width > 0xFFFF || image.height > 0xFFFF {
            None
        } else {
            let width: u16 = image.width as u16;
            let height: u16 = image.height as u16;
            Some(Texture2D::from_data(handle, &image.pixels, width, height))
        }
    }

    /// A texture from the bytes of an image file. Nothing where the file
    /// is not a PNG file of the admitted layout, where it does not decode,
    /// or where the decoded size does not fit; else what
    /// [`Texture2D::from_decoded`] makes of the decoded image.
    pub fn from_image(handle: u32, file: &Vec<u8>) -> (texture: Option<Texture2D>)
        ensures
            !admitted_png(file@) ==> texture is None,
            admitted_png(file@) ==> match decoded_image(file@) {
                Some((width, height, pixels)) => match texture {
                    Some(t) => Self::fits(width, height) && t@ == Self::of_decoded(
                        handle,
                        width,
                        height,
                        pixels,
                    ),
                    None => !Self::fits(width, height),
                },
                None => texture is None,
            },
    {
        if !is_admitted_png(file) {
            return None;
        }
        match decode_rgba(file) {
            Some(image) => Texture2D::from_decoded(handle, &image),
            None => None,
        }
    }

    /// The backend's handle of this texture.
    pub fn texture(&self) -> (handle: u32)
        ensures
            handle == self@.handle,
    {
        self.handle
    }

    /// The same texture with both filters set to nearest.
    pub fn with_nearest_filter(self) -> (texture: Texture2D)
        ensures
            texture@ == (TextureView {
                min_filter: SamplerFilter::Nearest,
                max_filter: SamplerFilter::Nearest,
                ..self@
            }),
    {
        let mut texture = self;
        texture.min_filter = SamplerFilter::Nearest;
        texture.max_filter = SamplerFilter::Nearest;
        texture
    }

    /// The minifying and the magnifying filter.
    pub fn filtering(&self) -> (filters: (SamplerFilter, SamplerFilter))
        ensures
            filters == (self@.min_filter, self@.max_filter),
    {
        (self.min_filter, self.max_filter)
    }

    /// Width and height in texels.
    pub fn dimensions(&self) -> (size: (u16, u16))
        ensures
            size == self@.dimensions,
    {
        self.dimensions
    }

    /// The bytes to upload, bottom row first; empty for an empty texture.
    pub fn pixels(&self) -> (pixels: &Vec<u8>)
        ensures
            pixels@ == self@.pixels,
    {
        &self.pixels
    }
}

} // verus!
