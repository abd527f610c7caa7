//! From the bytes of an image file to a packed icon.
//!
//! Decoding is left to the built-in decoders of the `image` crate. What comes
//! back is checked here before it is called an icon: the number of bytes must
//! be that of the announced size.

use vstd::prelude::*;
use crate::pixel::IconImage;

verus! {

/// Why bytes did not become an icon.
#[derive(Clone, Copy, Debug, PartialEq, Eq, Structural)]
pub enum IconError {
    /// The bytes are not an image in a format that is understood.
    Undecodable,
    /// The pixels do not fill the announced width and height exactly.
    BadDimensions,
}

/// What the `image` crate's built-in decoders make of `bytes`: the width,
/// the height and the pixels as four bytes each, red, green, blue, alpha;
/// `None` where the bytes start like no known format or do not decode.
pub uninterp spec fn decoded_rgba(bytes: Seq<u8>) -> Option<(u32, u32, Seq<u8>)>;

/// `image::guess_format`, then `image::load_from_memory_with_format`,
/// `DynamicImage::into_rgba8`, `ImageBuffer::dimensions` and
/// `ImageBuffer::into_raw`: finds the format by the crate's fixed table of
/// leading bytes, decodes with the built-in decoder of that format and hands
/// the picture back as RGBA bytes with its size. Neither call looks at the
/// decoders and format detectors that a process may register with the crate,
/// so the same bytes give the same result, and the contract gives that result
/// a name. Of the bytes that come back it claims nothing.
#[verifier::external_body]
fn decode_rgba(bytes: &[u8]) -> (decoded: Option<(u32, u32, Vec<u8>)>)
    ensures
        match decoded {
            Some((width, height, data)) => decoded_rgba(bytes@) == Some((width, height, data@)),
            None => decoded_rgba(bytes@) is None,
        },
{
    let format = image::guess_format(bytes).ok()?;
    let picture = image::load_from_memory_with_format(bytes, format).ok()?.into_rgba8();
    let (width, height) = picture.dimensions();
    Some((width, height, picture.into_raw()))
}

/// The icon that decoded pixels stand for, or the reason why they are none.
pub open spec fn icon_of(decoded: Option<(u32, u32, Seq<u8>)>) -> Result<
    (u32, u32, Seq<u8>),
    IconError,
> {
    match decoded {
        None => Err(IconError::Undecodable),
        Some((width, height, data)) => if data.len() == 4 * (width * height) {
            Ok((width, height, data))
        } else {
            Err(IconError::BadDimensions)
        },
    }
}

/// An icon seen as plain values: width, height and bytes.
pub open spec fn plain(icon: Result<IconImage, IconError>) -> Result<
    (u32, u32, Seq<u8>),
    IconError,
> {
    match icon {
        Ok(image) => Ok((image.width, image.height, image.data@)),
        Err(error) => Err(error),
    }
}

impl IconImage {
    /// Makes an icon of `data`, which must hold exactly four bytes for each
    /// of `width * height` pixels.
    pub fn from_rgba(data: Vec<u8>, width: u32, height: u32) -> (icon: Option<IconImage>)
        ensures
            icon is Some <==> data@.len() == 4 * (width * height),
            icon matches Some(image) ==> image.width == width && image.height == height
                && image.data@ == data@ && image.wf(),
    {
        assert(width * height <= 0xffff_ffff * 0xffff_ffff) by (nonlinear_arith)
            requires
                width <= 0xffff_ffff,
                height <= 0xffff_ffff,
        ;
        let pixels: u128 = (width as u128) * (height as u128);
        let wanted: u128 = 4 * pixels;
        if data.len() as u128 == wanted {
            Some(IconImage { width, height, data })
        } else {
            None
        }
    }
}

/// Turns what a decoder gave into an icon: nothing decoded is
/// [`IconError::Undecodable`], pixels that do not fit the size are
/// [`IconError::BadDimensions`].
pub fn icon_from_decoded(decoded: Option<(u32, u32, Vec<u8>)>) -> (icon: Result<
    IconImage,
    IconError,
>)
    ensures
        plain(icon) == icon_of(
            match decoded {
                Some((width, height, data)) => Some((width, height, data@)),
                None => None,
            },
        ),
        icon matches Ok(image) ==> image.wf(),
{
    match decoded {
        None => Err(IconError::Undecodable),
        Some((width, height, data)) => match IconImage::from_rgba(data, width, height) {
            Some(image) => Ok(image),
            None => Err(IconError::BadDimensions),
        },
    }
}

/// Decodes the bytes of an image file, such as the icon compiled into the
/// binary, into a packed RGBA icon.
pub fn decode_icon(bytes: &[u8]) -> (icon: Result<IconImage, IconError>)
    ensures
        plain(icon) == icon_of(decoded_rgba(bytes@)),
        icon matches Ok(image) ==> image.wf(),
{
    icon_from_decoded(decode_rgba(bytes))
}

} // verus!
