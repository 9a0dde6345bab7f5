//! The codec: the `image` crate decodes and encodes, and nothing here looks
//! inside an image.

use vstd::prelude::*;

verus! {

/// `image::DynamicImage`, a decoded image. It is only carried from the
/// decoder to the encoder.
#[verifier::external_type_specification]
#[verifier::external_body]
pub struct ExDynamicImage(image::DynamicImage);

/// `image::ImageFormat`, the container format of an encoded image.
#[verifier::external_type_specification]
#[verifier::external_body]
pub struct ExImageFormat(image::ImageFormat);

/// The image's buffer is exactly as long as its width, its height and its
/// colour type ask for. The type admits a longer one, and the encoders panic
/// on it.
pub uninterp spec fn buffer_fits(image: image::DynamicImage) -> bool;

/// What `image::ImageFormat::from_path` finds for the path written as
/// `path`: the format, or none where it refuses the path.
pub uninterp spec fn format_for(path: Seq<char>) -> Option<image::ImageFormat>;

/// What `image::DynamicImage::write_to` writes for `image` in `format`: the
/// bytes, or none where it refuses.
pub uninterp spec fn encoded_as(image: image::DynamicImage, format: image::ImageFormat) -> Option<
    Seq<u8>,
>;

/// Calls `image::load_from_memory`, which guesses the format of the bytes
/// and decodes them. Which bytes decode is the codec's affair, and decoders
/// registered with it at run time have a say, so the image has no name.
///
/// The one claim is that a decoded image's buffer fits: the codec allots it
/// by the size that the decoder gives for the image, which for its own
/// decoders is width times height times the bytes of a pixel. A decoder
/// registered at run time is held to that by the documentation of its trait
/// alone.
#[verifier::external_body]
pub(crate) fn decode(buffer: &[u8]) -> (decoded: Result<image::DynamicImage, image::ImageError>)
    ensures
        decoded matches Ok(image) ==> buffer_fits(image),
{
    image::load_from_memory(buffer)
}

/// Calls `image::ImageFormat::from_path`, which reads the format off the
/// path's extension and fails on an extension that it does not know. It
/// looks at the text of the path alone; the contract names what it finds.
#[verifier::external_body]
pub(crate) fn format_of(path: &str) -> (format: Result<image::ImageFormat, image::ImageError>)
    ensures
        match format {
            Ok(found) => format_for(path@) == Some(found),
            Err(_) => format_for(path@) is None,
        },
{
    image::ImageFormat::from_path(path)
}

/// Calls `image::DynamicImage::write_to` on a buffer in memory and hands the
/// buffer back. The encoders compute the bytes from the image and the
/// format alone; the contract names them. They panic on an image whose
/// buffer does not fit, so none is admitted.
#[verifier::external_body]
pub(crate) fn encode(image: &image::DynamicImage, format: image::ImageFormat) -> (encoded: Result<
    Vec<u8>,
    image::ImageError,
>)
    requires
        buffer_fits(*image),
    ensures
        match encoded {
            Ok(data) => encoded_as(*image, format) == Some(data@),
            Err(_) => encoded_as(*image, format) is None,
        },
{
    let mut data = Vec::new();
    let written = image.write_to(std::io::Cursor::new(&mut data), format);
    written.map(|()| data)
}

} // verus!
