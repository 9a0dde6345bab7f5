//! One conversion: from the bytes of an input file to the bytes of its
//! output file, and from there to the conversion's outcome.

use vstd::prelude::*;
use crate::codec::{buffer_fits, decode, encode, encoded_as, format_for, format_of};
use crate::error::{ConversionOutcome, Error, Failure};
use crate::path::{resolved_path, Args};

verus! {

/// An image that was encoded anew and waits to be written.
#[derive(Debug)]
pub struct Reencoded {
    /// The path that the image was read from.
    pub input: String,
    /// The path that `data` is to be written to.
    pub target: String,
    /// The encoded image.
    pub data: Vec<u8>,
}

/// The step after the decoder has answered with `decoded`: a refusal ends
/// the conversion with that refusal, whatever the path; for an image the
/// output path is resolved, and a path that names no file ends the
/// conversion. Else the image goes on with its output path.
pub fn resolve_decoded(
    args: &Args,
    path: &str,
    decoded: Result<image::DynamicImage, image::ImageError>,
) -> (next: Result<(image::DynamicImage, String), Failure>)
    ensures
        match decoded {
            Err(refusal) => next matches Err(failure) && failure.input@ == path@ && failure.error
                == Error::Image(refusal),
            Ok(image) => match resolved_path(args.output_dir(), path@) {
                None => next matches Err(failure) && failure.input@ == path@ && failure.error
                    == Error::InvalidFileName,
                Some(resolved) => next matches Ok(pair) && pair.0 == image && pair.1@ == resolved,
            },
        },
{
    match decoded {
        Err(refusal) => Err(Failure { input: path.to_owned(), error: Error::from(refusal) }),
        Ok(image) => match args.build_path(path) {
            Err(error) => Err(Failure { input: path.to_owned(), error }),
            Ok(target) => Ok((image, target)),
        },
    }
}

/// The step after the codec has answered with `chosen` which format the
/// output path asks for: a refusal ends the conversion with that refusal,
/// else the format goes on as it came.
pub fn accept_format(path: &str, chosen: Result<image::ImageFormat, image::ImageError>) -> (next:
    Result<image::ImageFormat, Failure>)
    ensures
        match chosen {
            Err(refusal) => next matches Err(failure) && failure.input@ == path@ && failure.error
                == Error::Image(refusal),
            Ok(format) => next == Ok::<image::ImageFormat, Failure>(format),
        },
{
    match chosen {
        Err(refusal) => Err(Failure { input: path.to_owned(), error: Error::from(refusal) }),
        Ok(format) => Ok(format),
    }
}

/// The step after the encoder has answered with `encoded`: a refusal ends
/// the conversion with that refusal, else the encoder's bytes are staged for
/// `target` as they came.
pub fn stage_encoded(path: &str, target: String, encoded: Result<Vec<u8>, image::ImageError>) -> (staged:
    Result<Reencoded, Failure>)
    ensures
        match encoded {
            Err(refusal) => staged matches Err(failure) && failure.input@ == path@ && failure.error
                == Error::Image(refusal),
            Ok(data) => staged matches Ok(reencoded) && reencoded.input@ == path@
                && reencoded.target == target && reencoded.data == data,
        },
{
    match encoded {
        Err(refusal) => Err(Failure { input: path.to_owned(), error: Error::from(refusal) }),
        Ok(data) => Ok(Reencoded { input: path.to_owned(), target, data }),
    }
}

/// Converts the image at `path`, of which `buffer` is what reading the file
/// gave. A failed read is reported with its cause. The bytes of a good read
/// go to the decoder as they came; its answer goes to `resolve_decoded`, the
/// format that the codec reads off the resolved path to `accept_format`, and
/// what the encoder makes of that image in that format to `stage_encoded`.
///
/// What the decoder answers is its own affair, so this contract says what
/// holds whatever it answers: a conversion that succeeds stages, for the
/// resolved path, what the encoder writes for some image in the format that
/// the codec finds for that path. What becomes of each answer is stated by
/// those three functions.
pub fn reencode(args: &Args, path: &str, buffer: Result<Vec<u8>, std::io::Error>) -> (staged: Result<
    Reencoded,
    Failure,
>)
    ensures
        buffer matches Err(cause) ==> staged matches Err(failure) && failure.input@ == path@
            && failure.error == Error::IO(cause),
        buffer is Ok ==> match staged {
            Ok(reencoded) => reencoded.input@ == path@ && resolved_path(args.output_dir(), path@)
                == Some(reencoded.target@) && format_for(reencoded.target@) is Some
                && exists|image: image::DynamicImage|
                buffer_fits(image) && #[trigger] encoded_as(
                    image,
                    format_for(reencoded.target@)->Some_0,
                ) == Some(reencoded.data@),
            Err(failure) => failure.input@ == path@ && match failure.error {
                Error::IO(_) => false,
                Error::Image(_) => true,
                Error::InvalidFileName => resolved_path(args.output_dir(), path@) is None,
            },
        },
{
    let bytes = match buffer {
        Ok(bytes) => bytes,
        Err(cause) => return Err(Failure { input: path.to_owned(), error: Error::from(cause) }),
    };
    let (image, target) = match resolve_decoded(args, path, decode(bytes.as_slice())) {
        Ok(resolved) => resolved,
        Err(failure) => return Err(failure),
    };
    let format = match accept_format(path, format_of(target.as_str())) {
        Ok(format) => format,
        Err(failure) => return Err(failure),
    };
    let encoded = encode(&image, format);
    proof {
        if encoded is Ok {
            assert(encoded_as(image, format_for(target@)->Some_0) == Some(encoded->Ok_0@));
        }
    }
    stage_encoded(path, target, encoded)
}

impl Reencoded {
    /// The outcome of the conversion, of which `written` is what writing
    /// `data` to `target` gave: the path that now holds the image, or the
    /// cause for which the write failed.
    pub fn stored(self, written: Result<(), std::io::Error>) -> (outcome: ConversionOutcome)
        ensures
            match written {
                Ok(_) => outcome == Ok::<String, Failure>(self.target),
                Err(cause) => outcome == Err::<String, Failure>(
                    (Failure { input: self.input, error: Error::IO(cause) }),
                ),
            },
    {
        match written {
            Ok(_) => Ok(self.target),
            Err(cause) => Err(Failure { input: self.input, error: Error::from(cause) }),
        }
    }
}

} // verus!
