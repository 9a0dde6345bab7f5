//! What can go wrong in a conversion, and the record of one that did.

use vstd::prelude::*;

verus! {

/// `std::io::Error`, carried through as it came from the file system.
#[verifier::external_type_specification]
#[verifier::external_body]
pub struct ExIoError(std::io::Error);

/// `image::ImageError`, carried through as the codec reported it.
#[verifier::external_type_specification]
#[verifier::external_body]
pub struct ExImageError(image::ImageError);

/// The ways in which one conversion fails.
#[derive(Debug)]
pub enum Error {
    /// The input could not be read or the output could not be written.
    IO(std::io::Error),
    /// The codec refused the input's bytes or could not encode the image.
    Image(image::ImageError),
    /// The input path names no file.
    InvalidFileName,
}

impl From<std::io::Error> for Error {
    /// A failure of the file system is an `IO` error and keeps its cause.
    fn from(cause: std::io::Error) -> (error: Self) {
        Error::IO(cause)
    }
}

impl vstd::std_specs::convert::FromSpecImpl<std::io::Error> for Error {
    open spec fn obeys_from_spec() -> bool {
        true
    }

    open spec fn from_spec(cause: std::io::Error) -> Self {
        Error::IO(cause)
    }
}

impl From<image::ImageError> for Error {
    /// A refusal of the codec is an `Image` error and keeps its cause.
    fn from(cause: image::ImageError) -> (error: Self) {
        Error::Image(cause)
    }
}

impl vstd::std_specs::convert::FromSpecImpl<image::ImageError> for Error {
    open spec fn obeys_from_spec() -> bool {
        true
    }

    open spec fn from_spec(cause: image::ImageError) -> Self {
        Error::Image(cause)
    }
}

/// A failed conversion: the input it was asked for and why it failed.
#[derive(Debug)]
pub struct Failure {
    /// The path of the image that was to be converted.
    pub input: String,
    /// What went wrong.
    pub error: Error,
}

/// What one conversion ends in: the path it wrote, or its failure.
pub type ConversionOutcome = Result<String, Failure>;

} // verus!
