//! Batch re-encoding of raster images as WebP: where each converted image goes,
//! what one conversion yields, and how the outcomes of a batch add up.

pub mod batch;
pub mod codec;
pub mod convert;
pub mod error;
pub mod path;
