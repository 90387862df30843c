//! The error of raster file I/O. The reading and writing themselves run
//! outside the library, through the `image` crate.
use vstd::prelude::*;

verus! {

/// The `image` crate's error type, carried through as an opaque value.
#[verifier::external_type_specification]
#[verifier::external_body]
pub struct ExImageError(::image::ImageError);

/// Why a raster file could not be read or written: the `image` crate's error.
#[derive(Debug)]
pub enum IoError {
    Image(::image::ImageError),
}

} // verus!
