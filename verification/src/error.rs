//! The failures the library reports.

use vstd::prelude::*;

verus! {

/// Every failure the pipeline can report. All are unrecoverable at the point
/// of occurrence: no retries, no fallback, no partial output.
#[derive(Clone, Copy, Debug, PartialEq, Eq, Structural)]
pub enum ThreshError {
    /// A path lacks a component that resolution needs (a parent directory,
    /// a file stem or an extension), or an output path is unusable.
    InvalidPath,
    /// The input bytes are missing, unreadable or not a recognized image.
    ImageDecode,
    /// The transformed raster could not be encoded.
    ImageEncode,
    /// An ancestor directory of the output path could not be created.
    DirectoryCreation,
}

impl ThreshError {
    /// A short human-readable description of the failure.
    pub fn message(&self) -> (r: &'static str)
        ensures
            self is InvalidPath ==> r@ == "invalid path"@,
            self is ImageDecode ==> r@ == "could not decode image"@,
            self is ImageEncode ==> r@ == "could not encode image"@,
            self is DirectoryCreation ==> r@ == "could not create output directory"@,
    {
        match self {
            ThreshError::InvalidPath => "invalid path",
            ThreshError::ImageDecode => "could not decode image",
            ThreshError::ImageEncode => "could not encode image",
            ThreshError::DirectoryCreation => "could not create output directory",
        }
    }
}

} // verus!
