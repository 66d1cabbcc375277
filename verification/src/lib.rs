//! A small image-thresholding library.
//!
//! The library decodes a raster image from bytes, forces every pixel to pure
//! black or pure white by a fixed brightness cutoff while preserving alpha,
//! encodes the result, and derives output paths from input paths.

pub mod cli;
pub mod codec;
pub mod paths;
pub mod error;
pub mod raster;
