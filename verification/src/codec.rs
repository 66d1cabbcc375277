//! Decoding and encoding of rasters, and the decode → threshold → encode
//! pipeline.
//!
//! Container-format parsing is the image codec collaborator's work, not the
//! library's: the two trusted wrappers below hand it bytes and take back
//! plain values, and everything around them is verified.

use vstd::prelude::*;

use crate::error::ThreshError;
use crate::raster::{threshold, threshold_model, Pixel, Raster, RasterModel};

verus! {

#[verifier::external_type_specification]
#[verifier::external_body]
pub struct ExImageError(image::ImageError);

/// What the image codec decodes a given byte string to: `None` when the bytes
/// are not a recognized image, otherwise the normalized 8-bit RGBA raster.
pub uninterp spec fn decoded_image(data: Seq<u8>) -> Option<RasterModel>;

/// What the image codec encodes a given raster to as a PNG byte stream:
/// `None` when the raster cannot be written (a zero dimension), otherwise
/// the encoded bytes.
pub uninterp spec fn png_encoding(img: RasterModel) -> Option<Seq<u8>>;

/// Relies on image::load_from_memory to decode the byte string, and on
/// DynamicImage::to_rgba8 to normalize the result to 8-bit RGBA pixels in
/// row-major order with the decoded dimensions (alpha-less sources become
/// fully opaque). Both depend on the bytes alone.
#[verifier::external_body]
fn decode_rgba(data: &Vec<u8>) -> (r: Result<Raster, image::ImageError>)
    ensures
        (r is Ok) == (decoded_image(data@) is Some),
        r is Ok ==> r->Ok_0@ == decoded_image(data@)->0 && r->Ok_0.wf(),
{
    let img = match image::load_from_memory(data) {
        Ok(img) => img.to_rgba8(),
        Err(e) => return Err(e),
    };
    let (width, height) = (img.width(), img.height());
    let pixels = img.pixels().map(|q| Pixel { r: q.0[0], g: q.0[1], b: q.0[2], a: q.0[3] }).collect();
    Ok(Raster { width, height, pixels })
}

/// Relies on PngEncoder through ImageEncoder::write_image, whose PNG output
/// depends on the pixel bytes and dimensions alone. With a well-formed raster
/// the byte length matches the dimensions, so the encoder's length assertion
/// cannot fire; it reports zero dimensions as an error.
#[verifier::external_body]
fn encode_png(img: &Raster) -> (r: Result<Vec<u8>, image::ImageError>)
    requires
        img.wf(),
    ensures
        (r is Ok) == (png_encoding(img@) is Some),
        r is Ok ==> r->Ok_0@ == png_encoding(img@)->0,
{
    let bytes: Vec<u8> = img.pixels.iter().flat_map(|p| [p.r, p.g, p.b, p.a]).collect();
    let mut out = std::io::Cursor::new(Vec::new());
    let enc = image::codecs::png::PngEncoder::new(&mut out);
    match image::ImageEncoder::write_image(
        enc,
        &bytes,
        img.width,
        img.height,
        image::ExtendedColorType::Rgba8,
    ) {
        Ok(()) => Ok(out.into_inner()),
        Err(e) => Err(e),
    }
}

/// Decodes an image held in bytes into a raster; any decode failure is
/// reported as `ImageDecode` and nothing is produced.
pub fn read_image(data: &Vec<u8>) -> (r: Result<Raster, ThreshError>)
    ensures
        (r is Ok) == (decoded_image(data@) is Some),
        r is Ok ==> r->Ok_0@ == decoded_image(data@)->0 && r->Ok_0.wf(),
        r is Err ==> r->Err_0 == ThreshError::ImageDecode,
{
    match decode_rgba(data) {
        Ok(img) => Ok(img),
        Err(_) => Err(ThreshError::ImageDecode),
    }
}

/// Encodes a raster as a PNG byte stream; any encode failure is reported as
/// `ImageEncode` and nothing is produced.
pub fn write_image(img: &Raster) -> (r: Result<Vec<u8>, ThreshError>)
    requires
        img.wf(),
    ensures
        (r is Ok) == (png_encoding(img@) is Some),
        r is Ok ==> r->Ok_0@ == png_encoding(img@)->0,
        r is Err ==> r->Err_0 == ThreshError::ImageEncode,
{
    match encode_png(img) {
        Ok(bytes) => Ok(bytes),
        Err(_) => Err(ThreshError::ImageEncode),
    }
}

/// Runs the whole pixel pipeline on bytes: decode, threshold every pixel,
/// encode the result as PNG. Fails with `ImageDecode` exactly when the bytes
/// do not decode, and with `ImageEncode` exactly when the thresholded raster
/// cannot be encoded; otherwise returns the encoded bytes.
pub fn process(data: &Vec<u8>) -> (r: Result<Vec<u8>, ThreshError>)
    ensures
        decoded_image(data@) is None ==> r is Err && r->Err_0 == ThreshError::ImageDecode,
        decoded_image(data@) is Some ==> {
            let out = threshold_model(decoded_image(data@)->0);
            &&& png_encoding(out) is Some ==> r is Ok && r->Ok_0@ == png_encoding(out)->0
            &&& png_encoding(out) is None ==> r is Err && r->Err_0 == ThreshError::ImageEncode
        },
{
    let img = match read_image(data) {
        Ok(img) => img,
        Err(e) => return Err(e),
    };
    let out = threshold(&img);
    write_image(&out)
}

} // verus!
