//! The byte-level call variants: decode from a raw buffer, transform,
//! and re-encode, the whole pipeline in one synchronous call.  Reading
//! and writing files is the caller's business; these functions take
//! bytes and return bytes.
//!
//! Each contract says exactly when each error comes and, on the inputs
//! where every stage accepts, owes success: the result is the named
//! encoding of the named transform of the named decoding of the input.

use vstd::prelude::*;

use crate::constraint::{constrained_dims, OutputFormat};
use crate::errors::ImgError;
use crate::geometry::{normalize_spec, rect_in_range, FractionalRect};
use crate::raster::{
    cropped_of, decode_image, decoded_dims, decoded_img, encoded_of, img_size, resized_of,
};

verus! {

/// Decode `data`, resize to exactly `(width, height)` with the
/// triangular filter, and encode to `fmt`.
pub fn resize_encoded(data: &Vec<u8>, width: u32, height: u32, fmt: OutputFormat) -> (r: Result<
    Vec<u8>,
    ImgError,
>)
    ensures
        decoded_img(data@) is None ==> (r matches Err(e) && e is Decode),
        (decoded_img(data@) is Some && (width == 0 || height == 0)) ==> (r matches Err(e)
            && e is InvalidDimensions),
        (decoded_img(data@) is Some && 1 <= width && 1 <= height) ==> ({
            let enc = encoded_of(resized_of(decoded_img(data@)->0, width, height), fmt);
            &&& (r is Ok <==> enc is Some)
            &&& (r matches Ok(out) ==> out@ == enc->0)
            &&& (r matches Err(e) ==> e is Encode)
        }),
        r matches Ok(out) ==> (decoded_dims(out@) is Some ==> decoded_dims(out@)->0 == (
            width,
            height,
        )),
{
    let img = match decode_image(data) {
        Ok(img) => img,
        Err(e) => return Err(e),
    };
    let resized = match img.resize(width, height) {
        Ok(i) => i,
        Err(e) => return Err(e),
    };
    resized.encode(fmt)
}

/// Resize raw image bytes and return the result encoded as PNG.
pub fn resize_image_from_data(data: Vec<u8>, width: u32, height: u32) -> (r: Result<
    Vec<u8>,
    ImgError,
>)
    ensures
        decoded_img(data@) is None ==> (r matches Err(e) && e is Decode),
        (decoded_img(data@) is Some && (width == 0 || height == 0)) ==> (r matches Err(e)
            && e is InvalidDimensions),
        (decoded_img(data@) is Some && 1 <= width && 1 <= height) ==> ({
            let enc = encoded_of(
                resized_of(decoded_img(data@)->0, width, height),
                OutputFormat::Png,
            );
            &&& (r is Ok <==> enc is Some)
            &&& (r matches Ok(out) ==> out@ == enc->0)
            &&& (r matches Err(e) ==> e is Encode)
        }),
        r matches Ok(out) ==> (decoded_dims(out@) is Some ==> decoded_dims(out@)->0 == (
            width,
            height,
        )),
{
    resize_encoded(&data, width, height, OutputFormat::Png)
}

/// Decode `data`, crop by a fractional rectangle (normalized and
/// clamped to the image bounds), and re-encode to `fmt`.
pub fn crop_encoded(data: &Vec<u8>, fr: FractionalRect, fmt: OutputFormat) -> (r: Result<
    Vec<u8>,
    ImgError,
>)
    ensures
        decoded_img(data@) is None ==> (r matches Err(e) && e is Decode),
        (decoded_img(data@) is Some && !rect_in_range(fr)) ==> (r matches Err(e)
            && e is InvalidRegion),
        (decoded_img(data@) is Some && rect_in_range(fr)) ==> ({
            let img = decoded_img(data@)->0;
            let p = normalize_spec(img_size(img).0, img_size(img).1, fr);
            let enc = encoded_of(cropped_of(img, p.x, p.y, p.width, p.height), fmt);
            &&& (r is Ok <==> enc is Some)
            &&& (r matches Ok(out) ==> out@ == enc->0)
            &&& (r matches Ok(out) ==> (decoded_dims(out@) is Some ==> decoded_dims(out@)->0 == (
                p.width,
                p.height,
            )))
            &&& (r matches Err(e) ==> e is Encode)
        }),
{
    let img = match decode_image(data) {
        Ok(img) => img,
        Err(e) => return Err(e),
    };
    let cropped = match img.crop_fraction(fr) {
        Ok(c) => c,
        Err(e) => return Err(e),
    };
    cropped.encode(fmt)
}

/// Decode `data`, enforce the output format's dimension constraint
/// (resizing only where needed), and encode to `fmt`.
pub fn save_as_encoded(data: &Vec<u8>, fmt: OutputFormat) -> (r: Result<Vec<u8>, ImgError>)
    ensures
        decoded_img(data@) is None ==> (r matches Err(e) && e is Decode),
        decoded_img(data@) is Some ==> ({
            let img = decoded_img(data@)->0;
            let dims0 = img_size(img);
            let dims = constrained_dims(fmt, dims0.0, dims0.1);
            let target = if dims == dims0 {
                img
            } else {
                resized_of(img, dims.0, dims.1)
            };
            let enc = encoded_of(target, fmt);
            &&& (r is Ok <==> enc is Some)
            &&& (r matches Ok(out) ==> out@ == enc->0)
            &&& (r matches Ok(out) ==> (decoded_dims(out@) is Some ==> decoded_dims(out@)->0
                == dims))
            &&& (r matches Err(e) ==> e is Encode)
        }),
{
    let img = match decode_image(data) {
        Ok(img) => img,
        Err(e) => return Err(e),
    };
    img.save_as(fmt)
}

} // verus!
