//! The Transform Executor and the decoder/encoder adapter.
//!
//! An [`ImageHandle`] is an in-memory decoded raster with known
//! dimensions, owned exclusively by one chain of transforms; resize and
//! crop return a new handle rather than mutating in place.  The pixel
//! work itself is delegated to the `image` crate behind a small set of
//! trusted wrappers.  Decoding, resampling, cropping and encoding are
//! all deterministic in the raster value and their arguments, so each
//! result carries a name (`decoded_img`, `resized_of`, `cropped_of`,
//! `encoded_of`) that the contracts chain together.

use vstd::prelude::*;

use crate::constraint::{constrain_dims, constrained_dims, OutputFormat};
use crate::errors::ImgError;
use crate::geometry::{
    lemma_normalize_full, normalize_rect, normalize_spec, rect_in_bounds, rect_in_range,
    rect_is_full, FractionalRect, PixelRect,
};

verus! {

#[verifier::external_type_specification]
#[verifier::external_body]
pub struct ExDynamicImage(image::DynamicImage);

#[verifier::external_type_specification]
#[verifier::external_body]
pub struct ExImageFormat(image::ImageFormat);

/// The width and height of a decoded raster.
pub uninterp spec fn img_size(img: image::DynamicImage) -> (u32, u32);

/// The pixel grid of a decoded raster, row by row, each pixel in its
/// 8-bit-per-channel RGBA rendering packed into one value.
pub uninterp spec fn img_pixels(img: image::DynamicImage) -> Seq<Seq<u32>>;

/// The raster a byte buffer decodes to, or nothing where the adapter
/// rejects the bytes.  Decoding reads the bytes alone, so this is a
/// function of them.
pub uninterp spec fn decoded_img(data: Seq<u8>) -> Option<image::DynamicImage>;

/// The raster the triangular resampler produces for a target size; a
/// function of the source raster and the target alone.
pub uninterp spec fn resized_of(img: image::DynamicImage, w: u32, h: u32) -> image::DynamicImage;

/// The raster cropping produces for a rectangle; a function of the
/// source raster and the rectangle alone.
pub uninterp spec fn cropped_of(
    img: image::DynamicImage,
    x: u32,
    y: u32,
    w: u32,
    h: u32,
) -> image::DynamicImage;

/// The bytes encoding a raster to a format, or nothing where the
/// encoder rejects it (an icon side beyond 256, a pixel layout the
/// format cannot carry); a function of the raster and the format alone.
pub uninterp spec fn encoded_of(img: image::DynamicImage, fmt: OutputFormat) -> Option<Seq<u8>>;

/// The dimensions a byte buffer decodes to, if it decodes.
pub open spec fn decoded_dims(data: Seq<u8>) -> Option<(u32, u32)> {
    match decoded_img(data) {
        Some(img) => Some(img_size(img)),
        None => None,
    }
}

/// A pixel grid of exactly `h` rows of `w` pixels each.
pub open spec fn grid_wf(p: Seq<Seq<u32>>, w: u32, h: u32) -> bool {
    &&& p.len() == h
    &&& forall|i: int| 0 <= i < p.len() ==> (#[trigger] p[i]).len() == w
}

/// The sub-grid of `p` with origin `(x, y)`, width `w` and height `h`.
pub open spec fn sub_grid(p: Seq<Seq<u32>>, x: int, y: int, w: int, h: int) -> Seq<Seq<u32>>
    recommends
        0 <= x,
        0 <= y,
        0 <= w,
        0 <= h,
{
    Seq::new(h as nat, |r: int| p[y + r].subrange(x, x + w))
}

/// The whole grid is its own full-size sub-grid.
proof fn lemma_sub_grid_full(p: Seq<Seq<u32>>, w: u32, h: u32)
    requires
        grid_wf(p, w, h),
    ensures
        sub_grid(p, 0, 0, w as int, h as int) == p,
{
    let s = sub_grid(p, 0, 0, w as int, h as int);
    assert forall|i: int| 0 <= i < p.len() implies s[i] == p[i] by {
        assert(s[i] =~= p[i]);
    }
    assert(s =~= p);
}

/// Relies on `image::io::Reader`: `with_guessed_format` recognizes the
/// format from the leading bytes and `decode` reads the cursor's bytes
/// alone, so success and the decoded raster are functions of `data`.
#[verifier::external_body]
fn decode_bytes(data: &Vec<u8>) -> (r: Result<image::DynamicImage, String>)
    ensures
        r is Ok <==> decoded_img(data@) is Some,
        r matches Ok(img) ==> img == decoded_img(data@)->0,
{
    let cursor = std::io::Cursor::new(data.as_slice());
    let reader = match image::io::Reader::new(cursor).with_guessed_format() {
        Ok(rd) => rd,
        Err(e) => return Err(format!("{}", e)),
    };
    match reader.decode() {
        Ok(img) => Ok(img),
        Err(e) => Err(format!("{}", e)),
    }
}

/// Relies on `GenericImageView::dimensions` for `DynamicImage`: it
/// returns the raster's width and height, whose shape the pixel grid
/// matches by construction.
#[verifier::external_body]
fn dims_of(img: &image::DynamicImage) -> (r: (u32, u32))
    ensures
        r == img_size(*img),
        grid_wf(img_pixels(*img), r.0, r.1),
{
    image::GenericImageView::dimensions(img)
}

/// Relies on `DynamicImage::resize_exact` with `FilterType::Triangle`:
/// the result has exactly the requested dimensions, resampled with the
/// triangular (bilinear-style) kernel, a pure function of the source.
#[verifier::external_body]
fn resize_exact_triangle(img: &image::DynamicImage, w: u32, h: u32) -> (r: image::DynamicImage)
    ensures
        r == resized_of(*img, w, h),
        img_size(r) == (w, h),
{
    img.resize_exact(w, h, image::imageops::FilterType::Triangle)
}

/// Relies on `DynamicImage::crop_imm`: an in-bounds rectangle yields
/// exactly that region of the pixel grid, values unchanged, a pure
/// function of the source.
#[verifier::external_body]
fn crop_imm_region(img: &image::DynamicImage, x: u32, y: u32, w: u32, h: u32) -> (r:
    image::DynamicImage)
    requires
        x + w <= img_size(*img).0,
        y + h <= img_size(*img).1,
    ensures
        r == cropped_of(*img, x, y, w, h),
        img_size(r) == (w, h),
        img_pixels(r) == sub_grid(img_pixels(*img), x as int, y as int, w as int, h as int),
{
    img.crop_imm(x, y, w, h)
}

/// Relies on `DynamicImage`'s derived `Clone`: the copy is the same
/// raster.
#[verifier::external_body]
fn clone_image(img: &image::DynamicImage) -> (r: image::DynamicImage)
    ensures
        r == *img,
{
    img.clone()
}

/// Maps the library's format names to the encoder's own, one arm each.
#[verifier::external_body]
fn outside_format(fmt: OutputFormat) -> image::ImageFormat {
    match fmt {
        OutputFormat::Png => image::ImageFormat::Png,
        OutputFormat::Jpeg => image::ImageFormat::Jpeg,
        OutputFormat::Gif => image::ImageFormat::Gif,
        OutputFormat::Bmp => image::ImageFormat::Bmp,
        OutputFormat::Ico => image::ImageFormat::Ico,
        OutputFormat::Tiff => image::ImageFormat::Tiff,
        OutputFormat::Tga => image::ImageFormat::Tga,
        OutputFormat::Qoi => image::ImageFormat::Qoi,
        OutputFormat::Pnm => image::ImageFormat::Pnm,
        OutputFormat::Farbfeld => image::ImageFormat::Farbfeld,
        OutputFormat::OpenExr => image::ImageFormat::OpenExr,
        OutputFormat::WebP => image::ImageFormat::WebP,
    }
}

/// Relies on `DynamicImage::write_to`, which encodes the raster to the
/// chosen format into an in-memory cursor, deterministically; a failure
/// is the encoder's to signal.  Bytes it accepts decode back (where the
/// format is recognizable from its bytes) to the raster's dimensions.
#[verifier::external_body]
fn encode_to_format(img: &image::DynamicImage, fmt: OutputFormat) -> (r: Result<Vec<u8>, String>)
    ensures
        r is Ok <==> encoded_of(*img, fmt) is Some,
        r matches Ok(b) ==> b@ == encoded_of(*img, fmt)->0,
        r matches Ok(b) ==> (decoded_dims(b@) is Some ==> decoded_dims(b@)->0 == img_size(*img)),
{
    let mut buf = std::io::Cursor::new(Vec::new());
    match img.write_to(&mut buf, outside_format(fmt)) {
        Ok(()) => Ok(buf.into_inner()),
        Err(e) => Err(format!("{}", e)),
    }
}

/// An in-memory decoded raster with its dimensions.  Each transform
/// consumes nothing and shares nothing: it returns a fresh handle.
pub struct ImageHandle {
    img: image::DynamicImage,
    width: u32,
    height: u32,
}

impl ImageHandle {
    /// The raster this handle carries.
    pub closed spec fn raster(self) -> image::DynamicImage {
        self.img
    }

    /// The recorded dimensions match the raster, and its pixel grid has
    /// that shape.
    pub closed spec fn wf(self) -> bool {
        &&& img_size(self.img) == (self.width, self.height)
        &&& grid_wf(img_pixels(self.img), self.width, self.height)
    }

    pub closed spec fn size(self) -> (u32, u32) {
        (self.width, self.height)
    }

    pub closed spec fn pixels(self) -> Seq<Seq<u32>> {
        img_pixels(self.img)
    }

    /// A well-formed handle's pixel grid has exactly its recorded
    /// shape, and its size is the raster's.
    pub proof fn lemma_wf_grid(self)
        requires
            self.wf(),
        ensures
            grid_wf(self.pixels(), self.size().0, self.size().1),
            img_size(self.raster()) == self.size(),
    {
    }

    pub fn dimensions(&self) -> (r: (u32, u32))
        ensures
            r == self.size(),
    {
        (self.width, self.height)
    }

    /// Resize to exactly `(width, height)` with the triangular
    /// resampling filter; a zero side is rejected as degenerate.
    pub fn resize(&self, width: u32, height: u32) -> (r: Result<ImageHandle, ImgError>)
        requires
            self.wf(),
        ensures
            r is Ok <==> 1 <= width && 1 <= height,
            r matches Ok(h) ==> h.wf() && h.size() == (width, height) && h.raster() == resized_of(
                self.raster(),
                width,
                height,
            ),
            r matches Err(e) ==> e is InvalidDimensions,
    {
        if width == 0 || height == 0 {
            return Err(ImgError::InvalidDimensions);
        }
        let img2 = resize_exact_triangle(&self.img, width, height);
        let (w2, h2) = dims_of(&img2);
        Ok(ImageHandle { img: img2, width: w2, height: h2 })
    }

    /// Crop to a pixel rectangle already normalized to this image's
    /// bounds; pixel values are preserved unchanged.
    pub fn crop(&self, rect: PixelRect) -> (r: ImageHandle)
        requires
            self.wf(),
            rect_in_bounds(rect, self.size().0, self.size().1),
        ensures
            r.wf(),
            r.size() == (rect.width, rect.height),
            r.raster() == cropped_of(self.raster(), rect.x, rect.y, rect.width, rect.height),
            r.pixels() == sub_grid(
                self.pixels(),
                rect.x as int,
                rect.y as int,
                rect.width as int,
                rect.height as int,
            ),
    {
        let img2 = crop_imm_region(&self.img, rect.x, rect.y, rect.width, rect.height);
        let (w2, h2) = dims_of(&img2);
        ImageHandle { img: img2, width: w2, height: h2 }
    }

    /// Normalize a fractional crop request against this image's
    /// dimensions, then crop to the resulting rectangle.  A request
    /// covering the whole image (fractions `(0, 0, 1, 1)`) returns an
    /// image with unchanged dimensions and pixel-identical content.
    pub fn crop_fraction(&self, fr: FractionalRect) -> (r: Result<ImageHandle, ImgError>)
        requires
            self.wf(),
        ensures
            r is Ok <==> rect_in_range(fr),
            r matches Ok(c) ==> {
                let p = normalize_spec(self.size().0, self.size().1, fr);
                &&& c.wf()
                &&& c.size() == (p.width, p.height)
                &&& c.raster() == cropped_of(self.raster(), p.x, p.y, p.width, p.height)
                &&& c.pixels() == sub_grid(
                    self.pixels(),
                    p.x as int,
                    p.y as int,
                    p.width as int,
                    p.height as int,
                )
            },
            rect_is_full(fr) ==> (r matches Ok(c) && c.size() == self.size() && c.pixels()
                == self.pixels()),
            r matches Err(e) ==> e is InvalidRegion,
    {
        match normalize_rect(self.width, self.height, fr) {
            Ok(p) => {
                let c = self.crop(p);
                proof {
                    if rect_is_full(fr) {
                        lemma_normalize_full(self.width, self.height, fr);
                        lemma_sub_grid_full(self.pixels(), self.width, self.height);
                    }
                }
                Ok(c)
            },
            Err(e) => Err(e),
        }
    }

    /// Rewrite this image for the target format: unchanged unless the
    /// format caps the longer side and the image exceeds the cap, in
    /// which case it is resized to the capped dimensions.
    pub fn constrain_for_format(&self, fmt: OutputFormat) -> (r: ImageHandle)
        requires
            self.wf(),
        ensures
            r.wf(),
            r.size() == constrained_dims(fmt, self.size().0, self.size().1),
            ({
                let dims = constrained_dims(fmt, self.size().0, self.size().1);
                r.raster() == if dims == self.size() {
                    self.raster()
                } else {
                    resized_of(self.raster(), dims.0, dims.1)
                }
            }),
            constrained_dims(fmt, self.size().0, self.size().1) == self.size() ==> r.pixels()
                == self.pixels(),
    {
        let (nw, nh) = constrain_dims(fmt, self.width, self.height);
        if nw == self.width && nh == self.height {
            let img2 = clone_image(&self.img);
            let (w2, h2) = dims_of(&img2);
            ImageHandle { img: img2, width: w2, height: h2 }
        } else {
            let img2 = resize_exact_triangle(&self.img, nw, nh);
            let (w2, h2) = dims_of(&img2);
            ImageHandle { img: img2, width: w2, height: h2 }
        }
    }

    /// Encode to the requested output format.  The result is exactly
    /// the encoder's bytes for this raster; it fails, with `Encode`,
    /// precisely where the encoder rejects the raster.  Bytes that come
    /// back decode to this image's dimensions (where their format is
    /// recognizable from the bytes).
    pub fn encode(&self, fmt: OutputFormat) -> (r: Result<Vec<u8>, ImgError>)
        requires
            self.wf(),
        ensures
            r is Ok <==> encoded_of(self.raster(), fmt) is Some,
            r matches Ok(b) ==> b@ == encoded_of(self.raster(), fmt)->0,
            r matches Ok(b) ==> (decoded_dims(b@) is Some ==> decoded_dims(b@)->0 == self.size()),
            r matches Err(e) ==> e is Encode,
    {
        match encode_to_format(&self.img, fmt) {
            Ok(bytes) => Ok(bytes),
            Err(msg) => Err(ImgError::Encode(msg)),
        }
    }

    /// The "save as" transform: enforce the target format's constraint,
    /// then encode.  An image already satisfying the constraint is
    /// encoded unchanged, with no needless resample; it succeeds iff
    /// the encoder accepts the constrained raster.
    pub fn save_as(&self, fmt: OutputFormat) -> (r: Result<Vec<u8>, ImgError>)
        requires
            self.wf(),
        ensures
            ({
                let dims = constrained_dims(fmt, self.size().0, self.size().1);
                let target = if dims == self.size() {
                    self.raster()
                } else {
                    resized_of(self.raster(), dims.0, dims.1)
                };
                &&& (r is Ok <==> encoded_of(target, fmt) is Some)
                &&& (r matches Ok(b) ==> b@ == encoded_of(target, fmt)->0)
                &&& (r matches Ok(b) ==> (decoded_dims(b@) is Some ==> decoded_dims(b@)->0
                    == dims))
                &&& (r matches Err(e) ==> e is Encode)
            }),
    {
        let constrained = self.constrain_for_format(fmt);
        constrained.encode(fmt)
    }
}

/// Decode a raw byte buffer; the format is recognized from the bytes
/// themselves.
pub fn decode_image(data: &Vec<u8>) -> (r: Result<ImageHandle, ImgError>)
    ensures
        r is Ok <==> decoded_img(data@) is Some,
        r matches Ok(h) ==> h.wf() && h.raster() == decoded_img(data@)->0 && h.size()
            == decoded_dims(data@)->0,
        r matches Err(e) ==> e is Decode,
{
    match decode_bytes(data) {
        Ok(img) => {
            let (w, h) = dims_of(&img);
            Ok(ImageHandle { img, width: w, height: h })
        },
        Err(msg) => Err(ImgError::Decode(msg)),
    }
}

} // verus!
