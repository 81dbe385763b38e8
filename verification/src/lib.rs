//! A local image-inventory and transformation library.
//!
//! The heart of the crate is the geometry-normalization and transform
//! pipeline: fractional crop requests are turned into pixel-exact,
//! bounds-safe rectangles, resize targets are validated, and an icon
//! format's 256-pixel-per-side cap is enforced while preserving the
//! aspect ratio.  Decoding and encoding of pixel data is delegated to
//! an encoder/decoder adapter.

pub mod constraint;
pub mod errors;
pub mod geometry;
pub mod listing;
pub mod names;
pub mod pipeline;
pub mod raster;
pub mod records;
