use vstd::prelude::*;

verus! {

/// The failure taxonomy of the transform pipeline.
///
/// `Decode` and `Encode` carry the adapter's own description of the
/// failure; the caller is expected to prefix it with the failing stage.
#[derive(Debug)]
pub enum ImgError {
    /// The byte stream is corrupt, or its format could not be recognized.
    Decode(String),
    /// The pixel buffer could not be encoded to the requested format.
    Encode(String),
    /// A resize target with a zero side.
    InvalidDimensions,
    /// A fractional crop request with a degenerate or out-of-range fraction.
    InvalidRegion,
}

} // verus!
