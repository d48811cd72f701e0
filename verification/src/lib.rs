//! Decoder for the WAD archive container: a fixed 12-byte header, a
//! directory of named lumps, and fixed-width little-endian record arrays
//! (vertices and line definitions) addressed through that directory, plus
//! a coordinate normalizer for the decoded vertex set.

use vstd::prelude::*;

pub mod layout;
pub mod normalize;
pub mod reader;
pub mod wad;

verus! {

/// A decode step failure. The whole decode either succeeds or reports one
/// of these; absence of a named lump is not an error.
#[derive(Clone, Copy, Debug, PartialEq, Eq, Structural)]
pub enum WadError {
    /// A read would consume bytes past the end of the buffer: the archive
    /// is truncated or corrupt.
    OutOfBounds,
    /// The 4-byte identification tag at offset 0 is not the expected
    /// signature.
    InvalidHeader,
    /// Normalization was asked for an empty vertex sequence, whose minimum
    /// is undefined.
    EmptyInput,
}

} // verus!
