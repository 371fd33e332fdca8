//! What can go wrong while a region is decoded.

use vstd::prelude::*;

verus! {

/// The ways in which decoding a region, or one chunk of it, fails.
#[derive(Clone, Copy, Debug, PartialEq, Eq, Structural)]
pub enum RegionError {
    /// The source ends before the location table does.
    TruncatedHeader,
    /// A chunk record declares more bytes than the span reserved for it holds.
    TruncatedRecord,
    /// The compression tag of a chunk record is none of 0, 2 and 3.
    UnsupportedScheme,
    /// The payload of a chunk record is no valid zlib stream.
    Decompression,
    /// The source ends before the span that a location entry reserves.
    Io,
}

} // verus!
