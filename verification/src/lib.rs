//! Decoder for Anvil region files: the location table, chunk records and
//! chunk coordinates.

pub mod chunk;
pub mod coords;
pub mod error;
pub mod extract;
pub mod header;

pub use crate::chunk::decompress_chunk;
pub use crate::coords::coord_normalizer;
pub use crate::error::RegionError;
pub use crate::extract::index_mca;
pub use crate::header::read_anvil_header;
