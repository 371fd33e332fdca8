//! Extraction: from the bytes of a region file to the decoded chunks.

use vstd::prelude::*;
use vstd::slice::slice_subrange;
use crate::chunk::decode_record;
use crate::chunk::outcome_view;
use crate::chunk::record_decoded;
use crate::coords::chunk_coord;
use crate::coords::coord_normalizer;
use crate::coords::region_in_range;
use crate::error::RegionError;
use crate::header::header_of;
use crate::header::read_anvil_header;
use crate::header::ENTRY_COUNT;
use crate::header::LocationEntry;

verus! {

/// One chunk that a region holds: where it lies in the world, and what
/// decoding its record gave.
#[derive(Debug, PartialEq, Eq)]
pub struct ExtractedChunk {
    /// World chunk coordinate along x.
    pub x: i64,
    /// World chunk coordinate along z.
    pub z: i64,
    /// The decoded bytes of the chunk, or why there are none.
    pub outcome: Result<Vec<u8>, RegionError>,
}

/// An extracted chunk as plain values.
pub struct ExtractedChunkView {
    pub coord: (int, int),
    pub outcome: Result<Seq<u8>, RegionError>,
}

impl View for ExtractedChunk {
    type V = ExtractedChunkView;

    open spec fn view(&self) -> ExtractedChunkView {
        ExtractedChunkView {
            coord: (self.x as int, self.z as int),
            outcome: outcome_view(self.outcome),
        }
    }
}

/// Whether the span that `entry` reserves lies inside `region`.
pub open spec fn span_in_source(region: Seq<u8>, entry: LocationEntry) -> bool {
    entry.sector_offset + entry.byte_length <= region.len()
}

/// The bytes of `region` that `entry` reserves.
pub open spec fn span_of(region: Seq<u8>, entry: LocationEntry) -> Seq<u8> {
    region.subrange(entry.sector_offset as int, entry.sector_offset + entry.byte_length)
}

/// What the slot with location `entry` yields: nothing where the chunk is
/// absent, a read failure where the region ends before the reserved span
/// does, and else what decoding the record in that span gives.
pub open spec fn slot_outcome(region: Seq<u8>, entry: LocationEntry) -> Option<
    Result<Seq<u8>, RegionError>,
> {
    if entry.byte_length == 0 {
        None
    } else if !span_in_source(region, entry) {
        Some(Err(RegionError::Io))
    } else {
        Some(record_decoded(span_of(region, entry)))
    }
}

/// What slot `slot` of the region `(region_x, region_z)` with bytes `region`
/// yields: nothing where the chunk is absent, else its coordinate and the
/// outcome of decoding it.
pub open spec fn slot_chunk(region: Seq<u8>, region_x: int, region_z: int, slot: int) -> Option<
    ExtractedChunkView,
> {
    match slot_outcome(region, header_of(region)[slot]) {
        Some(outcome) => Some(
            ExtractedChunkView { coord: chunk_coord(region_x, region_z, slot), outcome },
        ),
        None => None,
    }
}

/// An optional decoding outcome with its bytes as a sequence.
pub open spec fn slot_view(found: Option<Result<Vec<u8>, RegionError>>) -> Option<
    Result<Seq<u8>, RegionError>,
> {
    match found {
        Some(outcome) => Some(outcome_view(outcome)),
        None => None,
    }
}

/// An optional extracted chunk as plain values.
pub open spec fn chunk_view(found: Option<ExtractedChunk>) -> Option<ExtractedChunkView> {
    match found {
        Some(chunk) => Some(chunk@),
        None => None,
    }
}

/// Decodes the chunk that `entry` locates in `region`, the bytes of a region
/// file from its first byte on. An absent chunk gives `None`.
pub fn extract_slot(region: &[u8], entry: LocationEntry) -> (found: Option<
    Result<Vec<u8>, RegionError>,
>)
    ensures
        slot_view(found) == slot_outcome(region@, entry),
{
    if entry.byte_length == 0 {
        return None;
    }
    let available: u64 = region.len() as u64;
    if entry.byte_length > available || entry.sector_offset > available - entry.byte_length {
        return Some(Err(RegionError::Io));
    }
    let start: usize = entry.sector_offset as usize;
    let end: usize = (entry.sector_offset + entry.byte_length) as usize;
    Some(decode_record(slice_subrange(region, start, end)))
}

/// Extracts every chunk of the region `(region_x, region_z)` from `region`,
/// the bytes of its file. The result has one place per slot, in slot order.
/// A region without a whole location table is refused; a chunk that fails
/// to decode keeps its error and does not stop the others.
pub fn index_mca(region: &[u8], region_x: i64, region_z: i64) -> (chunks: Result<
    Vec<Option<ExtractedChunk>>,
    RegionError,
>)
    requires
        region_in_range(region_x as int),
        region_in_range(region_z as int),
    ensures
        region@.len() < 4096 <==> chunks == Err::<Vec<Option<ExtractedChunk>>, RegionError>(
            RegionError::TruncatedHeader,
        ),
        region@.len() >= 4096 <==> chunks.is_ok(),
        chunks matches Ok(found) ==> found@.len() == 1024 && forall|slot: int|
            0 <= slot < 1024 ==> chunk_view(#[trigger] found@[slot]) == slot_chunk(
                region@,
                region_x as int,
                region_z as int,
                slot,
            ),
{
    let header: Vec<LocationEntry> = match read_anvil_header(region) {
        Ok(entries) => entries,
        Err(e) => {
            return Err(e);
        },
    };
    let mut found: Vec<Option<ExtractedChunk>> = Vec::with_capacity(ENTRY_COUNT);
    let mut slot: usize = 0;
    while slot < ENTRY_COUNT
        invariant
            slot <= 1024,
            region_in_range(region_x as int),
            region_in_range(region_z as int),
            header@ == header_of(region@),
            found@.len() == slot,
            forall|k: int|
                0 <= k < slot ==> chunk_view(#[trigger] found@[k]) == slot_chunk(
                    region@,
                    region_x as int,
                    region_z as int,
                    k,
                ),
        decreases 1024 - slot,
    {
        let place: Option<ExtractedChunk> = match extract_slot(region, header[slot]) {
            Some(outcome) => {
                let coord: (i64, i64) = coord_normalizer(region_x, region_z, slot);
                Some(ExtractedChunk { x: coord.0, z: coord.1, outcome })
            },
            None => None,
        };
        found.push(place);
        slot += 1;
    }
    Ok(found)
}

} // verus!
