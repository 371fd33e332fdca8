//! The location table: the first 4096 bytes of a region file.

use vstd::prelude::*;
use crate::error::RegionError;

verus! {

/// Bytes in a sector, the unit in which a region file addresses chunk data.
pub const SECTOR_BYTES: u64 = 4096;

/// Bytes in the location table.
pub const HEADER_BYTES: usize = 4096;

/// Entries in the location table: one per chunk slot.
pub const ENTRY_COUNT: usize = 1024;

/// Where the record of one chunk lies in the region file. Both fields are in
/// bytes. A `byte_length` of 0 says that the chunk is absent.
#[derive(Clone, Copy, Debug, PartialEq, Eq, Structural)]
pub struct LocationEntry {
    /// Byte address of the first sector reserved for the chunk.
    pub sector_offset: u64,
    /// Bytes reserved for the chunk: a whole number of sectors.
    pub byte_length: u64,
}

/// The unsigned number that four bytes spell, most significant byte first.
pub open spec fn be_u32(b0: u8, b1: u8, b2: u8, b3: u8) -> int {
    b0 as int * 0x100_0000 + b1 as int * 0x1_0000 + b2 as int * 0x100 + b3 as int
}

/// The location entry that the 32-bit table word `word` stands for: its upper
/// 24 bits count the sectors before the chunk, its lowest 8 bits the sectors
/// of the chunk.
pub open spec fn entry_of_word(word: int) -> LocationEntry {
    LocationEntry {
        sector_offset: ((word / 256) * 4096) as u64,
        byte_length: ((word % 256) * 4096) as u64,
    }
}

/// The table word at `slot` of the location table `data`.
pub open spec fn word_at(data: Seq<u8>, slot: int) -> int {
    be_u32(data[4 * slot], data[4 * slot + 1], data[4 * slot + 2], data[4 * slot + 3])
}

/// The location table that the first 4096 bytes of `data` spell: 1024
/// entries in slot order.
pub open spec fn header_of(data: Seq<u8>) -> Seq<LocationEntry> {
    Seq::new(1024, |slot: int| entry_of_word(word_at(data, slot)))
}

/// Turns one 32-bit word of the location table into its entry.
pub fn decode_entry(word: u32) -> (entry: LocationEntry)
    ensures
        entry == entry_of_word(word as int),
        entry.sector_offset as int == (word as int / 256) * 4096,
        entry.byte_length as int == (word as int % 256) * 4096,
{
    let sectors_before: u64 = (word / 256) as u64;
    let sectors: u64 = (word % 256) as u64;
    LocationEntry {
        sector_offset: sectors_before * SECTOR_BYTES,
        byte_length: sectors * SECTOR_BYTES,
    }
}

/// Reads the word of `slot` out of the location table `data`.
fn read_word(data: &[u8], slot: usize) -> (word: u32)
    requires
        slot < 1024,
        data@.len() >= 4096,
    ensures
        word as int == word_at(data@, slot as int),
{
    let at: usize = 4 * slot;
    let b0: u32 = data[at] as u32;
    let b1: u32 = data[at + 1] as u32;
    let b2: u32 = data[at + 2] as u32;
    let b3: u32 = data[at + 3] as u32;
    b0 * 0x100_0000 + b1 * 0x1_0000 + b2 * 0x100 + b3
}

/// Parses the location table at the start of `data`, the bytes of a region
/// file from its first byte on. Bytes after the table are not looked at.
pub fn read_anvil_header(data: &[u8]) -> (header: Result<Vec<LocationEntry>, RegionError>)
    ensures
        data@.len() < 4096 <==> header == Err::<Vec<LocationEntry>, RegionError>(
            RegionError::TruncatedHeader,
        ),
        data@.len() >= 4096 <==> header.is_ok(),
        header matches Ok(entries) ==> entries@ == header_of(data@),
{
    if data.len() < HEADER_BYTES {
        return Err(RegionError::TruncatedHeader);
    }
    let mut entries: Vec<LocationEntry> = Vec::with_capacity(ENTRY_COUNT);
    let mut slot: usize = 0;
    while slot < ENTRY_COUNT
        invariant
            slot <= 1024,
            data@.len() >= 4096,
            entries@.len() == slot,
            forall|k: int| 0 <= k < slot ==> entries@[k] == entry_of_word(word_at(data@, k)),
        decreases 1024 - slot,
    {
        let word: u32 = read_word(data, slot);
        entries.push(decode_entry(word));
        slot += 1;
    }
    assert(entries@ =~= header_of(data@));
    Ok(entries)
}

/// The byte offset of an entry is its word shifted right by eight bits, times
/// 4096; its byte length is the lowest eight bits of the word, times 4096.
pub proof fn entry_fields_are_shift_and_mask(word: u32)
    ensures
        entry_of_word(word as int).sector_offset as int == (word >> 8) as int * 4096,
        entry_of_word(word as int).byte_length as int == (word & 0xFF) as int * 4096,
{
    assert(word >> 8 == word / 256 && word & 0xFF == word % 256) by (bit_vector);
}

} // verus!
