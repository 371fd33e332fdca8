use anvil_region::error::RegionError;
use anvil_region::header::{decode_entry, read_anvil_header, LocationEntry};

#[test]
fn zero_table_is_an_empty_region() {
    let data = vec![0u8; 4096];
    let header = read_anvil_header(&data).unwrap();
    assert_eq!(header.len(), 1024);
    for entry in header {
        assert_eq!(entry, LocationEntry { sector_offset: 0, byte_length: 0 });
    }
}

#[test]
fn entry_0x201_at_slot_0() {
    let mut data = vec![0u8; 4096];
    data[0..4].copy_from_slice(&[0x00, 0x00, 0x02, 0x01]);
    let header = read_anvil_header(&data).unwrap();
    assert_eq!(header[0], LocationEntry { sector_offset: 8192, byte_length: 4096 });
    assert_eq!(header[1], LocationEntry { sector_offset: 0, byte_length: 0 });
}

#[test]
fn entries_come_in_slot_order() {
    let mut data = vec![0u8; 8192];
    for slot in 0..1024usize {
        let word = ((slot as u32 + 2) << 8) | (slot as u32 % 256);
        data[4 * slot..4 * slot + 4].copy_from_slice(&word.to_be_bytes());
    }
    let header = read_anvil_header(&data).unwrap();
    assert_eq!(header.len(), 1024);
    for slot in 0..1024usize {
        assert_eq!(header[slot].sector_offset, (slot as u64 + 2) * 4096);
        assert_eq!(header[slot].byte_length, (slot as u64 % 256) * 4096);
    }
}

#[test]
fn bytes_are_read_most_significant_first() {
    let mut data = vec![0u8; 4096];
    data[4092..4096].copy_from_slice(&[0x12, 0x34, 0x56, 0x78]);
    let header = read_anvil_header(&data).unwrap();
    assert_eq!(
        header[1023],
        LocationEntry { sector_offset: 0x123456 * 4096, byte_length: 0x78 * 4096 }
    );
}

#[test]
fn short_source_is_a_truncated_header() {
    assert_eq!(read_anvil_header(&[]), Err(RegionError::TruncatedHeader));
    assert_eq!(read_anvil_header(&vec![0u8; 4095]), Err(RegionError::TruncatedHeader));
    assert_eq!(read_anvil_header(&vec![7u8; 100]), Err(RegionError::TruncatedHeader));
}

#[test]
fn bytes_after_the_table_do_not_count() {
    let mut data = vec![0u8; 4096];
    data[8..12].copy_from_slice(&[0, 0, 3, 2]);
    let short = read_anvil_header(&data).unwrap();
    data.extend_from_slice(&[0xFFu8; 5000]);
    let long = read_anvil_header(&data).unwrap();
    assert_eq!(short, long);
    assert_eq!(long[2], LocationEntry { sector_offset: 3 * 4096, byte_length: 2 * 4096 });
}

#[test]
fn decode_entry_splits_the_word() {
    assert_eq!(decode_entry(0), LocationEntry { sector_offset: 0, byte_length: 0 });
    assert_eq!(decode_entry(0x0000_0201), LocationEntry { sector_offset: 8192, byte_length: 4096 });
    assert_eq!(
        decode_entry(0xFFFF_FFFF),
        LocationEntry { sector_offset: 0xFF_FFFF * 4096, byte_length: 255 * 4096 }
    );
    assert_eq!(decode_entry(0x0000_00FF), LocationEntry { sector_offset: 0, byte_length: 1_044_480 });
    assert_eq!(decode_entry(0x0000_0100), LocationEntry { sector_offset: 4096, byte_length: 0 });
}

#[test]
fn decode_entry_is_shift_and_mask() {
    for word in [1u32, 0x201, 0xABCD_EF01, 0x8000_0000, 0x7FFF_FFFF, 0xFFFF_FF00] {
        let entry = decode_entry(word);
        assert_eq!(entry.sector_offset, (word >> 8) as u64 * 4096);
        assert_eq!(entry.byte_length, (word & 0xFF) as u64 * 4096);
    }
}
