use anvil_region::chunk::{parse_chunk_record, ChunkRecord};
use anvil_region::{coord_normalizer, decompress_chunk, index_mca, read_anvil_header, RegionError};

#[test]
fn main_items_are_at_the_root() {
    assert_eq!(coord_normalizer(0, 0, 33), (1, 1));
    let mut data = vec![1u8, 2];
    assert_eq!(decompress_chunk(&mut data, 3), Ok(vec![1u8, 2]));
    assert_eq!(decompress_chunk(&mut data, 1), Err(RegionError::UnsupportedScheme));
    assert_eq!(read_anvil_header(&data), Err(RegionError::TruncatedHeader));
    assert_eq!(index_mca(&data, 0, 0), Err(RegionError::TruncatedHeader));
}

#[test]
fn parsed_record_equals_its_parts() {
    let span = [0u8, 0, 0, 3, 2, 40, 41, 42];
    assert_eq!(
        parse_chunk_record(&span),
        Ok(ChunkRecord { scheme: 2, payload: vec![40u8, 41] })
    );
}
