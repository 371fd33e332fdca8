use anvil_region::coords::coord_normalizer;

#[test]
fn slot_33_of_region_origin() {
    assert_eq!(coord_normalizer(0, 0, 33), (1, 1));
}

#[test]
fn slot_33_of_region_2_minus_1() {
    assert_eq!(coord_normalizer(2, -1, 33), (65, -31));
}

#[test]
fn first_and_last_slot() {
    assert_eq!(coord_normalizer(0, 0, 0), (0, 0));
    assert_eq!(coord_normalizer(0, 0, 31), (31, 0));
    assert_eq!(coord_normalizer(0, 0, 32), (0, 1));
    assert_eq!(coord_normalizer(0, 0, 1023), (31, 31));
    assert_eq!(coord_normalizer(-1, -1, 0), (-32, -32));
    assert_eq!(coord_normalizer(-1, -1, 1023), (-1, -1));
}

#[test]
fn slot_from_column_and_row() {
    for local_z in 0..32usize {
        for local_x in 0..32usize {
            let slot = local_x + local_z * 32;
            assert_eq!(
                coord_normalizer(3, -4, slot),
                (3 * 32 + local_x as i64, -4 * 32 + local_z as i64)
            );
        }
    }
}

#[test]
fn slots_cover_the_region_once() {
    let mut seen = vec![false; 1024];
    for slot in 0..1024usize {
        let (x, z) = coord_normalizer(5, -7, slot);
        assert!(5 * 32 <= x && x < 5 * 32 + 32);
        assert!(-7 * 32 <= z && z < -7 * 32 + 32);
        let at = (x - 5 * 32) as usize + (z + 7 * 32) as usize * 32;
        assert!(!seen[at]);
        seen[at] = true;
    }
    assert!(seen.iter().all(|s| *s));
}

#[test]
fn only_the_low_ten_bits_count() {
    assert_eq!(coord_normalizer(0, 0, 1024 + 33), (1, 1));
    assert_eq!(coord_normalizer(1, 1, usize::MAX), (63, 63));
}

#[test]
fn widest_regions() {
    let top = i64::MAX / 32;
    assert_eq!(coord_normalizer(top, top, 1023), (i64::MAX, i64::MAX));
    let bottom = i64::MIN / 32;
    assert_eq!(coord_normalizer(bottom, bottom, 0), (i64::MIN, i64::MIN));
}
