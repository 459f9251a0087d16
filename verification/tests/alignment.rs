use rwr::align::{SHADER_IDENTIFIER_SIZE, SHADER_RECORD_ALIGNMENT, SHADER_TABLE_ALIGNMENT};
use rwr::shader_table::{write_shader_table, ShaderTableLayout};

#[test]
fn hardware_constants() {
    assert_eq!(SHADER_IDENTIFIER_SIZE, 32);
    assert_eq!(SHADER_RECORD_ALIGNMENT, 32);
    assert_eq!(SHADER_TABLE_ALIGNMENT, 64);
}

#[test]
fn single_record_layout_exact_values() {
    let l = ShaderTableLayout::compute(1, 1, 1);
    assert_eq!(l.record_size, 32);
    assert_eq!(l.ray_gen_size, 32);
    assert_eq!(l.miss_size, 32);
    assert_eq!(l.hit_group_size, 32);
    assert_eq!(l.ray_gen_region, 64);
    assert_eq!(l.miss_region, 64);
    assert_eq!(l.hit_group_region, 64);
    assert_eq!(l.table_size, 192);
}

#[test]
fn multi_record_layout_exact_values() {
    let l = ShaderTableLayout::compute(1, 3, 2);
    assert_eq!(l.record_size, 32);
    assert_eq!(l.ray_gen_region, 64);
    // 3 records of 32 bytes round up to 128.
    assert_eq!(l.miss_size, 96);
    assert_eq!(l.miss_region, 128);
    // 2 records of 32 bytes are exactly one table alignment unit.
    assert_eq!(l.hit_group_size, 64);
    assert_eq!(l.hit_group_region, 64);
    assert_eq!(l.table_size, 64 + 128 + 64);
}

#[test]
fn regions_are_table_aligned_for_various_counts() {
    for &(rg, ms, hg) in &[(1u32, 1u32, 1u32), (2, 3, 5), (1, 7, 1), (4, 4, 4), (1, 1, 9)] {
        let l = ShaderTableLayout::compute(rg, ms, hg);
        assert_eq!(l.ray_gen_region % SHADER_TABLE_ALIGNMENT, 0);
        assert_eq!(l.miss_region % SHADER_TABLE_ALIGNMENT, 0);
        assert_eq!(l.hit_group_region % SHADER_TABLE_ALIGNMENT, 0);
        // Every record's start offset within its region is record-aligned.
        for i in 0..ms {
            assert_eq!((i * l.record_size) % SHADER_RECORD_ALIGNMENT, 0);
        }
    }
}

#[test]
fn table_image_places_identifiers_and_zero_padding() {
    let l = ShaderTableLayout::compute(1, 1, 1);
    let ray_gen_id = vec![0x11u8; 32];
    let miss_id = vec![0x22u8; 32];
    let hit_group_id = vec![0x33u8; 32];
    let table = write_shader_table(&l, &ray_gen_id, &miss_id, &hit_group_id);

    assert_eq!(table.len(), 192);
    assert_eq!(&table[0..32], &ray_gen_id[..]);
    assert_eq!(&table[64..96], &miss_id[..]);
    assert_eq!(&table[128..160], &hit_group_id[..]);
    // Padding between and after the records is zero.
    assert!(table[32..64].iter().all(|&b| b == 0));
    assert!(table[96..128].iter().all(|&b| b == 0));
    assert!(table[160..192].iter().all(|&b| b == 0));
}
