use rpi5_kernel::cpu::mmu::{
    create_block, kernel_table, map_blocks, mair_el1_value, new_table, populate_kernel_table,
    tcr_el1_value, BLOCK_SIZE, MAIR_DEVICE, MAIR_NORMAL, TABLE_ENTRIES,
};
use rpi5_kernel::mmu::populate_early_table;

#[test]
fn block_descriptor_values() {
    assert_eq!(create_block(0, MAIR_NORMAL), 0x705);
    assert_eq!(create_block(0x10_0000_0000, MAIR_DEVICE), 0x10_0000_0701);
    assert_eq!(create_block(0x1f_2000_0000, MAIR_DEVICE), 0x1f_2000_0701);
}

#[test]
fn block_descriptor_keeps_only_address_bits_47_to_16_and_index_bits() {
    assert_eq!(create_block(0xFFFF_FFFF_FFFF_FFFF, 0xFF), 0x0000_FFFF_FFFF_071D);
    assert_eq!(create_block(0x1234, 9), 0x705);
}

#[test]
fn kernel_table_maps_kernel_bcm_and_rp1_blocks() {
    let t = kernel_table();
    assert_eq!(t.len(), TABLE_ENTRIES);
    assert_eq!(t[0], 0x705);
    for i in 0..4usize {
        assert_eq!(t[128 + i], create_block(0x10_0000_0000 + i as u64 * BLOCK_SIZE, MAIR_DEVICE));
        assert_eq!(t[128 + i] & 0x0000_FFFF_FFFF_0000, (128 + i as u64) * BLOCK_SIZE);
    }
    assert_eq!(t[248], 0x1f_0000_0701);
    assert_eq!(t[249], 0x1f_2000_0701);
    let mapped = t.iter().filter(|d| **d != 0).count();
    assert_eq!(mapped, 7);
    assert_eq!(t[1], 0);
    assert_eq!(t[132], 0);
    assert_eq!(t[250], 0);
}

#[test]
fn populate_leaves_other_entries_alone() {
    let mut t = vec![0xAAu64; TABLE_ENTRIES];
    populate_kernel_table(&mut t);
    assert_eq!(t[1], 0xAA);
    assert_eq!(t[8191], 0xAA);
    assert_eq!(t[0], 0x705);
}

#[test]
fn early_table_maps_kernel_and_rp1_only() {
    let mut t = new_table();
    populate_early_table(&mut t);
    assert_eq!(t[0], 0x705);
    assert_eq!(t[128], 0);
    assert_eq!(t[248], 0x1f_0000_0701);
    assert_eq!(t[249], 0x1f_2000_0701);
    assert_eq!(t.iter().filter(|d| **d != 0).count(), 3);
}

#[test]
fn map_blocks_writes_consecutive_blocks() {
    let mut t = vec![0u64; 8];
    map_blocks(&mut t, 2, 0x4000_0000, 3, MAIR_DEVICE);
    assert_eq!(t, vec![0, 0, 0x4000_0701, 0x6000_0701, 0x8000_0701, 0, 0, 0]);
}

#[test]
fn mair_value() {
    let m = mair_el1_value();
    assert_eq!(m, 0xFF04);
    assert_eq!(m & 0xFF, 0x04);
    assert_eq!((m >> 8) & 0xFF, 0xFF);
}

#[test]
fn tcr_value() {
    let t = tcr_el1_value();
    assert_eq!(t, 0x5_0080_7516);
    assert_eq!(t & 0x3F, 22);
    assert_eq!(1u128 << (64 - (t & 0x3F)), TABLE_ENTRIES as u128 * BLOCK_SIZE as u128);
}
