//! The kernel's stage-1 translation table for a 64 KiB granule.
//!
//! With a 64 KiB granule and a 42-bit virtual address space (`T0SZ` = 22) the
//! walk starts at level 2: 8192 entries, each a 512 MiB block. The kernel maps
//! its RAM (the first block) as Normal memory and the BCM2712 and RP1
//! peripheral windows as Device memory, each block onto itself.

use crate::fields::{field_add64, field_val64, in_memory_write_get64, FieldValue64};
use aarch64_cpu::registers::{MAIR_EL1, TCR_EL1};
use vstd::prelude::*;

verus! {

/// Size of a level-2 block with a 64 KiB granule: 512 MiB.
pub const BLOCK_SIZE: u64 = 512 * 1024 * 1024;

/// MAIR attribute index of Device-nGnRE memory.
pub const MAIR_DEVICE: u64 = 0;

/// MAIR attribute index of Normal write-back memory.
pub const MAIR_NORMAL: u64 = 1;

/// Number of entries of the level-2 table.
pub const TABLE_ENTRIES: usize = 8192;

/// Width of the virtual address space that the table covers.
pub const VA_BITS: u64 = 42;

/// Physical base of the BCM2712 peripherals (GIC, MIP, PCIe root complex).
pub const BCM_PERIPH_BASE: u64 = 0x10_0000_0000;

/// Number of 512 MiB blocks mapped for the BCM2712 peripherals.
pub const BCM_PERIPH_BLOCKS: usize = 4;

/// Physical base of the RP1 peripheral window.
pub const RP1_PERIPH_BASE: u64 = 0x1f_0000_0000;

/// Number of 512 MiB blocks mapped for the RP1 peripherals.
pub const RP1_PERIPH_BLOCKS: usize = 2;

// ---------------------------------------------------------------------------
// Block descriptors
// ---------------------------------------------------------------------------

/// The stage-1 block descriptor for `phys` with attribute index `mair_idx`:
/// output address bits [47:16], access flag, inner shareable, read/write at
/// EL1, attribute index in bits [4:2], descriptor type "block".
pub open spec fn block_descriptor(phys: u64, mair_idx: u64) -> u64 {
    (((phys >> 16u64) & 0xFFFF_FFFFu64) << 16u64) | 0x701u64 | ((mair_idx & 7u64) << 2u64)
}

/// Output address of a descriptor: bits [47:16].
pub open spec fn desc_output_address(d: u64) -> u64 {
    d & 0x0000_FFFF_FFFF_0000u64
}

/// Attribute index of a descriptor: bits [4:2].
pub open spec fn desc_attr_index(d: u64) -> u64 {
    (d >> 2u64) & 7u64
}

/// Whether a descriptor is a valid block descriptor (type bits `0b01`).
pub open spec fn desc_is_block(d: u64) -> bool {
    d & 3u64 == 1u64
}

/// Access flag, bit 10.
pub open spec fn desc_access_flag(d: u64) -> bool {
    d & 0x400u64 != 0
}

/// Shareability, bits [9:8].
pub open spec fn desc_shareability(d: u64) -> u64 {
    (d >> 8u64) & 3u64
}

/// Access permissions, bits [7:6].
pub open spec fn desc_access_permissions(d: u64) -> u64 {
    (d >> 6u64) & 3u64
}

/// Privileged execute-never, bit 53.
pub open spec fn desc_pxn(d: u64) -> bool {
    d & 0x20_0000_0000_0000u64 != 0
}

/// Builds the block descriptor that maps a 512 MiB block at `phys` with the
/// memory attributes at index `mair_idx`.
pub fn create_block(phys: u64, mair_idx: u64) -> (desc: u64)
    ensures
        desc == block_descriptor(phys, mair_idx),
        desc_output_address(desc) == phys & 0x0000_FFFF_FFFF_0000u64,
        desc_attr_index(desc) == mair_idx & 7,
        desc_is_block(desc),
        desc_access_flag(desc),
        desc_shareability(desc) == 3,
        desc_access_permissions(desc) == 0,
        !desc_pxn(desc),
{
    let output = field_val64(0xFFFF_FFFF, 16, phys >> 16);
    let af = field_val64(1, 10, 1);
    let sh = field_val64(0b11, 8, 0b11);
    let ap = field_val64(0b11, 6, 0b00);
    let attr = field_val64(0b111, 2, mair_idx);
    let ty = field_val64(0b11, 0, 0b01);
    let f1 = field_add64(output, af);
    let f2 = field_add64(f1, sh);
    let f3 = field_add64(f2, ap);
    let f4 = field_add64(f3, attr);
    let f5 = field_add64(f4, ty);
    let desc = in_memory_write_get64(f5);
    proof {
        let (om, ov, am, av, sm, sv, pm, pv, tm, tv, ym, yv) = (
            output.mask, output.value, af.mask, af.value, sh.mask, sh.value,
            ap.mask, ap.value, attr.mask, attr.value, ty.mask, ty.value,
        );
        let (m1, v1, m2, v2, m3, v3, m4, v4, m5, v5) = (
            f1.mask, f1.value, f2.mask, f2.value, f3.mask, f3.value,
            f4.mask, f4.value, f5.mask, f5.value,
        );
        assert(desc == block_descriptor(phys, mair_idx)) by (bit_vector)
            requires
                om == 0xFFFF_FFFFu64 << 16u64,
                ov == ((phys >> 16u64) & 0xFFFF_FFFFu64) << 16u64,
                am == 1u64 << 10u64,
                av == (1u64 & 1u64) << 10u64,
                sm == 3u64 << 8u64,
                sv == (3u64 & 3u64) << 8u64,
                pm == 3u64 << 6u64,
                pv == (0u64 & 3u64) << 6u64,
                tm == 7u64 << 2u64,
                tv == (mair_idx & 7u64) << 2u64,
                ym == 3u64 << 0u64,
                yv == (1u64 & 3u64) << 0u64,
                m1 == om | am,
                v1 == (ov & om) | (av & am),
                m2 == m1 | sm,
                v2 == (v1 & m1) | (sv & sm),
                m3 == m2 | pm,
                v3 == (v2 & m2) | (pv & pm),
                m4 == m3 | tm,
                v4 == (v3 & m3) | (tv & tm),
                m5 == m4 | ym,
                v5 == (v4 & m4) | (yv & ym),
                desc == v5 & m5,
        ;
        lemma_block_descriptor_fields(phys, mair_idx);
    }
    desc
}

/// What every block descriptor built by `create_block` says about itself.
pub proof fn lemma_block_descriptor_fields(phys: u64, mair_idx: u64)
    ensures
        desc_output_address(block_descriptor(phys, mair_idx)) == phys & 0x0000_FFFF_FFFF_0000u64,
        desc_attr_index(block_descriptor(phys, mair_idx)) == mair_idx & 7,
        desc_is_block(block_descriptor(phys, mair_idx)),
        desc_access_flag(block_descriptor(phys, mair_idx)),
        desc_shareability(block_descriptor(phys, mair_idx)) == 3,
        desc_access_permissions(block_descriptor(phys, mair_idx)) == 0,
        !desc_pxn(block_descriptor(phys, mair_idx)),
{
    let d = block_descriptor(phys, mair_idx);
    assert(d & 0x0000_FFFF_FFFF_0000u64 == phys & 0x0000_FFFF_FFFF_0000u64
        && (d >> 2u64) & 7u64 == mair_idx & 7u64
        && d & 3u64 == 1u64
        && d & 0x400u64 != 0u64
        && (d >> 8u64) & 3u64 == 3u64
        && (d >> 6u64) & 3u64 == 0u64
        && d & 0x20_0000_0000_0000u64 == 0u64) by (bit_vector)
        requires
            d == (((phys >> 16u64) & 0xFFFF_FFFFu64) << 16u64) | 0x701u64 | ((mair_idx & 7u64) << 2u64),
    ;
}

/// Round trip of the block descriptor: for a 64 KiB aligned physical address
/// below 2^48 and an attribute index below 8, the descriptor gives back
/// exactly the address and the index it was built from.
pub proof fn lemma_block_descriptor_roundtrip(phys: u64, mair_idx: u64)
    requires
        phys % 0x1_0000 == 0,
        phys < 0x1_0000_0000_0000,
        mair_idx < 8,
    ensures
        desc_output_address(block_descriptor(phys, mair_idx)) == phys,
        desc_attr_index(block_descriptor(phys, mair_idx)) == mair_idx,
        desc_is_block(block_descriptor(phys, mair_idx)),
{
    lemma_block_descriptor_fields(phys, mair_idx);
    assert(phys & 0x0000_FFFF_FFFF_0000u64 == phys && mair_idx & 7u64 == mair_idx) by (bit_vector)
        requires
            phys % 0x1_0000u64 == 0u64,
            phys < 0x1_0000_0000_0000u64,
            mair_idx < 8u64,
    ;
}


// ---------------------------------------------------------------------------
// The translation table
// ---------------------------------------------------------------------------

/// `t` with the `count` entries from index `first` on mapping consecutive
/// 512 MiB blocks from `phys` with attribute index `attr`.
pub open spec fn map_range(t: Seq<u64>, first: int, phys: int, count: int, attr: u64) -> Seq<u64> {
    Seq::new(
        t.len(),
        |i: int|
            if first <= i < first + count {
                block_descriptor((phys + (i - first) * BLOCK_SIZE) as u64, attr)
            } else {
                t[i]
            },
    )
}

/// Index of the table entry that translates the block holding `addr`.
pub open spec fn block_index(addr: int) -> int {
    addr / (BLOCK_SIZE as int)
}

/// The kernel's layout written over `t`: the first block as Normal memory,
/// four blocks of BCM2712 peripherals and two blocks of RP1 peripherals as
/// Device memory.
pub open spec fn kernel_layout(t: Seq<u64>) -> Seq<u64> {
    map_range(
        map_range(
            map_range(t, 0, 0, 1, MAIR_NORMAL),
            block_index(BCM_PERIPH_BASE as int),
            BCM_PERIPH_BASE as int,
            BCM_PERIPH_BLOCKS as int,
            MAIR_DEVICE,
        ),
        block_index(RP1_PERIPH_BASE as int),
        RP1_PERIPH_BASE as int,
        RP1_PERIPH_BLOCKS as int,
        MAIR_DEVICE,
    )
}

/// A table with every entry zero (invalid).
pub open spec fn empty_table() -> Seq<u64> {
    Seq::new(TABLE_ENTRIES as nat, |i: int| 0u64)
}

/// Writes into `table` the `count` block descriptors from index `first` on,
/// mapping consecutive 512 MiB blocks from `phys` with attribute index `attr`.
pub fn map_blocks(table: &mut Vec<u64>, first: usize, phys: u64, count: usize, attr: u64)
    requires
        first + count <= old(table).len(),
        phys + count * BLOCK_SIZE <= u64::MAX,
    ensures
        final(table)@ == map_range(old(table)@, first as int, phys as int, count as int, attr),
{
    let ghost start = table@;
    let mut k: usize = 0;
    while k < count
        invariant
            k <= count,
            first + count <= start.len(),
            phys + count * BLOCK_SIZE <= u64::MAX,
            table.len() == start.len(),
            table@ == map_range(start, first as int, phys as int, k as int, attr),
        decreases count - k,
    {
        assert(k * BLOCK_SIZE <= count * BLOCK_SIZE) by (nonlinear_arith)
            requires
                k <= count,
        ;
        let desc = create_block(phys + (k as u64) * BLOCK_SIZE, attr);
        table.set(first + k, desc);
        k = k + 1;
        assert(table@ =~= map_range(start, first as int, phys as int, k as int, attr));
    }
}

/// A table of `TABLE_ENTRIES` invalid (zero) entries.
pub fn new_table() -> (table: Vec<u64>)
    ensures
        table@ == empty_table(),
{
    let mut table: Vec<u64> = Vec::new();
    let mut k: usize = 0;
    while k < TABLE_ENTRIES
        invariant
            k <= TABLE_ENTRIES,
            table@ == Seq::new(k as nat, |i: int| 0u64),
        decreases TABLE_ENTRIES - k,
    {
        table.push(0);
        k = k + 1;
        assert(table@ =~= Seq::new(k as nat, |i: int| 0u64));
    }
    table
}

/// Populates the kernel translation table: the kernel's first 512 MiB as
/// Normal memory, the BCM2712 peripherals (GIC, MIP) at `0x10_0000_0000`
/// and the RP1 peripherals at `0x1f_0000_0000` as Device memory, each
/// mapped onto itself. Entries outside these regions are left as they were.
pub fn populate_kernel_table(table: &mut Vec<u64>)
    requires
        old(table).len() == TABLE_ENTRIES,
    ensures
        final(table)@ == kernel_layout(old(table)@),
{
    proof {
        lemma_peripheral_block_indices();
    }
    // Map the kernel (0 - 512 MiB).
    map_blocks(table, 0, 0x0000_0000, 1, MAIR_NORMAL);
    // Map the BCM peripherals (GIC / MIP) at 0x10_0000_0000.
    let bcm_idx = (BCM_PERIPH_BASE / BLOCK_SIZE) as usize;
    map_blocks(table, bcm_idx, BCM_PERIPH_BASE, BCM_PERIPH_BLOCKS, MAIR_DEVICE);
    // Map the RP1 peripherals at 0x1f_0000_0000.
    let rp1_idx = (RP1_PERIPH_BASE / BLOCK_SIZE) as usize;
    map_blocks(table, rp1_idx, RP1_PERIPH_BASE, RP1_PERIPH_BLOCKS, MAIR_DEVICE);
}

/// The kernel translation table, built from an empty table.
pub fn kernel_table() -> (table: Vec<u64>)
    ensures
        table@ == kernel_layout(empty_table()),
{
    let mut table = new_table();
    populate_kernel_table(&mut table);
    table
}

// ---------------------------------------------------------------------------
// What the table translates
// ---------------------------------------------------------------------------

/// The peripheral windows start at blocks 128 and 248.
pub proof fn lemma_peripheral_block_indices()
    ensures
        BCM_PERIPH_BASE / BLOCK_SIZE == 128,
        RP1_PERIPH_BASE / BLOCK_SIZE == 248,
        block_index(BCM_PERIPH_BASE as int) == 128,
        block_index(RP1_PERIPH_BASE as int) == 248,
{
    assert(BCM_PERIPH_BASE / BLOCK_SIZE == 128) by (nonlinear_arith);
    assert(RP1_PERIPH_BASE / BLOCK_SIZE == 248) by (nonlinear_arith);
}

/// What a level-2 table with 512 MiB blocks does with virtual address `va`:
/// the physical address and attribute index it yields, or `None` for a fault.
pub open spec fn translate(table: Seq<u64>, va: int) -> Option<(int, u64)> {
    let i = block_index(va);
    if 0 <= va && i < table.len() && desc_is_block(table[i]) {
        Some((desc_output_address(table[i]) + va % (BLOCK_SIZE as int), desc_attr_index(table[i])))
    } else {
        None
    }
}

/// The kernel's memory map: the first 512 MiB as Normal memory, the BCM2712
/// and RP1 peripheral windows as Device memory, each at its own address;
/// everything else faults.
pub open spec fn kernel_memory_map(va: int) -> Option<(int, u64)> {
    if 0 <= va < BLOCK_SIZE {
        Some((va, MAIR_NORMAL))
    } else if BCM_PERIPH_BASE <= va < BCM_PERIPH_BASE + BCM_PERIPH_BLOCKS * BLOCK_SIZE
        || RP1_PERIPH_BASE <= va < RP1_PERIPH_BASE + RP1_PERIPH_BLOCKS * BLOCK_SIZE {
        Some((va, MAIR_DEVICE))
    } else {
        None
    }
}

proof fn lemma_block_multiple_roundtrip(i: int, attr: u64)
    requires
        0 <= i < TABLE_ENTRIES,
        attr < 8,
    ensures
        desc_output_address(block_descriptor((i * BLOCK_SIZE) as u64, attr)) == i * BLOCK_SIZE,
        desc_attr_index(block_descriptor((i * BLOCK_SIZE) as u64, attr)) == attr,
        desc_is_block(block_descriptor((i * BLOCK_SIZE) as u64, attr)),
{
    assert(0 <= i * BLOCK_SIZE < 0x1_0000_0000_0000) by (nonlinear_arith)
        requires
            0 <= i < 8192,
    ;
    assert((i * BLOCK_SIZE) % 0x1_0000 == 0) by (nonlinear_arith)
        requires
            0 <= i,
    ;
    lemma_block_descriptor_roundtrip((i * BLOCK_SIZE) as u64, attr);
}

/// The kernel table is an identity map of exactly the kernel's memory map:
/// every virtual address translates to itself, as Normal memory in the first
/// 512 MiB and as Device memory in the two peripheral windows, and every other
/// address faults.
pub proof fn lemma_kernel_table_translation(va: int)
    ensures
        translate(kernel_layout(empty_table()), va) == kernel_memory_map(va),
{
    let t = kernel_layout(empty_table());
    let bs = BLOCK_SIZE as int;
    if va >= 0 {
        let i = block_index(va);
        vstd::arithmetic::div_mod::lemma_fundamental_div_mod(va, bs);
        assert(va == bs * i + va % bs);
        lemma_peripheral_block_indices();
        if i < TABLE_ENTRIES {
            if i == 0 {
                assert(t[i] == block_descriptor(0, MAIR_NORMAL));
                lemma_block_multiple_roundtrip(0, MAIR_NORMAL);
            } else if 128 <= i < 132 {
                assert(BCM_PERIPH_BASE + (i - 128) * bs == i * bs) by (nonlinear_arith)
                    requires
                        bs == 0x2000_0000,
                        BCM_PERIPH_BASE == 0x10_0000_0000,
                ;
                assert(t[i] == block_descriptor((i * bs) as u64, MAIR_DEVICE));
                lemma_block_multiple_roundtrip(i, MAIR_DEVICE);
            } else if 248 <= i < 250 {
                assert(RP1_PERIPH_BASE + (i - 248) * bs == i * bs) by (nonlinear_arith)
                    requires
                        bs == 0x2000_0000,
                        RP1_PERIPH_BASE == 0x1f_0000_0000,
                ;
                assert(t[i] == block_descriptor((i * bs) as u64, MAIR_DEVICE));
                lemma_block_multiple_roundtrip(i, MAIR_DEVICE);
            } else {
                assert(t[i] == 0u64);
                lemma_register_constants();
            }
        }
    }
}

// ---------------------------------------------------------------------------
// Memory attributes and translation control
// ---------------------------------------------------------------------------

/// The MAIR attribute encoding of Device-nGnRE memory.
pub const MAIR_ATTR_DEVICE_NGNRE: u64 = 0x04;

/// The MAIR attribute encoding of Normal memory, inner and outer write-back
/// non-transient with read and write allocation.
pub const MAIR_ATTR_NORMAL_WRITE_BACK: u64 = 0xFF;

/// The attribute byte that MAIR value `mair` gives to attribute index `idx`.
pub open spec fn mair_attr(mair: u64, idx: u64) -> u64 {
    (mair >> (8 * idx) as u64) & 0xFFu64
}

/// The MAIR_EL1 value the kernel installs.
pub open spec fn kernel_mair() -> u64 {
    0xFF04
}

/// The TCR_EL1 value the kernel installs.
pub open spec fn kernel_tcr() -> u64 {
    0x5_0080_7516
}

/// TCR_EL1.T0SZ, bits [5:0]: the size offset of the TTBR0 region.
pub open spec fn tcr_t0sz(tcr: u64) -> u64 {
    tcr & 0x3Fu64
}

/// TCR_EL1.TG0, bits [15:14]: the TTBR0 granule (`0b01` is 64 KiB).
pub open spec fn tcr_tg0(tcr: u64) -> u64 {
    (tcr >> 14u64) & 3u64
}

/// TCR_EL1.IPS, bits [34:32]: the intermediate physical address size
/// (`0b101` is 48 bits).
pub open spec fn tcr_ips(tcr: u64) -> u64 {
    (tcr >> 32u64) & 7u64
}

/// TCR_EL1.EPD1, bit 23: walks through TTBR1 disabled.
pub open spec fn tcr_epd1(tcr: u64) -> bool {
    tcr & 0x80_0000u64 != 0
}

/// Trusted: the sum, with `+` of `tock_registers`, of the `aarch64_cpu`
/// field values `MAIR_EL1::Attr0_Device::nonGathering_nonReordering_EarlyWriteAck`
/// (`0b0000_0100` in bits [7:0]), `MAIR_EL1::Attr1_Normal_Outer::WriteBack_NonTransient_ReadWriteAlloc`
/// (`0b1111` in bits [15:12]) and `MAIR_EL1::Attr1_Normal_Inner::WriteBack_NonTransient_ReadWriteAlloc`
/// (`0b1111` in bits [11:8]).
#[verifier::external_body]
fn mair_el1_kernel_fields() -> (fv: FieldValue64)
    ensures
        fv.mask == 0xFFFF,
        fv.value == 0xFF04,
{
    let v = MAIR_EL1::Attr0_Device::nonGathering_nonReordering_EarlyWriteAck
        + MAIR_EL1::Attr1_Normal_Outer::WriteBack_NonTransient_ReadWriteAlloc
        + MAIR_EL1::Attr1_Normal_Inner::WriteBack_NonTransient_ReadWriteAlloc;
    FieldValue64 { mask: v.mask(), value: v.value }
}

/// Trusted: the sum, with `+` of `tock_registers`, of the `aarch64_cpu`
/// field values `TCR_EL1::TBI0::Used` (0 in bit 37), `TCR_EL1::IPS::Bits_48`
/// (`0b101` in bits [34:32]), `TCR_EL1::TG0::KiB_64` (`0b01` in bits [15:14]),
/// `TCR_EL1::SH0::Inner` (`0b11` in bits [13:12]),
/// `TCR_EL1::ORGN0::WriteBack_ReadAlloc_WriteAlloc_Cacheable` (`0b01` in bits
/// [11:10]), `TCR_EL1::IRGN0::WriteBack_ReadAlloc_WriteAlloc_Cacheable`
/// (`0b01` in bits [9:8]), `TCR_EL1::EPD1::DisableTTBR1Walks` (1 in bit 23)
/// and `TCR_EL1::T0SZ.val(t0sz)` (`t0sz & 0x3F` in bits [5:0]).
#[verifier::external_body]
fn tcr_el1_kernel_fields(t0sz: u64) -> (fv: FieldValue64)
    ensures
        fv.mask == 0x27_0080_FF3F,
        fv.value == 0x5_0080_7500u64 | (t0sz & 0x3Fu64),
{
    let v = TCR_EL1::TBI0::Used + TCR_EL1::IPS::Bits_48 + TCR_EL1::TG0::KiB_64
        + TCR_EL1::SH0::Inner + TCR_EL1::ORGN0::WriteBack_ReadAlloc_WriteAlloc_Cacheable
        + TCR_EL1::IRGN0::WriteBack_ReadAlloc_WriteAlloc_Cacheable
        + TCR_EL1::EPD1::DisableTTBR1Walks + TCR_EL1::T0SZ.val(t0sz);
    FieldValue64 { mask: v.mask(), value: v.value }
}

/// The MAIR_EL1 value: attribute 0 (`MAIR_DEVICE`) is Device-nGnRE memory,
/// attribute 1 (`MAIR_NORMAL`) Normal write-back memory.
pub fn mair_el1_value() -> (mair: u64)
    ensures
        mair == kernel_mair(),
        mair_attr(mair, MAIR_DEVICE) == MAIR_ATTR_DEVICE_NGNRE,
        mair_attr(mair, MAIR_NORMAL) == MAIR_ATTR_NORMAL_WRITE_BACK,
{
    let fv = mair_el1_kernel_fields();
    proof {
        lemma_register_constants();
    }
    fv.value
}

/// The TCR_EL1 value: a 42-bit TTBR0 region (`T0SZ` = 22) with a 64 KiB
/// granule, 48-bit physical addresses, inner-shareable write-back walks, and
/// TTBR1 walks disabled.
pub fn tcr_el1_value() -> (tcr: u64)
    ensures
        tcr == kernel_tcr(),
        tcr_t0sz(tcr) == 64 - VA_BITS,
        tcr_tg0(tcr) == 1,
        tcr_ips(tcr) == 5,
        tcr_epd1(tcr),
{
    let fv = tcr_el1_kernel_fields(64 - VA_BITS);
    proof {
        lemma_register_constants();
    }
    fv.value
}

/// Bit-level facts about the constant register values of this module.
pub proof fn lemma_register_constants()
    by (bit_vector)
    ensures
        0u64 & 3u64 == 0u64,
        (0xFF04u64 >> 0u64) & 0xFFu64 == 0x04u64,
        (0xFF04u64 >> 8u64) & 0xFFu64 == 0xFFu64,
        0x5_0080_7500u64 | (22u64 & 0x3Fu64) == 0x5_0080_7516u64,
        0x5_0080_7516u64 & 0x3Fu64 == 22u64,
        (0x5_0080_7516u64 >> 14u64) & 3u64 == 1u64,
        (0x5_0080_7516u64 >> 32u64) & 7u64 == 5u64,
        0x5_0080_7516u64 & 0x80_0000u64 != 0u64,
{
}

/// The table spans exactly the TTBR0 region that TCR_EL1 configures: a
/// 64 KiB granule and `2^(64 - T0SZ)` bytes of virtual address space, which
/// `TABLE_ENTRIES` blocks of `BLOCK_SIZE` bytes cover with nothing left over.
pub proof fn lemma_table_spans_ttbr0_region()
    ensures
        tcr_tg0(kernel_tcr()) == 1,
        vstd::arithmetic::power2::pow2((64 - tcr_t0sz(kernel_tcr())) as nat) == TABLE_ENTRIES * BLOCK_SIZE,
{
    lemma_register_constants();
    vstd::arithmetic::power2::lemma2_to64_rest();
}

/// The kernel's RAM is Normal write-back memory and the peripheral windows
/// are Device-nGnRE memory: the attribute index of every translation the
/// kernel table makes selects, in the installed MAIR_EL1, the matching
/// attribute byte.
pub proof fn lemma_kernel_memory_attributes(va: int)
    ensures
        match translate(kernel_layout(empty_table()), va) {
            Some((pa, idx)) => mair_attr(kernel_mair(), idx) == if va < BLOCK_SIZE {
                MAIR_ATTR_NORMAL_WRITE_BACK
            } else {
                MAIR_ATTR_DEVICE_NGNRE
            },
            None => true,
        },
{
    lemma_kernel_table_translation(va);
    lemma_register_constants();
}

} // verus!
