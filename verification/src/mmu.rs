//! The earlier kernel translation table: the kernel's RAM and the RP1
//! peripheral window only (the BCM2712 peripherals are not mapped).
//!
//! Descriptors, attributes and the translation function are those of
//! `crate::cpu::mmu`.

use crate::cpu::mmu::{
    block_index, empty_table, kernel_memory_map, lemma_kernel_table_translation, map_blocks,
    map_range, translate, BLOCK_SIZE, MAIR_DEVICE, MAIR_NORMAL, RP1_PERIPH_BASE,
    RP1_PERIPH_BLOCKS, TABLE_ENTRIES,
};
use vstd::prelude::*;

verus! {

/// Base of the mapped I/O space: the RP1 peripheral window.
pub const IO_BASE: u64 = 0x1f_0000_0000;

/// The layout written over `t`: the first block as Normal memory and two
/// blocks of RP1 peripherals (1 GiB of I/O space) as Device memory.
pub open spec fn early_layout(t: Seq<u64>) -> Seq<u64> {
    map_range(
        map_range(t, 0, 0, 1, MAIR_NORMAL),
        block_index(IO_BASE as int),
        IO_BASE as int,
        RP1_PERIPH_BLOCKS as int,
        MAIR_DEVICE,
    )
}

/// The memory map of the earlier layout: the first 512 MiB as Normal memory
/// and the RP1 window as Device memory, each at its own address; everything
/// else faults.
pub open spec fn early_memory_map(va: int) -> Option<(int, u64)> {
    if 0 <= va < BLOCK_SIZE {
        Some((va, MAIR_NORMAL))
    } else if IO_BASE <= va < IO_BASE + RP1_PERIPH_BLOCKS * BLOCK_SIZE {
        Some((va, MAIR_DEVICE))
    } else {
        None
    }
}

/// Populates the table: the kernel's first 512 MiB as Normal memory and
/// 1 GiB of RP1 I/O space from `0x1f_0000_0000` as Device memory, each mapped
/// onto itself. Other entries are left as they were.
pub fn populate_early_table(table: &mut Vec<u64>)
    requires
        old(table).len() == TABLE_ENTRIES,
    ensures
        final(table)@ == early_layout(old(table)@),
{
    assert(IO_BASE / BLOCK_SIZE == 248) by (nonlinear_arith);
    // Map 0x0 - 512 MiB as Normal memory (the kernel lives here).
    map_blocks(table, 0, 0x0000_0000, 1, MAIR_NORMAL);
    // Map 1 GiB of RP1 I/O space (two blocks).
    let io_idx = (IO_BASE / BLOCK_SIZE) as usize;
    map_blocks(table, io_idx, IO_BASE, RP1_PERIPH_BLOCKS, MAIR_DEVICE);
}

/// The earlier layout is an identity map of exactly its memory map, and it
/// agrees with the kernel's current map everywhere but the BCM2712 window.
pub proof fn lemma_early_table_translation(va: int)
    ensures
        translate(early_layout(empty_table()), va) == early_memory_map(va),
        !(0x10_0000_0000 <= va < 0x10_8000_0000) ==> early_memory_map(va) == kernel_memory_map(va),
{
    let t = early_layout(empty_table());
    let bs = BLOCK_SIZE as int;
    assert(IO_BASE / BLOCK_SIZE == 248) by (nonlinear_arith);
    assert(IO_BASE == RP1_PERIPH_BASE);
    if va >= 0 {
        let i = block_index(va);
        vstd::arithmetic::div_mod::lemma_fundamental_div_mod(va, bs);
        crate::cpu::mmu::lemma_peripheral_block_indices();
        assert(bs == 0x2000_0000);
        assert(va == 0x2000_0000 * i + va % bs && 0 <= va % bs < 0x2000_0000);
        if i < TABLE_ENTRIES {
            // Same entries as the kernel layout outside blocks 128..132.
            let k = crate::cpu::mmu::kernel_layout(empty_table());
            lemma_kernel_table_translation(va);
            if !(128 <= i < 132) {
                assert(t[i] == k[i]);
                assert(translate(t, va) == translate(k, va));
                assert(early_memory_map(va) == kernel_memory_map(va));
            } else {
                assert(t[i] == 0u64);
                crate::cpu::mmu::lemma_register_constants();
                assert(translate(t, va) is None);
                assert(early_memory_map(va) is None);
            }
        }
    }
}

/// The registers of the console UART, its pads and its GPIO bank are mapped
/// onto themselves as Device memory by the earlier layout too.
pub proof fn lemma_early_console_device_mapped()
    ensures
        forall|a: int| crate::uart::UART0_ADDR <= a < crate::uart::UART0_ADDR + 0x48 ==> #[trigger] early_memory_map(a) == Some((a, MAIR_DEVICE)),
        forall|a: int| crate::uart::PADS_ADDR <= a < crate::uart::PADS_ADDR + 0x44 ==> #[trigger] early_memory_map(a) == Some((a, MAIR_DEVICE)),
        forall|a: int| crate::uart::GPIO_ADDR <= a < crate::uart::GPIO_ADDR + 0x80 ==> #[trigger] early_memory_map(a) == Some((a, MAIR_DEVICE)),
{
}

} // verus!
