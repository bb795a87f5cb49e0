use rpi5_kernel::cpu::mmu::{kernel_table, mair_el1_value, BLOCK_SIZE, MAIR_DEVICE, MAIR_NORMAL};
use rpi5_kernel::drivers::gic::{spi_register_addr, spi_register_update, SpiSetting, GICC_BASE, GICD_BASE, MIP_BASE};
use rpi5_kernel::drivers::pcie::{
    inbound_window, msix_ctrl_addr, msix_entry, PCIE_RC_BASE, RP1_CFG_BASE, RP1_MSIX_TABLE,
    UART0_VECTOR,
};
use rpi5_kernel::drivers::uart::{rx_irq_ack_addr, GPIO_BASE, PADS_BASE, RP1_APB_BASE, UART0_BASE};
use rpi5_kernel::uart::{print_dec, print_hex};

/// What the level-2 table does with a virtual address.
fn translate(table: &[u64], va: u64) -> Option<(u64, u64)> {
    let i = (va / BLOCK_SIZE) as usize;
    let d = *table.get(i)?;
    if d & 3 != 1 {
        return None;
    }
    Some(((d & 0x0000_FFFF_FFFF_0000) + va % BLOCK_SIZE, (d >> 2) & 7))
}

#[test]
fn kernel_table_is_identity_on_its_regions() {
    let t = kernel_table();
    for va in [0u64, 0x8_0000, 0x1FFF_FFFF] {
        assert_eq!(translate(&t, va), Some((va, MAIR_NORMAL)));
    }
    for va in [0x10_0000_0000u64, 0x10_7FFF_FFFF, 0x1f_0000_0000, 0x1f_3FFF_FFFF] {
        assert_eq!(translate(&t, va), Some((va, MAIR_DEVICE)));
    }
    for va in [0x2000_0000u64, 0x10_8000_0000, 0x1f_4000_0000, 0x3FF_FFFF_FFFF] {
        assert_eq!(translate(&t, va), None);
    }
}

#[test]
fn driver_registers_are_device_mapped() {
    let t = kernel_table();
    let mair = mair_el1_value();
    for base in [GICD_BASE, GICC_BASE, MIP_BASE, PCIE_RC_BASE, RP1_CFG_BASE, RP1_APB_BASE, RP1_MSIX_TABLE, UART0_BASE, PADS_BASE, GPIO_BASE] {
        let (pa, idx) = translate(&t, base).unwrap();
        assert_eq!(pa, base);
        assert_eq!((mair >> (8 * idx)) & 0xFF, 0x04);
    }
    let (_, idx) = translate(&t, 0x10_0000).unwrap();
    assert_eq!((mair >> (8 * idx)) & 0xFF, 0xFF);
}

#[test]
fn printed_numerals_read_back_as_the_value() {
    for v in [0u64, 1, 9, 10, 15, 16, 255, 4096, 123_456_789, u64::MAX - 1, u64::MAX] {
        let mut hex = Vec::new();
        print_hex(&mut hex, v);
        let hex: String = hex.into_iter().collect();
        assert_eq!(u64::from_str_radix(&hex, 16).unwrap(), v);
        assert!(v == 0 || !hex.starts_with('0'));
        let mut dec = Vec::new();
        print_dec(&mut dec, v);
        let dec: String = dec.into_iter().collect();
        assert_eq!(dec.parse::<u64>().unwrap(), v);
        assert_eq!(dec, v.to_string());
    }
}

#[test]
fn spi_update_is_idempotent_and_keeps_neighbours() {
    for setting in [SpiSetting::Group, SpiSetting::Enable, SpiSetting::Target, SpiSetting::Priority, SpiSetting::Config] {
        for reg in [0u32, 0xFFFF_FFFF, 0xA5A5_5A5A] {
            let once = spi_register_update(setting, 161, reg);
            assert_eq!(spi_register_update(setting, 161, once), once);
        }
    }
    // Priority of 161 written, priorities of 160, 162 and 163 untouched.
    assert_eq!(spi_register_update(SpiSetting::Priority, 161, 0x1122_3344), 0x1122_8044);
}

#[test]
fn spi_registers_of_one_interrupt_are_distinct() {
    let id = 1019;
    let addrs: Vec<u64> = [SpiSetting::Group, SpiSetting::Enable, SpiSetting::Target, SpiSetting::Priority, SpiSetting::Config]
        .iter()
        .map(|s| spi_register_addr(*s, id))
        .collect();
    for i in 0..addrs.len() {
        for j in 0..i {
            assert_ne!(addrs[i], addrs[j]);
        }
    }
}

#[test]
fn uart_interrupt_path_constants() {
    let w = inbound_window();
    let e = msix_entry();
    assert_eq!(((e.addr_hi as u64) << 32) | e.addr_lo as u64, ((w.bar2_hi as u64) << 32) | (w.bar2_lo & 0xFFFF_F000) as u64);
    assert_eq!(((w.ubus_bar2_hi as u64) << 32) | (w.ubus_bar2_lo & !1) as u64, MIP_BASE);
    assert_eq!(rx_irq_ack_addr(), msix_ctrl_addr(UART0_VECTOR));
}
