use rpi5_kernel::drivers::pcie::{
    cap_header_addr, cap_list_start, cap_step, enable_bus_master, enable_scb_access,
    inbound_window, is_rp1_vendor, msix_ctrl_addr, msix_ctrl_enable, msix_enable_write,
    msix_entry, msix_entry_addr, scb_access_enabled, CapStep, UART0_VECTOR,
};

#[test]
fn scb_access() {
    assert!(!scb_access_enabled(0x0000_0FFF));
    assert!(scb_access_enabled(0x0000_1000));
    assert_eq!(enable_scb_access(0x0000_0003), 0x0000_1003);
    assert_eq!(enable_scb_access(0x0000_1000), 0x0000_1000);
}

#[test]
fn inbound_window_registers() {
    let w = inbound_window();
    assert_eq!(w.bar2_lo, 0xFFFF_F01C);
    assert_eq!(w.bar2_hi, 0xFF);
    assert_eq!(w.ubus_bar2_lo, 0x0013_0001);
    assert_eq!(w.ubus_bar2_hi, 0x10);
    let pcie = ((w.bar2_hi as u64) << 32) | (w.bar2_lo & 0xFFFF_F000) as u64;
    let cpu = ((w.ubus_bar2_hi as u64) << 32) | (w.ubus_bar2_lo & !1) as u64;
    assert_eq!(pcie, 0xFF_FFFF_F000);
    assert_eq!(cpu, 0x10_0013_0000);
}

#[test]
fn rp1_identity_and_command() {
    assert!(is_rp1_vendor(0x1DE4));
    assert!(!is_rp1_vendor(0x14E4));
    assert_eq!(enable_bus_master(0x0010_0000), 0x0010_0006);
}

#[test]
fn capability_walk_steps() {
    assert_eq!(cap_list_start(0xFFFF_FFB0), 0xB0);
    assert_eq!(cap_header_addr(0xB0), 0x1f_0010_90B0);
    assert!(matches!(cap_step(0x0003_7001), CapStep::Next { next: 0x70 }));
    assert!(matches!(cap_step(0x0000_0005), CapStep::Next { next: 0 }));
    assert!(matches!(
        cap_step(0x003F_0011),
        CapStep::MsixFound { enable_write: Some(0x803F_0011) }
    ));
    assert!(matches!(cap_step(0x803F_0011), CapStep::MsixFound { enable_write: None }));
}

#[test]
fn capability_walk_finds_msix_in_a_list() {
    // Config space as capability headers by offset: 0x40 -> 0x70 -> 0xB0 (MSI-X).
    let header = |off: usize| -> u32 {
        match off {
            0x40 => 0x0000_7001,
            0x70 => 0x0000_B010,
            0xB0 => 0x0000_0011,
            _ => 0,
        }
    };
    let mut off = cap_list_start(0x40);
    let mut found = None;
    while off != 0 {
        match cap_step(header(off)) {
            CapStep::MsixFound { enable_write } => {
                found = Some((off, enable_write));
                break;
            }
            CapStep::Next { next } => off = next,
        }
    }
    assert_eq!(found, Some((0xB0, Some(0x8000_0011))));
}

#[test]
fn msix_enable_write_sets_bit_31() {
    assert_eq!(msix_enable_write(0x0000_0011), Some(0x8000_0011));
    assert_eq!(msix_enable_write(0x8000_0011), None);
}

#[test]
fn msix_vector_registers() {
    assert_eq!(msix_entry_addr(UART0_VECTOR), 0x1f_0041_0190);
    assert_eq!(msix_entry_addr(0), 0x1f_0041_0000);
    let e = msix_entry();
    assert_eq!((e.addr_lo, e.addr_hi, e.data, e.vector_ctrl), (0xFFFF_F000, 0xFF, 0, 0));
    assert_eq!(msix_ctrl_addr(UART0_VECTOR), 0x1f_0010_806C);
    assert_eq!(msix_ctrl_enable(), 0x9);
}
