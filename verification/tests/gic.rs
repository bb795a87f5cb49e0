use rpi5_kernel::drivers::gic::{
    classify_irq, gicc_pmr, gicd_ctlr, spi_register_addr, spi_register_update, IrqAction,
    SpiSetting, GICC_PRIORITY_MASK, IRQ_MIP_INPUT0,
};

#[test]
fn spi_160_register_addresses() {
    let id = IRQ_MIP_INPUT0;
    assert_eq!(spi_register_addr(SpiSetting::Group, id), 0x10_7FFF_9094);
    assert_eq!(spi_register_addr(SpiSetting::Enable, id), 0x10_7FFF_9114);
    assert_eq!(spi_register_addr(SpiSetting::Target, id), 0x10_7FFF_98A0);
    assert_eq!(spi_register_addr(SpiSetting::Priority, id), 0x10_7FFF_94A0);
    assert_eq!(spi_register_addr(SpiSetting::Config, id), 0x10_7FFF_9C28);
}

#[test]
fn spi_160_register_updates() {
    let id = IRQ_MIP_INPUT0;
    assert_eq!(spi_register_update(SpiSetting::Group, id, 0x0000_0000), 0x0000_0001);
    assert_eq!(spi_register_update(SpiSetting::Enable, id, 0x8000_0000), 0x8000_0001);
    assert_eq!(spi_register_update(SpiSetting::Target, id, 0xFFFF_FFFF), 0xFFFF_FF01);
    assert_eq!(spi_register_update(SpiSetting::Priority, id, 0x1234_5678), 0x1234_5680);
    assert_eq!(spi_register_update(SpiSetting::Config, id, 0xFFFF_FFFF), 0xFFFF_FFFE);
}

#[test]
fn spi_updates_for_other_positions() {
    assert_eq!(spi_register_update(SpiSetting::Group, 63, 0), 0x8000_0000);
    assert_eq!(spi_register_addr(SpiSetting::Group, 63), 0x10_7FFF_9084);
    assert_eq!(spi_register_update(SpiSetting::Target, 163, 0x0000_0000), 0x0100_0000);
    assert_eq!(spi_register_update(SpiSetting::Priority, 161, 0xFFFF_FFFF), 0xFFFF_80FF);
    assert_eq!(spi_register_update(SpiSetting::Config, 175, 0x0000_0000), 0x8000_0000);
    assert_eq!(spi_register_update(SpiSetting::Config, 175, 0xFFFF_FFFF), 0xBFFF_FFFF);
}

#[test]
fn irq_dispatch() {
    assert_eq!(classify_irq(160), IrqAction::Uart);
    assert_eq!(classify_irq(0x0000_0C00 | 160), IrqAction::Uart);
    assert_eq!(classify_irq(1023), IrqAction::Spurious);
    assert_eq!(classify_irq(27), IrqAction::Unexpected { id: 27 });
}

#[test]
fn control_values() {
    assert_eq!(gicd_ctlr(true), 1);
    assert_eq!(gicd_ctlr(false), 0);
    assert_eq!(gicc_pmr(GICC_PRIORITY_MASK), 0xF0);
    assert_eq!(gicc_pmr(0x1F0), 0xF0);
}
