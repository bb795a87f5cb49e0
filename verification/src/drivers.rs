//! Device drivers of the interrupt path: the RP1 UART, the PCIe link to the
//! RP1 with its MSI-X setup, and the GICv2 with the BCM2712 MIP.

pub mod gic;
pub mod pcie;
pub mod uart;

use vstd::prelude::*;

verus! {

use crate::cpu::mmu::{kernel_memory_map, MAIR_DEVICE};
use crate::drivers::gic::{
    irq_action, GIC_SPI_BASE, GICC_BASE, GICD_BASE, IRQ_MIP_INPUT0, IrqAction, MIP_BASE,
    MIP_INPUT0_SPI,
};
use crate::drivers::pcie::{
    kernel_inbound_window, kernel_msix_entry, msix_message_address, window_cpu_address,
    window_enabled, window_pcie_address, PCIE_RC_BASE, RP1_CFG_BASE, RP1_MSIX_TABLE, UART0_VECTOR,
};
use crate::drivers::uart::{GPIO_BASE, PADS_BASE, RP1_APB_BASE, UART0_BASE, UART0_IRQ_VECTOR};

/// The UART's receive interrupt reaches the UART driver: its MSI-X message
/// is written to the PCIe address at which inbound window 2 opens, the
/// enabled window translates it to the MIP doorbell, data 0 raises MIP
/// input 0, which is SPI 128, GIC interrupt 160, which the handler hands to
/// the UART driver; and the register the handler acknowledges at the RP1 is
/// the one through which the UART's MSI-X vector was enabled.
pub proof fn lemma_uart_interrupt_path(iar: u32)
    ensures
        msix_message_address(kernel_msix_entry()) == window_pcie_address(kernel_inbound_window()),
        window_enabled(kernel_inbound_window()),
        window_cpu_address(kernel_inbound_window()) == MIP_BASE,
        kernel_msix_entry().data == 0,
        GIC_SPI_BASE + MIP_INPUT0_SPI == IRQ_MIP_INPUT0,
        iar & 0x3FFu32 == IRQ_MIP_INPUT0 ==> irq_action(iar) == IrqAction::Uart,
        UART0_IRQ_VECTOR == UART0_VECTOR,
        RP1_APB_BASE == crate::drivers::pcie::RP1_APB_BASE,
{
    crate::drivers::pcie::lemma_window_constants();
}

/// Whether `[base, base + size)` is mapped, address by address, onto itself
/// as Device memory by the kernel's memory map.
pub open spec fn device_mapped(base: int, size: int) -> bool {
    forall|a: int| base <= a < base + size ==> #[trigger] kernel_memory_map(a) == Some((a, MAIR_DEVICE))
}

/// Every register block the drivers access is mapped onto itself as Device
/// memory by the kernel table: the GIC distributor and CPU interface, the
/// MIP, the PCIe root complex, and the RP1's configuration space, interrupt
/// controller, MSI-X table, UART0, pads and GPIO bank.
pub proof fn lemma_driver_registers_device_mapped()
    ensures
        device_mapped(GICD_BASE as int, 0x1000),
        device_mapped(GICC_BASE as int, 0x1000),
        device_mapped(MIP_BASE as int, 0x74),
        device_mapped(PCIE_RC_BASE as int, 0x40BC),
        device_mapped(RP1_CFG_BASE as int, 0x100),
        device_mapped(RP1_APB_BASE as int, 0x1000),
        device_mapped(RP1_MSIX_TABLE as int, 0x1000),
        device_mapped(UART0_BASE as int, 0x48),
        device_mapped(PADS_BASE as int, 0x44),
        device_mapped(GPIO_BASE as int, 0x80),
{
}

} // verus!
