# rpi5_kernel

Register-level logic of a bare-metal Raspberry Pi 5 kernel that brings up an
interrupt-driven UART console across the BCM2712 / RP1 PCIe link, written in
Verus and proved against its contracts.

- `src/fields.rs`: register field values, computed through `tock_registers`.
- `src/cpu/mmu.rs`: stage-1 block descriptors, the kernel translation table,
  MAIR_EL1 and TCR_EL1 values, and what the table translates.
- `src/mmu.rs`: the earlier table layout (kernel RAM and the RP1 window).
- `src/uart.rs`: console printing (strings, hexadecimal, decimal) and the PL011
  register values.
- `src/drivers/uart.rs`: newline translation, receive interrupt and echo.
- `src/drivers/pcie.rs`: root complex inbound window, RP1 capability walk and
  MSI-X programming.
- `src/drivers/gic.rs`: GICv2 SPI configuration and interrupt dispatch.
- `src/drivers.rs`: properties of the whole interrupt path and of the memory map
  the drivers rely on.

`app/` holds the program around the library: boot sequence, volatile MMIO,
system register writes and the IRQ entry point.
