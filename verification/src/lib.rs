//! Verified register-level logic of a bare-metal Raspberry Pi 5 kernel:
//! stage-1 block descriptors and the kernel translation table, the PL011
//! console output, the PCIe root complex / RP1 MSI-X setup and the GICv2
//! interrupt routing, written as functions from register values to register
//! values. The volatile accesses themselves live in the application crate.

pub mod cpu;
pub mod drivers;
pub mod fields;
pub mod mmu;
pub mod uart;
