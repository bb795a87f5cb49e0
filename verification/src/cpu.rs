//! Processor-level configuration: the stage-1 translation regime.

pub mod mmu;
