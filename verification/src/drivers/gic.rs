//! GICv2 and BCM2712 Machine Interrupt Peripheral (MIP).
//!
//! The chain: RP1 MSI-X write, MIP input 0, GIC SPI 128 (interrupt ID 160),
//! CPU core 0. The VPU masks in the MIP must be set, or the VideoCore takes
//! the interrupts; the MIP's host trigger configuration is set to match the
//! RP1's edge signalling.

use crate::fields::field_val32;
use vstd::prelude::*;

verus! {

/// Machine Interrupt Peripheral base: the MSI-X doorbell.
pub const MIP_BASE: u64 = 0x10_0013_0000;

/// GIC distributor base.
pub const GICD_BASE: u64 = 0x10_7FFF_9000;

/// GIC CPU interface base.
pub const GICC_BASE: u64 = 0x10_7FFF_A000;

/// Interrupt ID of the first shared peripheral interrupt.
pub const GIC_SPI_BASE: u32 = 32;

/// The SPI number that MIP input 0 drives.
pub const MIP_INPUT0_SPI: u32 = 128;

/// GIC interrupt ID of MIP input 0: SPI 128, that is 32 + 128.
pub const IRQ_MIP_INPUT0: u32 = 160;

/// Interrupt ID the CPU interface returns when no interrupt is pending.
pub const IRQ_SPURIOUS: u32 = 1023;

/// MIP VPU mask value: every input masked from the VideoCore.
pub const MIP_VPU_MASK_ALL: u32 = 0xFFFF_FFFF;

/// MIP host trigger configuration matching the RP1's signalling.
pub const MIP_HOST_CFG: u32 = 0xFFFF_FFFF;

/// MIP host mask value: every input unmasked for the CPU.
pub const MIP_HOST_UNMASK: u32 = 0x0000_0000;

/// GICC_CTLR value enabling group 0 and group 1 signalling.
pub const GICC_CTLR_ENABLE_GRP0_GRP1: u32 = 0x3;

/// GICC_PMR priority mask that lets every priority above 0xF0 through.
pub const GICC_PRIORITY_MASK: u32 = 0xF0;

// ---------------------------------------------------------------------------
// Distributor and CPU interface control
// ---------------------------------------------------------------------------

/// GICD_CTLR with the distributor enabled or disabled (`ENABLE`, bit 0).
pub fn gicd_ctlr(enable: bool) -> (ctlr: u32)
    ensures
        ctlr == (if enable { 1u32 } else { 0u32 }),
{
    let fv = field_val32(1, 0, if enable { 1 } else { 0 });
    proof {
        let v = fv.value;
        assert((v == (1u32 & 1u32) << 0u32 ==> v == 1u32) && (v == (0u32 & 1u32) << 0u32 ==> v == 0u32))
            by (bit_vector);
    }
    fv.value
}

/// GICC_PMR with priority mask `priority` (`PRIORITY`, bits [7:0]).
pub fn gicc_pmr(priority: u32) -> (pmr: u32)
    ensures
        pmr == priority & 0xFFu32,
{
    let fv = field_val32(0xFF, 0, priority);
    proof {
        let v = fv.value;
        assert(v == (priority & 0xFFu32) << 0u32 ==> v == priority & 0xFFu32) by (bit_vector);
    }
    fv.value
}

// ---------------------------------------------------------------------------
// Shared peripheral interrupt configuration
// ---------------------------------------------------------------------------

/// The distributor settings that configuring an SPI writes, each into its own
/// register bank.
#[derive(Clone, Copy, Debug, PartialEq, Eq, Structural)]
pub enum SpiSetting {
    /// GICD_IGROUPR: group 1 (non-secure), one bit per interrupt.
    Group,
    /// GICD_ISENABLER: enabled, one bit per interrupt.
    Enable,
    /// GICD_ITARGETSR: CPU target mask, one byte per interrupt.
    Target,
    /// GICD_IPRIORITYR: priority, one byte per interrupt.
    Priority,
    /// GICD_ICFGR: trigger configuration, two bits per interrupt.
    Config,
}

/// Offset of the setting's register bank in the distributor.
pub open spec fn bank_offset(s: SpiSetting) -> int {
    match s {
        SpiSetting::Group => 0x080,
        SpiSetting::Enable => 0x100,
        SpiSetting::Target => 0x800,
        SpiSetting::Priority => 0x400,
        SpiSetting::Config => 0xC00,
    }
}

/// Bits per interrupt of the setting.
pub open spec fn field_width(s: SpiSetting) -> u32 {
    match s {
        SpiSetting::Group => 1,
        SpiSetting::Enable => 1,
        SpiSetting::Target => 8,
        SpiSetting::Priority => 8,
        SpiSetting::Config => 2,
    }
}

/// Interrupts per 32-bit register of the setting.
pub open spec fn fields_per_register(s: SpiSetting) -> u32 {
    match s {
        SpiSetting::Group => 32,
        SpiSetting::Enable => 32,
        SpiSetting::Target => 4,
        SpiSetting::Priority => 4,
        SpiSetting::Config => 16,
    }
}

/// The unshifted mask of one interrupt's field.
pub open spec fn field_mask(s: SpiSetting) -> u32 {
    match s {
        SpiSetting::Group => 1,
        SpiSetting::Enable => 1,
        SpiSetting::Target => 0xFF,
        SpiSetting::Priority => 0xFF,
        SpiSetting::Config => 3,
    }
}

/// The value the kernel gives the setting: group 1, enabled, target CPU 0,
/// priority 0x80 (mid-range), edge-triggered (`0b10`).
pub open spec fn setting_value(s: SpiSetting) -> u32 {
    match s {
        SpiSetting::Group => 1,
        SpiSetting::Enable => 1,
        SpiSetting::Target => 0x01,
        SpiSetting::Priority => 0x80,
        SpiSetting::Config => 0b10,
    }
}

/// Offset in the distributor of the register that holds interrupt `id`'s
/// field of setting `s`.
pub open spec fn spi_register_offset(s: SpiSetting, id: u32) -> int {
    bank_offset(s) + (id / fields_per_register(s)) * 4
}

/// Position of interrupt `id`'s field in its register.
pub open spec fn field_shift(s: SpiSetting, id: u32) -> u32 {
    ((id % fields_per_register(s)) * field_width(s)) as u32
}

/// Interrupt `id`'s field of setting `s` in register value `reg`.
pub open spec fn spi_field(s: SpiSetting, id: u32, reg: u32) -> u32 {
    (reg >> field_shift(s, id)) & field_mask(s)
}

/// Register value `reg` with interrupt `id`'s field of setting `s` set to the
/// kernel's value, the other bits unchanged.
pub open spec fn spi_field_written(s: SpiSetting, id: u32, reg: u32) -> u32 {
    (reg & !(field_mask(s) << field_shift(s, id))) | (setting_value(s) << field_shift(s, id))
}

/// Address of the distributor register that holds interrupt `id`'s field of
/// setting `s`.
pub fn spi_register_addr(s: SpiSetting, id: u32) -> (addr: u64)
    ensures
        addr == GICD_BASE + spi_register_offset(s, id),
        addr % 4 == 0,
        addr == GICD_BASE + bank_offset(s) + 4 * ((id * field_width(s)) / 32),
{
    proof {
        lemma_spi_register_holds_field(s, id);
    }
    let offset: u64 = match s {
        SpiSetting::Group => 0x080 + ((id as u64 / 32) * 4),
        SpiSetting::Enable => 0x100 + ((id as u64 / 32) * 4),
        SpiSetting::Target => 0x800 + ((id as u64 / 4) * 4),
        SpiSetting::Priority => 0x400 + ((id as u64 / 4) * 4),
        SpiSetting::Config => 0xC00 + ((id as u64 / 16) * 4),
    };
    GICD_BASE + offset
}

/// The new value of the register holding interrupt `id`'s field of setting
/// `s`, read as `reg`: that field set to the kernel's value (group 1,
/// enabled, CPU 0, priority 0x80, edge), every other bit unchanged.
pub fn spi_register_update(s: SpiSetting, id: u32, reg: u32) -> (r: u32)
    ensures
        r == spi_field_written(s, id, reg),
{
    match s {
        SpiSetting::Group | SpiSetting::Enable => {
            let bit = id % 32;
            let r = reg | (1 << bit);
            proof {
                assert(reg | (1u32 << bit) == (reg & !(1u32 << bit)) | (1u32 << bit)) by (bit_vector);
                assert(field_width(s) == 1 && fields_per_register(s) == 32);
                assert(field_shift(s, id) == bit);
            }
            r
        },
        SpiSetting::Target => {
            let shift = (id % 4) * 8;
            let mut current = reg;
            current &= !(0xFF << shift);
            current |= 0x01 << shift;
            proof {
                assert(field_shift(s, id) == shift);
            }
            current
        },
        SpiSetting::Priority => {
            let shift = (id % 4) * 8;
            let mut current = reg;
            current &= !(0xFF << shift);
            current |= 0x80 << shift;
            proof {
                assert(field_shift(s, id) == shift);
            }
            current
        },
        SpiSetting::Config => {
            let shift = (id % 16) * 2;
            let mut current = reg;
            current &= !(0x3 << shift);
            current |= 0x2 << shift;
            proof {
                assert(field_shift(s, id) == shift);
            }
            current
        },
    }
}

// ---------------------------------------------------------------------------
// Interrupt routing
// ---------------------------------------------------------------------------

/// What the interrupt handler does with an acknowledged interrupt.
#[derive(Clone, Copy, Debug, PartialEq, Eq, Structural)]
pub enum IrqAction {
    /// MIP input 0: the RP1 UART's interrupt, handed to the UART driver.
    Uart,
    /// The spurious interrupt ID: nothing to do.
    Spurious,
    /// Any other interrupt: reported as unexpected.
    Unexpected { id: u32 },
}

/// The interrupt ID in a GICC_IAR value (bits [9:0]).
pub open spec fn interrupt_id(iar: u32) -> u32 {
    iar & 0x3FFu32
}

/// What the handler does for the interrupt acknowledged as `iar`.
pub open spec fn irq_action(iar: u32) -> IrqAction {
    let id = interrupt_id(iar);
    if id == IRQ_MIP_INPUT0 {
        IrqAction::Uart
    } else if id == IRQ_SPURIOUS {
        IrqAction::Spurious
    } else {
        IrqAction::Unexpected { id }
    }
}

/// Dispatches an acknowledged interrupt by its ID: MIP input 0 goes to the
/// UART driver, the spurious ID is ignored, anything else is unexpected. The
/// handler then writes `iar` back to GICC_EOIR.
pub fn classify_irq(iar: u32) -> (action: IrqAction)
    ensures
        action == irq_action(iar),
        (action == IrqAction::Uart) <==> (iar & 0x3FFu32 == 160),
        (action == IrqAction::Spurious) <==> (iar & 0x3FFu32 == 1023),
        iar & 0x3FFu32 != 160 && iar & 0x3FFu32 != 1023 ==> action == (IrqAction::Unexpected {
            id: iar & 0x3FFu32,
        }),
{
    proof {
        lemma_irq_dispatch(iar);
    }
    let id = iar & 0x3FF;
    if id == IRQ_MIP_INPUT0 {
        IrqAction::Uart
    } else if id == IRQ_SPURIOUS {
        IrqAction::Spurious
    } else {
        IrqAction::Unexpected { id }
    }
}

proof fn lemma_write_bit(reg: u32, sh: u32, sh2: u32)
    requires
        sh < 32,
        sh2 < 32,
    ensures
        (((reg & !(1u32 << sh)) | (1u32 << sh)) >> sh) & 1u32 == 1u32,
        sh2 != sh ==> (((reg & !(1u32 << sh)) | (1u32 << sh)) >> sh2) & 1u32 == (reg >> sh2) & 1u32,
{
    assert((((reg & !(1u32 << sh)) | (1u32 << sh)) >> sh) & 1u32 == 1u32 && (sh2 != sh ==> (((reg
        & !(1u32 << sh)) | (1u32 << sh)) >> sh2) & 1u32 == (reg >> sh2) & 1u32)) by (bit_vector)
        requires
            sh < 32u32,
            sh2 < 32u32,
    ;
}

proof fn lemma_write_byte(reg: u32, v: u32, sh: u32, sh2: u32)
    requires
        v <= 0xFF,
        sh == 0 || sh == 8 || sh == 16 || sh == 24,
        sh2 == 0 || sh2 == 8 || sh2 == 16 || sh2 == 24,
    ensures
        (((reg & !(0xFFu32 << sh)) | (v << sh)) >> sh) & 0xFFu32 == v,
        sh2 != sh ==> (((reg & !(0xFFu32 << sh)) | (v << sh)) >> sh2) & 0xFFu32 == (reg >> sh2) & 0xFFu32,
{
    assert((((reg & !(0xFFu32 << sh)) | (v << sh)) >> sh) & 0xFFu32 == v && (sh2 != sh ==> (((reg
        & !(0xFFu32 << sh)) | (v << sh)) >> sh2) & 0xFFu32 == (reg >> sh2) & 0xFFu32)) by (bit_vector)
        requires
            v <= 0xFFu32,
            sh == 0u32 || sh == 8u32 || sh == 16u32 || sh == 24u32,
            sh2 == 0u32 || sh2 == 8u32 || sh2 == 16u32 || sh2 == 24u32,
    ;
}

proof fn lemma_write_pair(reg: u32, v: u32, sh: u32, sh2: u32)
    requires
        v <= 3,
        sh < 32 && sh % 2 == 0,
        sh2 < 32 && sh2 % 2 == 0,
    ensures
        (((reg & !(3u32 << sh)) | (v << sh)) >> sh) & 3u32 == v,
        sh2 != sh ==> (((reg & !(3u32 << sh)) | (v << sh)) >> sh2) & 3u32 == (reg >> sh2) & 3u32,
{
    assert((((reg & !(3u32 << sh)) | (v << sh)) >> sh) & 3u32 == v && (sh2 != sh ==> (((reg & !(3u32
        << sh)) | (v << sh)) >> sh2) & 3u32 == (reg >> sh2) & 3u32)) by (bit_vector)
        requires
            v <= 3u32,
            sh < 32u32,
            sh % 2u32 == 0u32,
            sh2 < 32u32,
            sh2 % 2u32 == 0u32,
    ;
}

proof fn lemma_bit_fields(id: u32, other: u32, reg: u32)
    ensures
        (((reg & !(1u32 << id % 32)) | (1u32 << id % 32)) >> id % 32) & 1u32 == 1u32,
        other != id && other / 32 == id / 32 ==> (((reg & !(1u32 << id % 32)) | (1u32 << id % 32))
            >> other % 32) & 1u32 == (reg >> other % 32) & 1u32,
{
    lemma_write_bit(reg, id % 32, other % 32);
}

proof fn lemma_byte_fields(id: u32, other: u32, reg: u32, v: u32)
    requires
        v <= 0xFF,
    ensures
        (((reg & !(0xFFu32 << ((id % 4) * 8) as u32)) | (v << ((id % 4) * 8) as u32)) >> ((id % 4)
            * 8) as u32) & 0xFFu32 == v,
        other != id && other / 4 == id / 4 ==> (((reg & !(0xFFu32 << ((id % 4) * 8) as u32)) | (v
            << ((id % 4) * 8) as u32)) >> ((other % 4) * 8) as u32) & 0xFFu32 == (reg >> ((other % 4)
            * 8) as u32) & 0xFFu32,
{
    let sh = ((id % 4) * 8) as u32;
    let sh2 = ((other % 4) * 8) as u32;
    assert(sh == 0 || sh == 8 || sh == 16 || sh == 24);
    assert(sh2 == 0 || sh2 == 8 || sh2 == 16 || sh2 == 24);
    lemma_write_byte(reg, v, sh, sh2);
}

proof fn lemma_pair_fields(id: u32, other: u32, reg: u32, v: u32)
    requires
        v <= 3,
    ensures
        (((reg & !(3u32 << ((id % 16) * 2) as u32)) | (v << ((id % 16) * 2) as u32)) >> ((id % 16)
            * 2) as u32) & 3u32 == v,
        other != id && other / 16 == id / 16 ==> (((reg & !(3u32 << ((id % 16) * 2) as u32)) | (v
            << ((id % 16) * 2) as u32)) >> ((other % 16) * 2) as u32) & 3u32 == (reg >> ((other % 16)
            * 2) as u32) & 3u32,
{
    let sh = ((id % 16) * 2) as u32;
    let sh2 = ((other % 16) * 2) as u32;
    assert(sh < 32 && sh % 2 == 0);
    assert(sh2 < 32 && sh2 % 2 == 0);
    lemma_write_pair(reg, v, sh, sh2);
}

/// Configuring an SPI does what it says and nothing else: after the update
/// of the register that holds interrupt `id`'s field of setting `s`, that
/// field holds the kernel's value, and the field of every other interrupt
/// that shares the register is what it was.
pub proof fn lemma_spi_update_frame(s: SpiSetting, id: u32, other: u32, reg: u32)
    ensures
        spi_field(s, id, spi_field_written(s, id, reg)) == setting_value(s),
        other != id && spi_register_offset(s, other) == spi_register_offset(s, id) ==> spi_field(
            s,
            other,
            spi_field_written(s, id, reg),
        ) == spi_field(s, other, reg),
{
    match s {
        SpiSetting::Group => {
            lemma_bit_fields(id, other, reg);
        },
        SpiSetting::Enable => {
            lemma_bit_fields(id, other, reg);
        },
        SpiSetting::Target => {
            lemma_byte_fields(id, other, reg, 0x01);
        },
        SpiSetting::Priority => {
            lemma_byte_fields(id, other, reg, 0x80);
        },
        SpiSetting::Config => {
            lemma_pair_fields(id, other, reg, 0b10);
        },
    }
}

/// Configuring an SPI twice leaves its registers as configuring it once
/// does.
pub proof fn lemma_spi_update_idempotent(s: SpiSetting, id: u32, reg: u32)
    ensures
        spi_field_written(s, id, spi_field_written(s, id, reg)) == spi_field_written(s, id, reg),
{
    let m = field_mask(s) << field_shift(s, id);
    let v = setting_value(s) << field_shift(s, id);
    assert((((reg & !m) | v) & !m) | v == (reg & !m) | v) by (bit_vector);
}

/// For every interrupt ID the GICv2 defines (below 1020), the five
/// registers that configuring it touches are five different registers, each
/// inside its own bank: the read-modify-writes do not interfere, in any
/// order.
pub proof fn lemma_spi_registers_distinct(id: u32)
    requires
        id < 1020,
    ensures
        0x080 <= spi_register_offset(SpiSetting::Group, id) < 0x100,
        0x100 <= spi_register_offset(SpiSetting::Enable, id) < 0x180,
        0x400 <= spi_register_offset(SpiSetting::Priority, id) < 0x800,
        0x800 <= spi_register_offset(SpiSetting::Target, id) < 0xC00,
        0xC00 <= spi_register_offset(SpiSetting::Config, id) < 0xD00,
{
    assert(id / 4 <= 254);
    assert(id / 16 <= 63);
    assert(id / 32 <= 31);
}

/// Where an interrupt's field of a setting lives. Each distributor bank is a
/// bitmap with a fixed number of bits per interrupt (IGROUPR at 0x080 and
/// ISENABLER at 0x100 one bit, IPRIORITYR at 0x400 and ITARGETSR at 0x800
/// eight bits, ICFGR at 0xC00 two bits): interrupt `id`'s field is bits
/// `[id * w, id * w + w)` of the bank. Its register is the word-aligned 32-bit
/// word holding bit `id * w`, the field lies at bit `(id * w) % 32` of that
/// word and fits in it, and two interrupts share a register exactly when
/// their fields lie in the same 32-bit word.
pub proof fn lemma_spi_register_holds_field(s: SpiSetting, id: u32)
    ensures
        s == SpiSetting::Group ==> spi_register_offset(s, id) == 0x080 + 4 * (id / 32)
            && field_shift(s, id) == id % 32 && field_mask(s) == 1,
        s == SpiSetting::Enable ==> spi_register_offset(s, id) == 0x100 + 4 * (id / 32)
            && field_shift(s, id) == id % 32 && field_mask(s) == 1,
        s == SpiSetting::Priority ==> spi_register_offset(s, id) == 0x400 + 4 * ((id * 8) / 32)
            && field_shift(s, id) == (id * 8) % 32 && field_mask(s) == 0xFF,
        s == SpiSetting::Target ==> spi_register_offset(s, id) == 0x800 + 4 * ((id * 8) / 32)
            && field_shift(s, id) == (id * 8) % 32 && field_mask(s) == 0xFF,
        s == SpiSetting::Config ==> spi_register_offset(s, id) == 0xC00 + 4 * ((id * 2) / 32)
            && field_shift(s, id) == (id * 2) % 32 && field_mask(s) == 3,
        spi_register_offset(s, id) == bank_offset(s) + 4 * ((id * field_width(s)) / 32),
        spi_register_offset(s, id) % 4 == 0,
        field_shift(s, id) == (id * field_width(s)) % 32,
        field_shift(s, id) + field_width(s) <= 32,
        field_mask(s) + 1 == vstd::arithmetic::power2::pow2(field_width(s) as nat),
{
    vstd::arithmetic::power2::lemma2_to64();
    match s {
        SpiSetting::Group => {},
        SpiSetting::Enable => {},
        SpiSetting::Priority => {
            assert((id * 8) / 32 == id / 4);
            assert((id * 8) % 32 == (id % 4) * 8);
        },
        SpiSetting::Target => {
            assert((id * 8) / 32 == id / 4);
            assert((id * 8) % 32 == (id % 4) * 8);
        },
        SpiSetting::Config => {
            assert((id * 2) / 32 == id / 16);
            assert((id * 2) % 32 == (id % 16) * 2);
        },
    }
}

/// Two interrupts' fields of a setting are in the same register exactly when
/// they lie in the same 32-bit word of the bank's bitmap; registers are
/// word-aligned and distinct words give distinct registers.
pub proof fn lemma_spi_register_sharing(s: SpiSetting, id: u32, other: u32)
    ensures
        (spi_register_offset(s, id) == spi_register_offset(s, other)) <==> ((id * field_width(s)) / 32
            == (other * field_width(s)) / 32),
{
    lemma_spi_register_holds_field(s, id);
    lemma_spi_register_holds_field(s, other);
}

/// The handler hands to the UART driver exactly the interrupt with ID 160
/// (MIP input 0, SPI 128), ignores exactly ID 1023, and reports every other
/// ID, the low ten bits of GICC_IAR, as unexpected.
pub proof fn lemma_irq_dispatch(iar: u32)
    ensures
        (irq_action(iar) == IrqAction::Uart) <==> (iar & 0x3FFu32 == 160),
        (irq_action(iar) == IrqAction::Spurious) <==> (iar & 0x3FFu32 == 1023),
        iar & 0x3FFu32 != 160 && iar & 0x3FFu32 != 1023 ==> irq_action(iar) == (IrqAction::Unexpected {
            id: iar & 0x3FFu32,
        }),
        forall|iar2: u32| #[trigger] irq_action(iar2) == irq_action(iar) <==> (
            iar2 & 0x3FFu32 == iar & 0x3FFu32),
{
}

/// Configuring an SPI makes it a group 1 (non-secure) interrupt, enables
/// it, targets it at CPU 0 only, gives it priority 0x80 and makes it
/// edge-triggered (`0b10`), whatever its register held before.
pub proof fn lemma_spi_configuration(id: u32, reg: u32)
    ensures
        spi_field(SpiSetting::Group, id, spi_field_written(SpiSetting::Group, id, reg)) == 1,
        spi_field(SpiSetting::Enable, id, spi_field_written(SpiSetting::Enable, id, reg)) == 1,
        spi_field(SpiSetting::Target, id, spi_field_written(SpiSetting::Target, id, reg)) == 0x01,
        spi_field(SpiSetting::Priority, id, spi_field_written(SpiSetting::Priority, id, reg)) == 0x80,
        spi_field(SpiSetting::Config, id, spi_field_written(SpiSetting::Config, id, reg)) == 0b10,
{
    lemma_spi_update_frame(SpiSetting::Group, id, id, reg);
    lemma_spi_update_frame(SpiSetting::Enable, id, id, reg);
    lemma_spi_update_frame(SpiSetting::Target, id, id, reg);
    lemma_spi_update_frame(SpiSetting::Priority, id, id, reg);
    lemma_spi_update_frame(SpiSetting::Config, id, id, reg);
}

} // verus!
