//! PCIe root complex and RP1 southbridge setup.
//!
//! The RP1 sits behind a PCIe Gen2 link and signals interrupts with MSI-X
//! memory writes. It addresses the bus with 32 bits for MSI-X, so it cannot
//! write to the MIP doorbell at `0x10_0013_0000` directly: the root complex
//! opens inbound window 2 (BAR2), which translates the PCIe bus address
//! `0xFF_FFFF_F000` to the CPU physical address of the doorbell.

use crate::fields::{bit_set32, field_add32, field_is_set32, field_modify32, field_val32};
use vstd::prelude::*;

verus! {

/// PCIe2 root complex register base.
pub const PCIE_RC_BASE: u64 = 0x10_0012_0000;

/// RP1 configuration space window.
pub const RP1_CFG_BASE: u64 = 0x1f_0010_9000;

/// RP1 internal peripherals on the APB (its interrupt controller).
pub const RP1_APB_BASE: u64 = 0x1f_0010_8000;

/// RP1 MSI-X table window.
pub const RP1_MSIX_TABLE: u64 = 0x1f_0041_0000;

/// The hardware-assigned MSI-X vector of UART0.
pub const UART0_VECTOR: usize = 25;

/// Low half of the PCIe bus address assigned to the MIP doorbell.
pub const MIP_DOORBELL_PCI_LO: u32 = 0xFFFF_F000;

/// High half of the PCIe bus address assigned to the MIP doorbell.
pub const MIP_DOORBELL_PCI_HI: u32 = 0x0000_00FF;

/// The RP1's PCI vendor ID.
pub const RP1_VENDOR_ID: u16 = 0x1DE4;

/// PCI capability ID of MSI-X.
pub const CAP_ID_MSIX: u32 = 0x11;

/// MISC_CTRL bit that enables System Core Bus access (inbound traffic).
pub const MISC_CTRL_SCB_ACCESS_EN: u32 = 12;

/// Value of an RP1 interrupt control register that enables the vector
/// (bit 3) and targets it (bit 0).
pub const MSIX_CTRL_ENABLE: u32 = 0x9;

// ---------------------------------------------------------------------------
// Root complex
// ---------------------------------------------------------------------------

/// Whether System Core Bus access is already enabled in MISC_CTRL.
pub fn scb_access_enabled(misc: u32) -> (enabled: bool)
    ensures
        enabled == bit_set32(misc, MISC_CTRL_SCB_ACCESS_EN),
        enabled == (misc & 0x1000u32 != 0),
{
    proof {
        assert((misc & (1u32 << 12u32) != 0u32) == (misc & 0x1000u32 != 0u32)) by (bit_vector);
    }
    field_is_set32(1, 12, misc)
}

/// MISC_CTRL with System Core Bus access enabled, every other bit as it was.
pub fn enable_scb_access(misc: u32) -> (r: u32)
    ensures
        r == misc | 0x1000u32,
        bit_set32(r, MISC_CTRL_SCB_ACCESS_EN),
{
    let fv = field_val32(1, 12, 1);
    let r = field_modify32(fv, misc);
    proof {
        let (m, v) = (fv.mask, fv.value);
        assert(r == misc | 0x1000u32 && (misc | 0x1000u32) & (1u32 << 12u32) != 0u32) by (bit_vector)
            requires
                m == 1u32 << 12u32,
                v == (1u32 & 1u32) << 12u32,
                r == (misc & !m) | (v & m),
        ;
    }
    r
}

/// The four registers of inbound window 2 of the root complex.
#[derive(Clone, Copy, Debug)]
pub struct InboundWindow {
    /// `BAR2_LO`: low PCIe address bits and window flags.
    pub bar2_lo: u32,
    /// `BAR2_HI`: high PCIe address bits.
    pub bar2_hi: u32,
    /// `UBUS_BAR2_LO`: low CPU address bits; bit 0 enables the window.
    pub ubus_bar2_lo: u32,
    /// `UBUS_BAR2_HI`: high CPU address bits.
    pub ubus_bar2_hi: u32,
}

/// The PCIe bus address at which the window opens.
pub open spec fn window_pcie_address(w: InboundWindow) -> int {
    w.bar2_hi * 0x1_0000_0000 + (w.bar2_lo & 0xFFFF_F000u32)
}

/// The window flags in the low bits of `BAR2_LO`.
pub open spec fn window_flags(w: InboundWindow) -> u32 {
    w.bar2_lo & 0xFFFu32
}

/// The CPU physical address that the window translates to.
pub open spec fn window_cpu_address(w: InboundWindow) -> int {
    w.ubus_bar2_hi * 0x1_0000_0000 + (w.ubus_bar2_lo & 0xFFFF_FFFEu32)
}

/// Whether the window is enabled (bit 0 of `UBUS_BAR2_LO`).
pub open spec fn window_enabled(w: InboundWindow) -> bool {
    w.ubus_bar2_lo & 1u32 == 1u32
}

/// The inbound window the kernel opens.
pub open spec fn kernel_inbound_window() -> InboundWindow {
    InboundWindow {
        bar2_lo: 0xFFFF_F01C,
        bar2_hi: 0xFF,
        ubus_bar2_lo: 0x0013_0001,
        ubus_bar2_hi: 0x10,
    }
}

/// Bit-level facts about the window register values.
pub proof fn lemma_window_constants()
    by (bit_vector)
    ensures
        (0xFFFF_F000u32 | 0x1Cu32) == 0xFFFF_F01Cu32,
        0xFFFF_F01Cu32 & 0xFFFF_F000u32 == 0xFFFF_F000u32,
        0xFFFF_F01Cu32 & 0xFFFu32 == 0x1Cu32,
        (0x0013_0000u32 | 1u32) == 0x0013_0001u32,
        0x0013_0001u32 & 0xFFFF_FFFEu32 == 0x0013_0000u32,
        0x0013_0001u32 & 1u32 == 1u32,
{
}

/// Inbound window 2: PCIe bus address `0xFF_FFFF_F000` with flags `0x1C`
/// (64-bit, prefetchable), translated to the MIP doorbell at
/// `0x10_0013_0000`, enabled.
pub fn inbound_window() -> (w: InboundWindow)
    ensures
        window_pcie_address(w) == 0xFF_FFFF_F000,
        window_flags(w) == 0x1C,
        window_cpu_address(w) == crate::drivers::gic::MIP_BASE,
        window_enabled(w),
        w == kernel_inbound_window(),
{
    let w = InboundWindow {
        bar2_lo: MIP_DOORBELL_PCI_LO | 0x1C,
        bar2_hi: MIP_DOORBELL_PCI_HI,
        ubus_bar2_lo: 0x0013_0000 | 1,
        ubus_bar2_hi: 0x0000_0010,
    };
    proof {
        lemma_window_constants();
    }
    w
}

// ---------------------------------------------------------------------------
// RP1 endpoint
// ---------------------------------------------------------------------------

/// Whether the vendor ID read from the RP1's configuration space is the
/// RP1's; the driver warns when it is not.
pub fn is_rp1_vendor(vid: u16) -> (ok: bool)
    ensures
        ok == (vid == RP1_VENDOR_ID),
{
    vid == RP1_VENDOR_ID
}

/// The COMMAND register with bus mastering (bit 2, so that the RP1 may
/// issue MSI-X memory writes) and memory access (bit 1) enabled, every other
/// bit as it was.
pub fn enable_bus_master(cmd: u32) -> (r: u32)
    ensures
        r == cmd | 0x6u32,
{
    let bus_master = field_val32(1, 2, 1);
    let mem_access = field_val32(1, 1, 1);
    let fv = field_add32(bus_master, mem_access);
    let r = field_modify32(fv, cmd);
    proof {
        let (am, av, bm, bv, m, v) = (bus_master.mask, bus_master.value, mem_access.mask, mem_access.value, fv.mask, fv.value);
        assert(r == cmd | 0x6u32) by (bit_vector)
            requires
                am == 1u32 << 2u32,
                av == (1u32 & 1u32) << 2u32,
                bm == 1u32 << 1u32,
                bv == (1u32 & 1u32) << 1u32,
                m == am | bm,
                v == (av & am) | (bv & bm),
                r == (cmd & !m) | (v & m),
        ;
    }
    r
}

// ---------------------------------------------------------------------------
// Capability list walk
// ---------------------------------------------------------------------------

/// One step of the walk along the PCI capability list.
#[derive(Clone, Copy, Debug)]
pub enum CapStep {
    /// The capability at the current offset is MSI-X. `enable_write` is the
    /// header value to write back to enable MSI-X, or `None` when it is
    /// already enabled.
    MsixFound { enable_write: Option<u32> },
    /// Another capability: the walk goes on at `next` (0 ends the list).
    Next { next: usize },
}

/// The capability ID in a capability header (bits [7:0]).
pub open spec fn cap_id(header: u32) -> u32 {
    header & 0xFFu32
}

/// The offset of the next capability (bits [15:8]).
pub open spec fn cap_next(header: u32) -> u32 {
    (header >> 8u32) & 0xFFu32
}

/// Bit 31 of an MSI-X capability header: MSI-X enable.
pub open spec fn msix_enabled(header: u32) -> bool {
    header & 0x8000_0000u32 != 0
}

/// A capability header is read byte by byte: byte 0 is the capability ID,
/// byte 1 the offset of the next capability, and the upper half belongs to
/// the capability itself. Building a header from an ID `id`, a next offset
/// `next` and an upper half `upper` gives them back, and every header is
/// so built from its own fields.
pub proof fn lemma_cap_header_fields(header: u32)
    ensures
        cap_id(header) == header & 0xFFu32,
        cap_next(header) == (header >> 8u32) & 0xFFu32,
        cap_id(header) == header % 256,
        cap_next(header) == (header / 256) % 256,
        forall|id: u32, next: u32, upper: u32|
            id < 256 && next < 256 && upper < 0x1_0000 ==> #[trigger] cap_next(id | (next << 8u32) | (upper << 16u32)) == next
                && cap_id(id | (next << 8u32) | (upper << 16u32)) == id,
{
    assert(header & 0xFFu32 == header % 256 && (header >> 8u32) & 0xFFu32 == (header / 256) % 256)
        by (bit_vector);
    assert forall|id: u32, next: u32, upper: u32|
        id < 256 && next < 256 && upper < 0x1_0000 implies #[trigger] cap_next(id | (next << 8u32) | (upper << 16u32)) == next
            && cap_id(id | (next << 8u32) | (upper << 16u32)) == id by {
        assert(((id | (next << 8u32) | (upper << 16u32)) >> 8u32) & 0xFFu32 == next
            && (id | (next << 8u32) | (upper << 16u32)) & 0xFFu32 == id) by (bit_vector)
            requires
                id < 256u32,
                next < 256u32,
                upper < 0x1_0000u32,
        ;
    }
}

/// The offset of the first capability, from the capabilities pointer.
pub fn cap_list_start(cap_ptr: u32) -> (offset: usize)
    ensures
        offset == cap_ptr & 0xFFu32,
        offset < 256,
{
    proof {
        assert(cap_ptr & 0xFFu32 < 256u32) by (bit_vector);
    }
    (cap_ptr & 0xFF) as usize
}

/// Address of the capability header at `offset` in the RP1's configuration
/// space.
pub fn cap_header_addr(offset: usize) -> (addr: u64)
    requires
        offset < 256,
    ensures
        addr == RP1_CFG_BASE + offset,
{
    RP1_CFG_BASE + offset as u64
}

/// The header value that enables MSI-X, or `None` when bit 31 is already set.
pub fn msix_enable_write(header: u32) -> (w: Option<u32>)
    ensures
        w == (if msix_enabled(header) { None } else { Some(header | 0x8000_0000u32) }),
        w == (if header & 0x8000_0000u32 != 0 { None } else { Some(header | 0x8000_0000u32) }),
        w matches Some(v) ==> msix_enabled(v) && v & 0x7FFF_FFFFu32 == header & 0x7FFF_FFFFu32,
{
    proof {
        assert(1u32 << 31u32 == 0x8000_0000u32
            && (header | 0x8000_0000u32) & 0x8000_0000u32 != 0u32
            && (header | 0x8000_0000u32) & 0x7FFF_FFFFu32 == header & 0x7FFF_FFFFu32) by (bit_vector);
    }
    if (header & (1 << 31)) == 0 {
        Some(header | (1 << 31))
    } else {
        None
    }
}

/// The step the capability walk takes on reading `header`: MSI-X
/// (capability ID `0x11`) ends the walk, any other capability leads to the
/// next offset.
pub fn cap_step(header: u32) -> (step: CapStep)
    ensures
        cap_id(header) == CAP_ID_MSIX ==> step == (CapStep::MsixFound {
            enable_write: if msix_enabled(header) { None } else { Some(header | 0x8000_0000u32) },
        }),
        cap_id(header) != CAP_ID_MSIX ==> step == (CapStep::Next { next: cap_next(header) as usize }),
        header & 0xFFu32 != 0x11 ==> step == (CapStep::Next { next: ((header >> 8u32) & 0xFFu32) as usize }),
        header & 0xFFu32 == 0x11 ==> step is MsixFound,
        step matches CapStep::Next { next } ==> next < 256,
{
    proof {
        lemma_cap_header_fields(header);
    }
    proof {
        assert(header & 0xFFu32 < 256u32 && (header >> 8u32) & 0xFFu32 < 256u32) by (bit_vector);
    }
    if (header & 0xFF) as u8 == 0x11 {
        CapStep::MsixFound { enable_write: msix_enable_write(header) }
    } else {
        CapStep::Next { next: ((header >> 8) & 0xFF) as usize }
    }
}

// ---------------------------------------------------------------------------
// MSI-X vector
// ---------------------------------------------------------------------------

/// An MSI-X table entry: message address, message data, vector control.
#[derive(Clone, Copy, Debug)]
pub struct MsixEntry {
    pub addr_lo: u32,
    pub addr_hi: u32,
    pub data: u32,
    pub vector_ctrl: u32,
}

/// The PCIe address an MSI-X message of `e` is written to.
pub open spec fn msix_message_address(e: MsixEntry) -> int {
    e.addr_hi * 0x1_0000_0000 + e.addr_lo
}

/// The MSI-X table entry the kernel programs for the UART vector.
pub open spec fn kernel_msix_entry() -> MsixEntry {
    MsixEntry { addr_lo: MIP_DOORBELL_PCI_LO, addr_hi: MIP_DOORBELL_PCI_HI, data: 0, vector_ctrl: 0 }
}

/// Address of the MSI-X table entry of `vector` (16 bytes per entry).
pub fn msix_entry_addr(vector: usize) -> (addr: u64)
    requires
        RP1_MSIX_TABLE + 16 * vector + 16 <= u64::MAX,
    ensures
        addr == RP1_MSIX_TABLE + 16 * vector,
{
    RP1_MSIX_TABLE + 4 * (vector as u64 * 4)
}

/// The MSI-X table entry the kernel programs: the message goes to the MIP
/// doorbell's PCIe address with data 0 (MIP input 0), unmasked.
pub fn msix_entry() -> (e: MsixEntry)
    ensures
        e == kernel_msix_entry(),
{
    MsixEntry {
        addr_lo: MIP_DOORBELL_PCI_LO,
        addr_hi: MIP_DOORBELL_PCI_HI,
        data: 0x0000_0000,
        vector_ctrl: 0x0000_0000,
    }
}

/// Address of the RP1 interrupt control register of `vector`: 32-bit
/// register `0x008 / 4 + vector` of the APB block.
pub fn msix_ctrl_addr(vector: usize) -> (addr: u64)
    requires
        RP1_APB_BASE + 0x008 + 4 * vector + 4 <= u64::MAX,
    ensures
        addr == RP1_APB_BASE + 0x008 + 4 * vector,
{
    (RP1_APB_BASE + 0x008) + 4 * vector as u64
}

/// The interrupt control value that enables a vector: enable (bit 3) and
/// target (bit 0).
pub fn msix_ctrl_enable() -> (ctrl: u32)
    ensures
        ctrl == MSIX_CTRL_ENABLE,
{
    proof {
        assert((1u32 << 3u32) | (1u32 << 0u32) == 9u32) by (bit_vector);
    }
    (1 << 3) | (1 << 0)
}

} // verus!
