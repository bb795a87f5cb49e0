//! PL011 UART driver for the RP1: console output with newline translation,
//! the receive interrupt and its echo, and the register values involved.
//!
//! The UART is reached through the RP1 peripheral window at
//! `0x1F_0003_0000`. A receive interrupt is cleared both in the UART (ICR)
//! and in the RP1 interrupt controller (APB), which re-arms MSI-X.

use crate::fields::{bit_set32, field_add32, field_is_set32, field_val32};
use crate::uart::{rx_char, tx_fifo_full};
use vstd::prelude::*;

verus! {

/// Physical base of the RP1 peripheral window.
pub const RP1_PERIPH_BASE: u64 = 0x1f_0000_0000;

/// Physical base of UART0.
pub const UART0_BASE: u64 = RP1_PERIPH_BASE + 0x03_0000;

/// Physical base of the RP1 pad control bank 0.
pub const PADS_BASE: u64 = RP1_PERIPH_BASE + 0x0f_0000;

/// Physical base of the RP1 GPIO bank 0.
pub const GPIO_BASE: u64 = RP1_PERIPH_BASE + 0x0d_0000;

/// Base of the RP1 interrupt controller registers on the APB.
pub const RP1_APB_BASE: u64 = 0x1f_0010_8000;

/// The RP1 interrupt vector of UART0.
pub const UART0_IRQ_VECTOR: usize = 25;

/// Value written to the RP1 interrupt control register of UART0 to
/// acknowledge its interrupt and re-arm MSI-X.
pub const RX_IRQ_ACK: u32 = 0xD;

/// Masked interrupt status bit: receive.
pub const MIS_RXMIS: u32 = 4;

/// Masked interrupt status bit: receive timeout.
pub const MIS_RTMIS: u32 = 6;

// ---------------------------------------------------------------------------
// Console output
// ---------------------------------------------------------------------------

/// The characters the console sends for character `c`: a newline goes out
/// as carriage return and newline.
pub open spec fn crlf_char(c: char) -> Seq<char> {
    if c == '\n' {
        seq!['\r', '\n']
    } else {
        seq![c]
    }
}

/// The characters the console sends for the text `s`.
pub open spec fn crlf(s: Seq<char>) -> Seq<char>
    decreases s.len(),
{
    if s.len() == 0 {
        Seq::empty()
    } else {
        crlf(s.drop_last()) + crlf_char(s.last())
    }
}

/// Whether the transmit FIFO is full: `putc` waits while it is.
pub fn putc_must_wait(fr: u32) -> (wait: bool)
    ensures
        wait == bit_set32(fr, crate::uart::FR_TXFF),
{
    tx_fifo_full(fr)
}

/// Writes `s` to the console, each newline preceded by a carriage return.
pub fn write_str(out: &mut Vec<char>, s: &str)
    ensures
        final(out)@ == old(out)@ + crlf(s@),
{
    let ghost start = out@;
    for c in it: s.chars()
        invariant
            out@ == start + crlf(it.seq().take(it.index())),
    {
        proof {
            let t = it.seq().take(it.index() + 1);
            assert(t.drop_last() =~= it.seq().take(it.index()));
        }
        if c == '\n' {
            out.push('\r');
        }
        out.push(c);
        proof {
            let ghost prev = it.seq().take(it.index());
            assert(out@ =~= start + crlf(prev) + crlf_char(c));
        }
    }
    assert(s@.take(s@.len() as int) =~= s@);
}

/// The console sends every character of the text itself, in order, and adds
/// only a carriage return before each newline: a one-character text other
/// than a newline is sent as it is, a newline as `\r\n`, and a text is sent
/// as its characters are, one after the other (see `lemma_crlf_concat`).
/// So the text sent is never shorter than the text written, and is exactly
/// as long when it has no newline.
pub proof fn lemma_crlf_characters(s: Seq<char>)
    ensures
        forall|c: char| c != '\n' ==> #[trigger] crlf(seq![c]) == seq![c],
        crlf(seq!['\n']) == seq!['\r', '\n'],
        crlf(s).len() >= s.len(),
        (forall|i: int| 0 <= i < s.len() ==> s[i] != '\n') ==> crlf(s) == s,
    decreases s.len(),
{
    assert forall|c: char| c != '\n' implies #[trigger] crlf(seq![c]) == seq![c] by {
        assert(seq![c].drop_last() =~= Seq::<char>::empty());
        assert(crlf(Seq::<char>::empty()) == Seq::<char>::empty());
        assert(seq![c].last() == c);
        assert(crlf(seq![c]) == crlf(seq![c].drop_last()) + crlf_char(c));
        assert(crlf(seq![c]) =~= seq![c]);
    }
    assert(seq!['\n'].drop_last() =~= Seq::<char>::empty());
    assert(crlf(Seq::<char>::empty()) == Seq::<char>::empty());
    assert(seq!['\n'].last() == '\n');
    assert(crlf(seq!['\n']) == crlf(seq!['\n'].drop_last()) + crlf_char('\n'));
    assert(crlf(seq!['\n']) =~= seq!['\r', '\n']);
    if s.len() > 0 {
        lemma_crlf_characters(s.drop_last());
        if forall|i: int| 0 <= i < s.len() ==> s[i] != '\n' {
            assert(forall|i: int| 0 <= i < s.drop_last().len() ==> s.drop_last()[i] != '\n') by {
                assert forall|i: int| 0 <= i < s.drop_last().len() implies s.drop_last()[i] != '\n' by {
                    assert(s.drop_last()[i] == s[i]);
                }
            }
            assert(s.last() != '\n');
            assert(crlf(s) =~= s.drop_last() + seq![s.last()]);
            assert(s.drop_last() + seq![s.last()] =~= s);
        }
    } else {
        assert(crlf(s) =~= s);
    }
}

/// Writing two strings one after the other sends what writing their
/// concatenation sends.
pub proof fn lemma_crlf_concat(a: Seq<char>, b: Seq<char>)
    ensures
        crlf(a + b) == crlf(a) + crlf(b),
    decreases b.len(),
{
    if b.len() == 0 {
        assert(a + b =~= a);
        assert(crlf(a) + crlf(b) =~= crlf(a));
    } else {
        assert((a + b).drop_last() =~= a + b.drop_last());
        assert((a + b).last() == b.last());
        lemma_crlf_concat(a, b.drop_last());
        assert(crlf(a + b) =~= crlf(a) + crlf(b));
    }
}

/// The console never sends a bare newline: every newline it sends comes
/// right after a carriage return.
pub proof fn lemma_crlf_no_bare_newline(s: Seq<char>)
    ensures
        forall|i: int|
            0 <= i < crlf(s).len() && #[trigger] crlf(s)[i] == '\n' ==> i > 0 && crlf(s)[i - 1] == '\r',
    decreases s.len(),
{
    if s.len() > 0 {
        lemma_crlf_no_bare_newline(s.drop_last());
        let p = crlf(s.drop_last());
        let e = crlf_char(s.last());
        assert(crlf(s) == p + e);
        assert forall|i: int| 0 <= i < crlf(s).len() && #[trigger] crlf(s)[i] == '\n' implies i > 0
            && crlf(s)[i - 1] == '\r' by {
            if i < p.len() {
                assert(crlf(s)[i] == p[i]);
                assert(crlf(s)[i - 1] == p[i - 1]);
            } else {
                assert(crlf(s)[i] == e[i - p.len()]);
                if s.last() == '\n' {
                    assert(e =~= seq!['\r', '\n']);
                    if i == p.len() {
                        assert(e[0] == '\r');
                    } else {
                        assert(crlf(s)[i - 1] == e[0]);
                    }
                }
            }
        }
    }
}

// ---------------------------------------------------------------------------
// Receive interrupt
// ---------------------------------------------------------------------------

/// The characters echoed for a received character `c`: a carriage return
/// (the Return key) is echoed as carriage return and newline.
pub open spec fn echo_char(c: char) -> Seq<char> {
    if c == '\r' {
        seq!['\r', '\n']
    } else {
        seq![c]
    }
}

/// The echo of a received byte is the byte itself, as a character, for
/// every byte but a carriage return (0x0D), which is echoed as carriage
/// return and newline; so the echo always starts with the received
/// character, and is one character long unless that character is `\r`.
pub proof fn lemma_echo_is_the_received_character(dr: u32)
    ensures
        dr & 0xFFu32 != 0x0D ==> echo_char(((dr & 0xFFu32) as u8) as char) == seq![((dr & 0xFFu32) as u8) as char],
        dr & 0xFFu32 == 0x0D ==> echo_char(((dr & 0xFFu32) as u8) as char) == seq!['\r', '\n'],
        echo_char(((dr & 0xFFu32) as u8) as char)[0] == ((dr & 0xFFu32) as u8) as char,
        forall|c: char| c != '\r' ==> #[trigger] echo_char(c) == seq![c],
{
    assert(dr & 0xFFu32 < 256u32) by (bit_vector);
    let b = (dr & 0xFFu32) as u8;
    assert((b as char == '\r') <==> (b == 0x0D));
}

/// Whether the UART raises a receive interrupt: the receive or the receive
/// timeout bit of the masked interrupt status is set.
pub fn rx_interrupt_pending(mis: u32) -> (pending: bool)
    ensures
        pending == (bit_set32(mis, MIS_RXMIS) || bit_set32(mis, MIS_RTMIS)),
        pending == (mis & 0x50u32 != 0),
{
    proof {
        assert(((mis & (1u32 << 4u32) != 0u32) || (mis & (1u32 << 6u32) != 0u32)) == (mis & 0x50u32 != 0u32)) by (bit_vector);
    }
    field_is_set32(1, 4, mis) || field_is_set32(1, 6, mis)
}

/// Echoes the character received in data register value `dr` to the
/// console.
pub fn echo_rx(out: &mut Vec<char>, dr: u32)
    ensures
        final(out)@ == old(out)@ + echo_char(((dr & 0xFFu32) as u8) as char),
        dr & 0xFFu32 == 0x0D ==> final(out)@ == old(out)@ + seq!['\r', '\n'],
        dr & 0xFFu32 != 0x0D ==> final(out)@ == old(out)@ + seq![((dr & 0xFFu32) as u8) as char],
{
    proof {
        lemma_echo_is_the_received_character(dr);
    }
    let c = rx_char(dr);
    if c == '\r' {
        out.push('\r');
        out.push('\n');
    } else {
        out.push(c);
    }
    assert(final(out)@ =~= old(out)@ + echo_char(c));
}

/// The interrupt mask that enables the receive and receive-timeout
/// interrupts (`RXIM`, bit 4; `RTIM`, bit 6).
pub fn rx_interrupt_mask() -> (imsc: u32)
    ensures
        imsc == 0x50,
{
    let rxim = field_val32(1, 4, 1);
    let rtim = field_val32(1, 6, 1);
    let fv = field_add32(rxim, rtim);
    proof {
        let (am, av, bm, bv, v) = (rxim.mask, rxim.value, rtim.mask, rtim.value, fv.value);
        assert(v == 0x50u32) by (bit_vector)
            requires
                am == 1u32 << 4u32,
                av == (1u32 & 1u32) << 4u32,
                bm == 1u32 << 6u32,
                bv == (1u32 & 1u32) << 6u32,
                v == (av & am) | (bv & bm),
        ;
    }
    fv.value
}

/// The interrupt clear value for the receive and receive-timeout interrupts
/// (`RXIC`, bit 4; `RTIC`, bit 6).
pub fn rx_interrupt_clear() -> (icr: u32)
    ensures
        icr == 0x50,
{
    let rxic = field_val32(1, 4, 1);
    let rtic = field_val32(1, 6, 1);
    let fv = field_add32(rxic, rtic);
    proof {
        let (am, av, bm, bv, v) = (rxic.mask, rxic.value, rtic.mask, rtic.value, fv.value);
        assert(v == 0x50u32) by (bit_vector)
            requires
                am == 1u32 << 4u32,
                av == (1u32 & 1u32) << 4u32,
                bm == 1u32 << 6u32,
                bv == (1u32 & 1u32) << 6u32,
                v == (av & am) | (bv & bm),
        ;
    }
    fv.value
}

/// The control register value after a panic: UART and transmitter enabled
/// (`UARTEN`, bit 0; `TXE`, bit 8), receiver off.
pub fn control_tx_only() -> (cr: u32)
    ensures
        cr == 0x101,
{
    let uarten = field_val32(1, 0, 1);
    let txe = field_val32(1, 8, 1);
    let fv = field_add32(uarten, txe);
    proof {
        let (am, av, bm, bv, v) = (uarten.mask, uarten.value, txe.mask, txe.value, fv.value);
        assert(v == 0x101u32) by (bit_vector)
            requires
                am == 1u32 << 0u32,
                av == (1u32 & 1u32) << 0u32,
                bm == 1u32 << 8u32,
                bv == (1u32 & 1u32) << 8u32,
                v == (av & am) | (bv & bm),
        ;
    }
    fv.value
}

/// Address of the RP1 interrupt control register of UART0, through which the
/// receive interrupt is acknowledged: 32-bit register `0x008 / 4 + 25` of the
/// APB block.
pub fn rx_irq_ack_addr() -> (addr: u64)
    ensures
        addr == RP1_APB_BASE + 0x008 + 4 * UART0_IRQ_VECTOR,
{
    RP1_APB_BASE + 4 * ((0x008 / 4) + UART0_IRQ_VECTOR as u64)
}

} // verus!
