//! The PL011 console of the RP1: what the console prints, and the register
//! values the driver reads and writes.
//!
//! Output is modelled as the sequence of characters handed to the transmit
//! data register, one `putc` each: the printing functions append to a
//! transmit queue, which the caller drains into the UART.

use crate::fields::{bit_set32, field_add32, field_is_set32, field_modify32, field_val32};
use vstd::prelude::*;

verus! {

// ---------------------------------------------------------------------------
// Numerals
// ---------------------------------------------------------------------------

/// The character of digit `d` (below 16): `0`-`9`, then `A`-`F`.
pub open spec fn digit_char(d: nat) -> char {
    if d < 10 {
        (48 + d) as char
    } else {
        (55 + d) as char
    }
}

/// The digits of `n` in base `base`, most significant first, with no
/// leading zero; empty for 0.
pub open spec fn digits(n: nat, base: nat) -> Seq<char>
    decreases n,
{
    if n == 0 || base < 2 {
        Seq::empty()
    } else {
        proof {
            vstd::arithmetic::div_mod::lemma_div_decreases(n as int, base as int);
        }
        digits(n / base, base).push(digit_char(n % base))
    }
}

/// The numeral of `n` in base `base`: its digits, or `0` for zero.
pub open spec fn numeral(n: nat, base: nat) -> Seq<char> {
    if n == 0 {
        seq!['0']
    } else {
        digits(n, base)
    }
}

/// The value of a digit character in base 16 or below (`0`-`9`, `A`-`F`).
pub open spec fn char_digit(c: char) -> int {
    if '0' <= c <= '9' {
        c as int - 48
    } else {
        c as int - 55
    }
}

/// The number that a sequence of digit characters denotes in base `base`.
pub open spec fn numeral_value(s: Seq<char>, base: nat) -> int
    decreases s.len(),
{
    if s.len() == 0 {
        0
    } else {
        numeral_value(s.drop_last(), base) * base + char_digit(s.last())
    }
}

/// Whether `c` is a digit of base `base` (at most 16), uppercase.
pub open spec fn is_digit_of(c: char, base: nat) -> bool {
    ('0' <= c <= '9' && (c as int - 48) < base) || ('A' <= c <= 'F' && (c as int - 55) < base)
}

proof fn lemma_reverse_push(s: Seq<char>, c: char)
    ensures
        s.push(c).reverse() == seq![c] + s.reverse(),
{
    assert(s.push(c).reverse() =~= seq![c] + s.reverse());
}

/// The numeral of `n` is made of digits of the base, starts with a nonzero
/// digit unless `n` is 0, and denotes `n`.
pub proof fn lemma_numeral_denotes(n: nat, base: nat)
    requires
        2 <= base <= 16,
    ensures
        numeral_value(numeral(n, base), base) == n,
        numeral(n, base).len() >= 1,
        forall|i: int| 0 <= i < numeral(n, base).len() ==> is_digit_of(#[trigger] numeral(n, base)[i], base),
        n != 0 ==> numeral(n, base)[0] != '0',
{
    if n == 0 {
        assert(numeral(n, base) =~= seq!['0']);
        assert(seq!['0'].drop_last() =~= Seq::<char>::empty());
        assert(numeral_value(Seq::<char>::empty(), base) == 0);
        assert(char_digit('0') == 0);
        assert(numeral_value(seq!['0'], base) == 0 * base + 0);
    } else {
        lemma_digits_denote(n, base);
    }
}

proof fn lemma_digits_denote(n: nat, base: nat)
    requires
        2 <= base <= 16,
        n > 0,
    ensures
        numeral_value(digits(n, base), base) == n,
        digits(n, base).len() >= 1,
        forall|i: int| 0 <= i < digits(n, base).len() ==> is_digit_of(#[trigger] digits(n, base)[i], base),
        digits(n, base)[0] != '0',
    decreases n,
{
    let q = n / base;
    let r = n % base;
    vstd::arithmetic::div_mod::lemma_fundamental_div_mod(n as int, base as int);
    vstd::arithmetic::div_mod::lemma_div_decreases(n as int, base as int);
    let d = digits(n, base);
    assert(d == digits(q, base).push(digit_char(r)));
    assert(d.drop_last() =~= digits(q, base));
    assert(char_digit(digit_char(r)) == r);
    assert(is_digit_of(digit_char(r), base));
    if q == 0 {
        assert(digits(q, base) =~= Seq::<char>::empty());
        assert(numeral_value(Seq::<char>::empty(), base) == 0);
        assert(r == n);
        assert(d.last() == digit_char(r));
        assert(numeral_value(d, base) == numeral_value(d.drop_last(), base) * base + char_digit(d.last()));
        assert(numeral_value(d, base) == 0 * base + r);
        assert(d[0] == digit_char(r));
    } else {
        lemma_digits_denote(q, base);
        assert(numeral_value(d, base) == n) by (nonlinear_arith)
            requires
                n == base * q + r,
                numeral_value(d, base) == numeral_value(digits(q, base), base) * base + char_digit(digit_char(r)),
                numeral_value(digits(q, base), base) == q,
                char_digit(digit_char(r)) == r,
        ;
        assert(d[0] == digits(q, base)[0]);
        assert forall|i: int| 0 <= i < d.len() implies is_digit_of(#[trigger] d[i], base) by {
            if i < d.len() - 1 {
                assert(d[i] == digits(q, base)[i]);
            }
        }
    }
}

// ---------------------------------------------------------------------------
// Printing
// ---------------------------------------------------------------------------

/// Print a string: each of its characters goes to the transmit queue.
pub fn console_print(out: &mut Vec<char>, s: &str)
    ensures
        final(out)@ == old(out)@ + s@,
{
    let ghost start = out@;
    for c in it: s.chars()
        invariant
            out@ == start + it.seq().take(it.index()),
    {
        out.push(c);
    }
    assert(out@ =~= start + s@);
}

/// `base` to the power `k`.
pub open spec fn power(base: nat, k: nat) -> nat
    decreases k,
{
    if k == 0 {
        1
    } else {
        base * power(base, (k - 1) as nat)
    }
}

/// A number below `base^k` has at most `k` digits.
pub proof fn lemma_digits_len(n: nat, base: nat, k: nat)
    requires
        2 <= base,
        n < power(base, k),
    ensures
        digits(n, base).len() <= k,
        n > 0 ==> digits(n, base).len() >= 1,
    decreases k,
{
    if n > 0 {
        assert(k > 0);
        let p = power(base, (k - 1) as nat);
        assert(n / base < p) by (nonlinear_arith)
            requires
                n < base * p,
                base >= 2,
        ;
        lemma_digits_len(n / base, base, (k - 1) as nat);
    }
}

/// A 64-bit number has at most 16 hexadecimal and at most 20 decimal
/// digits: the buffers of `print_hex` and `print_dec` are large enough.
pub proof fn lemma_u64_digit_counts(n: u64)
    ensures
        digits(n as nat, 16).len() <= 16,
        digits(n as nat, 10).len() <= 20,
{
    reveal_with_fuel(power, 21);
    assert(power(16, 16) == 0x1_0000_0000_0000_0000);
    assert(power(10, 20) == 100_000_000_000_000_000_000);
    lemma_digits_len(n as nat, 16, 16);
    lemma_digits_len(n as nat, 10, 20);
}

/// Appends the digits of `val` (nonzero) in base `base`, most significant
/// first, gathering them least significant first in `buffer`.
fn push_digits<const N: usize>(out: &mut Vec<char>, buffer: &mut [u8; N], val: u64, base: u64)
    requires
        2 <= base <= 16,
        val > 0,
        digits(val as nat, base as nat).len() <= N,
    ensures
        final(out)@ == old(out)@ + digits(val as nat, base as nat),
{
    let mut idx: usize = 0;
    let mut v: u64 = val;
    while v > 0
        invariant
            2 <= base <= 16,
            digits(val as nat, base as nat).len() <= N,
            idx <= N,
            digits(val as nat, base as nat) == digits(v as nat, base as nat) + buffer@.take(idx as int).map_values(|b: u8| b as char).reverse(),
        decreases v,
    {
        proof {
            assert(digits(v as nat, base as nat).len() >= 1);
            assert(idx < N);
        }
        let digit = (v % base) as u8;
        let byte = if digit < 10 {
            digit + 48u8
        } else {
            digit - 10 + 65u8
        };
        proof {
            let bc = buffer@.take(idx as int).map_values(|b: u8| b as char);
            assert(byte as char == digit_char((v % base) as nat));
            assert(buffer@.update(idx as int, byte).take(idx + 1).map_values(|b: u8| b as char) =~= bc.push(byte as char));
            lemma_reverse_push(bc, byte as char);
            assert(digits(v as nat, base as nat) == digits((v / base) as nat, base as nat).push(digit_char((v % base) as nat)));
            assert(digits(v as nat, base as nat) + bc.reverse() =~= digits((v / base) as nat, base as nat) + (seq![byte as char] + bc.reverse()));
        }
        buffer[idx] = byte;
        v = v / base;
        idx = idx + 1;
    }
    assert(digits(0, base as nat) =~= Seq::<char>::empty());
    let ghost start = out@;
    let ghost count = idx;
    let ghost bc = buffer@.take(idx as int).map_values(|b: u8| b as char);
    assert(digits(val as nat, base as nat) =~= bc.reverse());
    while idx > 0
        invariant
            idx <= count <= N,
            bc == buffer@.take(count as int).map_values(|b: u8| b as char),
            out@ == start + bc.reverse().take(count - idx),
        decreases idx,
    {
        idx = idx - 1;
        out.push(buffer[idx] as char);
        assert(out@ =~= start + bc.reverse().take(count - idx));
    }
    assert(bc.reverse().take(count as int) =~= bc.reverse());
}

/// Print a 64-bit integer as hexadecimal, uppercase, without leading zeros
/// (e.g. `1A`); zero prints as `0`.
pub fn print_hex(out: &mut Vec<char>, val: u64)
    ensures
        final(out)@ == old(out)@ + numeral(val as nat, 16),
{
    if val == 0 {
        proof {
            reveal_strlit("0");
        }
        console_print(out, "0");
        return;
    }
    let mut buffer = [0u8; 16];
    proof {
        lemma_u64_digit_counts(val);
    }
    push_digits(out, &mut buffer, val, 16);
}

/// Print a 64-bit integer as decimal, without leading zeros (e.g. `42`);
/// zero prints as `0`.
pub fn print_dec(out: &mut Vec<char>, val: u64)
    ensures
        final(out)@ == old(out)@ + numeral(val as nat, 10),
{
    if val == 0 {
        proof {
            reveal_strlit("0");
        }
        console_print(out, "0");
        return;
    }
    // u64::MAX is about 1.8e19, so 20 digits suffice.
    let mut buffer = [0u8; 20];
    proof {
        lemma_u64_digit_counts(val);
    }
    push_digits(out, &mut buffer, val, 10);
}

// ---------------------------------------------------------------------------
// Registers
// ---------------------------------------------------------------------------

/// Physical base of the RP1 peripheral window.
pub const RP1_PERIPH_BASE: u64 = 0x1f_0000_0000;

/// Offset of GPIO bank 0 in the RP1 window.
pub const IO_BANK0_OFFSET: u64 = 0xd0000;

/// Offset of pad control bank 0 in the RP1 window.
pub const PADS_BANK0_OFFSET: u64 = 0xf0000;

/// Offset of UART0 in the RP1 window.
pub const UART0_OFFSET: u64 = 0x03_0000;

/// Physical address of UART0's registers.
pub const UART0_ADDR: u64 = RP1_PERIPH_BASE + UART0_OFFSET;

/// Physical address of pad control bank 0.
pub const PADS_ADDR: u64 = RP1_PERIPH_BASE + PADS_BANK0_OFFSET;

/// Physical address of GPIO bank 0.
pub const GPIO_ADDR: u64 = RP1_PERIPH_BASE + IO_BANK0_OFFSET;

/// Flag register bit: transmit FIFO full.
pub const FR_TXFF: u32 = 5;

/// Flag register bit: receive FIFO empty.
pub const FR_RXFE: u32 = 4;

/// Control register value that disables the UART during configuration.
pub const CR_DISABLED: u32 = 0;

/// Interrupt clear register value that clears every pending interrupt.
pub const ICR_CLEAR_ALL: u32 = 0x7FF;

/// UART reference clock assumed by the baud rate divisors: 48 MHz.
pub const UART_CLOCK_HZ: u32 = 48_000_000;

/// Console baud rate.
pub const UART_BAUD: u32 = 115_200;

/// Integer baud rate divisor.
pub const UART_IBRD: u32 = 26;

/// Fractional baud rate divisor, in 64ths.
pub const UART_FBRD: u32 = 3;

/// PL011 integer baud rate divisor: `clock / (16 * baud)`, rounded down.
pub open spec fn pl011_ibrd(clock: int, baud: int) -> int {
    clock / (16 * baud)
}

/// PL011 fractional baud rate divisor: the fractional part of
/// `clock / (16 * baud)` times 64, rounded to the nearest integer.
pub open spec fn pl011_fbrd(clock: int, baud: int) -> int {
    ((clock % (16 * baud)) * 128 + 16 * baud) / (32 * baud)
}

/// The divisors programmed into IBRD and FBRD are the PL011 divisors for
/// 115200 baud from a 48 MHz reference clock: 48,000,000 / (16 * 115,200)
/// = 26.04..., so IBRD = 26 and FBRD = round(0.0416... * 64) = 3.
pub proof fn lemma_baud_divisors()
    ensures
        UART_IBRD == pl011_ibrd(UART_CLOCK_HZ as int, UART_BAUD as int),
        UART_FBRD == pl011_fbrd(UART_CLOCK_HZ as int, UART_BAUD as int),
{
    assert(48_000_000int / (16 * 115_200int) == 26) by (nonlinear_arith);
    assert(48_000_000int % (16 * 115_200int) == 76_800) by (nonlinear_arith);
    assert((76_800int * 128 + 16 * 115_200int) / (32 * 115_200int) == 3) by (nonlinear_arith);
}

/// Whether the transmit FIFO is full (flag register `TXFF`): `putc` waits
/// while it is.
pub fn tx_fifo_full(fr: u32) -> (full: bool)
    ensures
        full == bit_set32(fr, FR_TXFF),
        full == (fr & 0x20u32 != 0),
{
    proof {
        assert((fr & (1u32 << 5u32) != 0u32) == (fr & 0x20u32 != 0u32)) by (bit_vector);
    }
    field_is_set32(1, 5, fr)
}

/// Whether the receive FIFO is empty (flag register `RXFE`): `getc` waits
/// while it is.
pub fn rx_fifo_empty(fr: u32) -> (empty: bool)
    ensures
        empty == bit_set32(fr, FR_RXFE),
        empty == (fr & 0x10u32 != 0),
{
    proof {
        assert((fr & (1u32 << 4u32) != 0u32) == (fr & 0x10u32 != 0u32)) by (bit_vector);
    }
    field_is_set32(1, 4, fr)
}

/// The character received in a data register value: its low byte, taken as
/// a Latin-1 character.
pub fn rx_char(dr: u32) -> (c: char)
    ensures
        c == ((dr & 0xFFu32) as u8) as char,
{
    (dr & 0xFF) as u8 as char
}

/// Line control: 8-bit words (`WLEN` = `0b11` in bits [6:5]) with the FIFOs
/// enabled (`FEN`, bit 4).
pub fn line_control() -> (lcrh: u32)
    ensures
        lcrh == 0x70,
{
    let wlen = field_val32(0b11, 5, 0b11);
    let fen = field_val32(1, 4, 1);
    let fv = field_add32(wlen, fen);
    proof {
        let (wm, wv, fm, fvv, m, v) = (wlen.mask, wlen.value, fen.mask, fen.value, fv.mask, fv.value);
        assert(v == 0x70u32) by (bit_vector)
            requires
                wm == 3u32 << 5u32,
                wv == (3u32 & 3u32) << 5u32,
                fm == 1u32 << 4u32,
                fvv == (1u32 & 1u32) << 4u32,
                v == (wv & wm) | (fvv & fm),
        ;
    }
    fv.value
}

/// Control register with the UART, its transmitter and its receiver enabled
/// (`UARTEN` bit 0, `TXE` bit 8, `RXE` bit 9).
pub fn control_enabled() -> (cr: u32)
    ensures
        cr == 0x301,
{
    let uarten = field_val32(1, 0, 1);
    let txe = field_val32(1, 8, 1);
    let rxe = field_val32(1, 9, 1);
    let f1 = field_add32(uarten, txe);
    let fv = field_add32(f1, rxe);
    proof {
        let (um, uv, tm, tv, rm, rv) = (uarten.mask, uarten.value, txe.mask, txe.value, rxe.mask, rxe.value);
        let (m1, v1, v) = (f1.mask, f1.value, fv.value);
        assert(v == 0x301u32) by (bit_vector)
            requires
                um == 1u32 << 0u32,
                uv == (1u32 & 1u32) << 0u32,
                tm == 1u32 << 8u32,
                tv == (1u32 & 1u32) << 8u32,
                rm == 1u32 << 9u32,
                rv == (1u32 & 1u32) << 9u32,
                m1 == um | tm,
                v1 == (uv & um) | (tv & tm),
                v == (v1 & m1) | (rv & rm),
        ;
    }
    fv.value
}

/// The GPIO control value that selects function 4 (UART0) for a pin:
/// `FUNCSEL` in bits [4:0].
pub fn gpio_uart_function() -> (ctrl: u32)
    ensures
        ctrl == 4,
{
    let fv = field_val32(0b1_1111, 0, 4);
    proof {
        let v = fv.value;
        assert(v == 4u32) by (bit_vector)
            requires
                v == (4u32 & 0x1Fu32) << 0u32,
        ;
    }
    fv.value
}

/// The pad control of the TX pin (GPIO14) after configuration: output
/// disable (`OD`, bit 7) cleared, every other bit as it was.
pub fn pad_tx_config(pad: u32) -> (r: u32)
    ensures
        r == pad & !0x80u32,
{
    let od_clear = field_val32(1, 7, 0);
    let r = field_modify32(od_clear, pad);
    proof {
        let (m, v) = (od_clear.mask, od_clear.value);
        assert(r == pad & !0x80u32) by (bit_vector)
            requires
                m == 1u32 << 7u32,
                v == (0u32 & 1u32) << 7u32,
                r == (pad & !m) | (v & m),
        ;
    }
    r
}

/// The pad control of the RX pin (GPIO15) after configuration: input enable
/// (`IE`, bit 6) and pull-up enable (`PUE`, bit 3) set, every other bit as it
/// was.
pub fn pad_rx_config(pad: u32) -> (r: u32)
    ensures
        r == pad | 0x48u32,
{
    let ie = field_val32(1, 6, 1);
    let pue = field_val32(1, 3, 1);
    let fv = field_add32(ie, pue);
    let r = field_modify32(fv, pad);
    proof {
        let (im, iv, pm, pv, m, v) = (ie.mask, ie.value, pue.mask, pue.value, fv.mask, fv.value);
        assert(r == pad | 0x48u32) by (bit_vector)
            requires
                im == 1u32 << 6u32,
                iv == (1u32 & 1u32) << 6u32,
                pm == 1u32 << 3u32,
                pv == (1u32 & 1u32) << 3u32,
                m == im | pm,
                v == (iv & im) | (pv & pm),
                r == (pad & !m) | (v & m),
        ;
    }
    r
}

} // verus!
