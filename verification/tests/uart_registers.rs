use rpi5_kernel::drivers::uart::{
    control_tx_only, putc_must_wait, rx_interrupt_clear, rx_interrupt_mask, rx_interrupt_pending,
    rx_irq_ack_addr,
};
use rpi5_kernel::uart::{
    control_enabled, gpio_uart_function, line_control, pad_rx_config, pad_tx_config, rx_char,
    rx_fifo_empty, tx_fifo_full, UART_FBRD, UART_IBRD,
};

#[test]
fn flag_register_bits() {
    assert!(tx_fifo_full(0x20));
    assert!(!tx_fifo_full(0xDF));
    assert!(rx_fifo_empty(0x10));
    assert!(!rx_fifo_empty(0xEF));
    assert!(putc_must_wait(0x20));
    assert!(!putc_must_wait(0x10));
}

#[test]
fn received_character_is_low_byte() {
    assert_eq!(rx_char(0x0000_0441), 'A');
    assert_eq!(rx_char(0x0D), '\r');
    assert_eq!(rx_char(0xFF), '\u{ff}');
}

#[test]
fn configuration_values() {
    assert_eq!(line_control(), 0x70);
    assert_eq!(control_enabled(), 0x301);
    assert_eq!(control_tx_only(), 0x101);
    assert_eq!(gpio_uart_function(), 4);
    assert_eq!(rx_interrupt_mask(), 0x50);
    assert_eq!(rx_interrupt_clear(), 0x50);
    assert_eq!((UART_IBRD, UART_FBRD), (26, 3));
}

#[test]
fn baud_divisors_match_48mhz_115200() {
    let clock = 48_000_000u64;
    let div16 = 16 * 115_200u64;
    assert_eq!(clock / div16, UART_IBRD as u64);
    assert_eq!(((clock % div16) * 128 + div16) / (2 * div16), UART_FBRD as u64);
}

#[test]
fn pad_configuration_changes_only_its_bits() {
    assert_eq!(pad_tx_config(0xFF), 0x7F);
    assert_eq!(pad_tx_config(0x00), 0x00);
    assert_eq!(pad_rx_config(0x00), 0x48);
    assert_eq!(pad_rx_config(0x81), 0xC9);
}

#[test]
fn receive_interrupt_pending_on_rx_or_timeout() {
    assert!(rx_interrupt_pending(0x10));
    assert!(rx_interrupt_pending(0x40));
    assert!(!rx_interrupt_pending(0x20));
    assert!(!rx_interrupt_pending(0));
}

#[test]
fn ack_register_address() {
    assert_eq!(rx_irq_ack_addr(), 0x1f_0010_806C);
}
