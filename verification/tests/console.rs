use rpi5_kernel::drivers::uart::{echo_rx, write_str};
use rpi5_kernel::uart::{console_print, print_dec, print_hex};

fn text(out: &[char]) -> String {
    out.iter().collect()
}

#[test]
fn hex_of_26_is_1a() {
    let mut out = Vec::new();
    print_hex(&mut out, 0x1A);
    assert_eq!(text(&out), "1A");
}

#[test]
fn hex_of_zero_is_0() {
    let mut out = Vec::new();
    print_hex(&mut out, 0);
    assert_eq!(text(&out), "0");
}

#[test]
fn hex_of_max_and_of_a_power_of_sixteen() {
    let mut out = Vec::new();
    print_hex(&mut out, u64::MAX);
    assert_eq!(text(&out), "FFFFFFFFFFFFFFFF");
    let mut out = Vec::new();
    print_hex(&mut out, 0x1000);
    assert_eq!(text(&out), "1000");
    let mut out = Vec::new();
    print_hex(&mut out, 0xDEAD_BEEF);
    assert_eq!(text(&out), "DEADBEEF");
}

#[test]
fn dec_of_42_is_42() {
    let mut out = Vec::new();
    print_dec(&mut out, 42);
    assert_eq!(text(&out), "42");
}

#[test]
fn dec_of_zero_and_of_max() {
    let mut out = Vec::new();
    print_dec(&mut out, 0);
    assert_eq!(text(&out), "0");
    let mut out = Vec::new();
    print_dec(&mut out, u64::MAX);
    assert_eq!(text(&out), "18446744073709551615");
    let mut out = Vec::new();
    print_dec(&mut out, 100);
    assert_eq!(text(&out), "100");
}

#[test]
fn printing_appends_to_what_is_queued() {
    let mut out = Vec::new();
    console_print(&mut out, "ID 0x");
    print_hex(&mut out, 0x1DE4);
    console_print(&mut out, " vector ");
    print_dec(&mut out, 25);
    assert_eq!(text(&out), "ID 0x1DE4 vector 25");
}

#[test]
fn console_print_sends_text_unchanged() {
    let mut out = Vec::new();
    console_print(&mut out, "a\nb\u{e9}");
    assert_eq!(text(&out), "a\nb\u{e9}");
}

#[test]
fn write_str_sends_crlf_for_newline() {
    let mut out = Vec::new();
    write_str(&mut out, "\nline\n");
    assert_eq!(text(&out), "\r\nline\r\n");
}

#[test]
fn write_str_twice_equals_write_of_concatenation() {
    let mut a = Vec::new();
    write_str(&mut a, "one\ntw");
    write_str(&mut a, "o\n");
    let mut b = Vec::new();
    write_str(&mut b, "one\ntwo\n");
    assert_eq!(a, b);
}

#[test]
fn echo_of_return_is_crlf_and_of_other_bytes_is_the_byte() {
    let mut out = Vec::new();
    echo_rx(&mut out, 0x0D);
    echo_rx(&mut out, 0x141);
    echo_rx(&mut out, 0xE9);
    assert_eq!(out, vec!['\r', '\n', 'A', '\u{e9}']);
}
