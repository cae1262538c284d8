use kernel_prims::uart::{
    baud_from_divisor_latch, divisor_latch_bytes, line_control, receive_reads_buffer,
    sifive_baud_rate, sifive_div_register, sifive_divisor, sifive_put_done, sifive_received,
    sifive_two_stop_bits, transmit_ready, with_divisor_latch,
};
use kernel_prims::{SifiveUart, Uart16550, UartParity};

#[test]
fn line_control_for_common_settings() {
    assert_eq!(line_control(UartParity::NoParity, 8, 1), 0x00);
    assert_eq!(line_control(UartParity::Even, 8, 1), 0x18);
    assert_eq!(line_control(UartParity::Odd, 5, 2), 0x0D);
    assert_eq!(line_control(UartParity::NoParity, 6, 2), 0x06);
}

#[test]
fn line_control_brings_counts_into_range() {
    assert_eq!(line_control(UartParity::OddSticky, 7, 3), 0x2F);
    assert_eq!(line_control(UartParity::EvenSticky, 0, 0), 0x3D);
    assert_eq!(line_control(UartParity::NoParity, 9, 1), 0x00);
    assert_eq!(line_control(UartParity::Odd, 6, 0), 0x0E);
}

#[test]
fn divisor_latch_bit() {
    assert_eq!(with_divisor_latch(0x03, true), 0x83);
    assert_eq!(with_divisor_latch(0x83, false), 0x03);
    assert_eq!(with_divisor_latch(0xFF, false), 0x7F);
    assert_eq!(with_divisor_latch(0x80, true), 0x80);
}

#[test]
fn divisor_latch_bytes_for_rates() {
    assert_eq!(divisor_latch_bytes(115200, 1_843_200), (0, 1));
    assert_eq!(divisor_latch_bytes(9600, 1_843_200), (0, 12));
    assert_eq!(divisor_latch_bytes(300, 100_000_000), (0x51, 0x61));
    // 250_000_000 truncated to 16 bits is 0xB280
    assert_eq!(divisor_latch_bytes(1, 4_000_000_000), (0xB2, 0x80));
}

#[test]
fn baud_rate_from_divisor_latch() {
    assert_eq!(baud_from_divisor_latch(0, 12, 1_843_200), 9600);
    assert_eq!(baud_from_divisor_latch(0x51, 0x61, 100_000_000), 300);
    assert_eq!(baud_from_divisor_latch(0, 1, 1_843_200), 115200);
}

#[test]
fn line_status_bits() {
    assert!(transmit_ready(0x20));
    assert!(transmit_ready(0x60));
    assert!(!transmit_ready(0xDF));
    assert!(receive_reads_buffer(0x00));
    assert!(receive_reads_buffer(0xFE));
    assert!(!receive_reads_buffer(0x01));
    assert!(!receive_reads_buffer(0x21));
}

#[test]
fn sifive_receive_word() {
    assert_eq!(sifive_received(-1), None);
    assert_eq!(sifive_received(i32::MIN), None);
    assert_eq!(sifive_received(0x41), Some(0x41));
    assert_eq!(sifive_received(0x1234), Some(0x34));
    assert_eq!(sifive_received(0x80), Some(0x80));
}

#[test]
fn sifive_transmit_and_stop_bits() {
    assert!(!sifive_put_done(0));
    assert!(sifive_put_done(5));
    assert!(sifive_put_done(i32::MIN));
    assert!(!sifive_two_stop_bits(0));
    assert!(!sifive_two_stop_bits(1));
    assert!(sifive_two_stop_bits(2));
    assert!(sifive_two_stop_bits(3));
}

#[test]
fn sifive_divisor_for_rates() {
    assert_eq!(sifive_divisor(0, 16_000_000), None);
    assert_eq!(sifive_divisor(115200, 16_000_000), Some(138));
    assert_eq!(sifive_divisor(1_000_000, 16_000_000), Some(16));
    assert_eq!(sifive_divisor(2_000_000, 16_000_000), Some(16));
}

#[test]
fn sifive_div_register_keeps_reserved_bits() {
    assert_eq!(sifive_div_register(0xFFFF_FFFF, 138), 0xFFF0_008A);
    assert_eq!(sifive_div_register(0x0012_3456, 0x0FFF_FFFF), 0x001F_FFFF);
}

#[test]
fn sifive_baud_rate_from_register() {
    assert_eq!(sifive_baud_rate(0x8A, 16_000_000), 115942);
    assert_eq!(sifive_baud_rate(0xFFFF_0000, 16_000_000), 0);
    assert_eq!(sifive_baud_rate(0xFFF0_0010, 16_000_000), 1_000_000);
}

#[test]
fn sifive_register_addresses() {
    let u = SifiveUart::new(0x1001_0000);
    assert_eq!(u.txdata(), 0x1001_0000);
    assert_eq!(u.rxdata(), 0x1001_0004);
    assert_eq!(u.txctrl(), 0x1001_0008);
    assert_eq!(u.rxctrl(), 0x1001_000C);
    assert_eq!(u.ie(), 0x1001_0010);
    assert_eq!(u.ip(), 0x1001_0014);
    assert_eq!(u.div(), 0x1001_0018);
}

#[test]
fn uart16550_registers_behind_lock() {
    let mut u = Uart16550::new(0x1000_0000);
    assert!(!u.inner.is_locked());
    let g = u.inner.lock();
    let regs = u.inner.data(&g);
    assert_eq!(regs.rbr(), 0x1000_0000);
    assert_eq!(regs.thr(), 0x1000_0000);
    assert_eq!(regs.ier(), 0x1000_0001);
    assert_eq!(regs.iir(), 0x1000_0002);
    assert_eq!(regs.fcr(), 0x1000_0002);
    assert_eq!(regs.lcr(), 0x1000_0003);
    assert_eq!(regs.mcr(), 0x1000_0004);
    assert_eq!(regs.lsr(), 0x1000_0005);
    assert_eq!(regs.msr(), 0x1000_0006);
    assert_eq!(regs.dlr_lsb(), 0x1000_0000);
    assert_eq!(regs.dlr_msb(), 0x1000_0001);
    u.inner.release(g);
    assert!(!u.inner.is_locked());
}
