use vstd::prelude::*;
use crate::spinlock::Spinlock;
use crate::bits::{u8_get_bit, u8_set_bit, u8_set_bits, u8_field_mask, i32_get_bits};

verus! {

/// Parity settings of a serial line.
pub enum UartParity {
    NoParity,
    Even,
    EvenSticky,
    Odd,
    OddSticky,
}

/// The three-bit parity field of a 16550 line control register.
pub open spec fn parity_field(parity: UartParity) -> u8 {
    match parity {
        UartParity::NoParity => 0b000,
        UartParity::Even => 0b011,
        UartParity::EvenSticky => 0b111,
        UartParity::Odd => 0b001,
        UartParity::OddSticky => 0b101,
    }
}

/// `x` brought into `lo..=hi`.
pub open spec fn clamp_u8(x: u8, lo: u8, hi: u8) -> u8 {
    if x < lo {
        lo
    } else if x > hi {
        hi
    } else {
        x
    }
}

/// The line control byte that `line_control` computes: the data-bit count
/// (brought into 5..=8), bit 2 for two stop bits (the count brought into
/// 1..=2), and the parity field in bits 3..=5, which replaces those bits.
pub open spec fn line_control_byte(parity: UartParity, data_bits: u8, stop_bits: u8) -> u8 {
    let d = clamp_u8(data_bits, 5, 8);
    let s = if clamp_u8(stop_bits, 1, 2) == 2 {
        d | 0b100
    } else {
        d
    };
    (s & 0b1100_0111) | (parity_field(parity) << 3u8)
}

/// The 16-bit divisor latch value for a baud rate: the clock divided by
/// sixteen times the rate, truncated to 16 bits.
pub open spec fn divisor_latch(baud_hz: u32, uart_clock_hz: u32) -> u16 {
    (uart_clock_hz as int / (baud_hz as int * 16)) as u16
}

/// The line control byte of a 16550 UART for the given settings.
pub fn line_control(parity: UartParity, data_bits: u8, stop_bits: u8) -> (r: u8)
    ensures
        r == line_control_byte(parity, data_bits, stop_bits),
{
    let mut data_bits = data_bits;
    let mut stop_bits = stop_bits;
    if data_bits < 5 {
        data_bits = 5;
    } else if data_bits > 8 {
        data_bits = 8;
    }
    if stop_bits < 1 {
        stop_bits = 1;
    } else if stop_bits > 2 {
        stop_bits = 2;
    }
    let mut lcr = data_bits;
    if stop_bits == 2 {
        lcr = u8_set_bit(lcr, 2, true);
        assert(lcr == data_bits | 0b100) by (bit_vector)
            requires
                lcr == data_bits | (1u8 << 2u8),
        ;
    }
    let field: u8 = match parity {
        UartParity::NoParity => 0b000,
        UartParity::Even => 0b011,
        UartParity::EvenSticky => 0b111,
        UartParity::Odd => 0b001,
        UartParity::OddSticky => 0b101,
    };
    assert((field << 5u8) >> 5u8 == field) by (bit_vector)
        requires
            field < 8,
    ;
    let before = lcr;
    lcr = u8_set_bits(lcr, 3, 5, field);
    assert(lcr == (before & 0b1100_0111) | (field << 3u8)) by (bit_vector)
        requires
            lcr == (before & !u8_field_mask(3, 5)) | (field << 3u8),
    ;
    lcr
}

/// The line control byte with the divisor latch access bit (bit 7) turned on
/// or off.
pub fn with_divisor_latch(lcr: u8, on: bool) -> (r: u8)
    ensures
        on ==> r == lcr | 0x80,
        !on ==> r == lcr & 0x7F,
{
    let r = u8_set_bit(lcr, 7, on);
    assert(r == (if on {
        lcr | 0x80
    } else {
        lcr & 0x7F
    })) by (bit_vector)
        requires
            r == (if on {
                lcr | (1u8 << 7u8)
            } else {
                lcr & !(1u8 << 7u8)
            }),
    ;
    r
}

/// The two bytes of the 16550 divisor latch, most significant first, for a
/// baud rate and a UART clock.
pub fn divisor_latch_bytes(baud_hz: u32, uart_clock_hz: u32) -> (r: (u8, u8))
    requires
        0 < baud_hz,
        baud_hz * 16 <= u32::MAX,
    ensures
        r.0 == (divisor_latch(baud_hz, uart_clock_hz) / 256) as u8,
        r.1 == (divisor_latch(baud_hz, uart_clock_hz) % 256) as u8,
{
    let divisor: u16 = (uart_clock_hz / (baud_hz * 16)) as u16;
    let divisor_lsb: u8 = (divisor & 0x00FF) as u8;
    let divisor_msb: u8 = ((divisor & 0xFF00) >> 8) as u8;
    assert(divisor_lsb == divisor % 256 && divisor_msb == divisor / 256) by (bit_vector)
        requires
            divisor_lsb == (divisor & 0x00FF) as u8,
            divisor_msb == ((divisor & 0xFF00) >> 8) as u8,
    ;
    (divisor_msb, divisor_lsb)
}

/// The baud rate that the 16550 divisor latch bytes give at a UART clock.
pub fn baud_from_divisor_latch(msb: u8, lsb: u8, uart_clock_hz: u32) -> (r: u32)
    requires
        msb != 0 || lsb != 0,
    ensures
        r == (uart_clock_hz as int / (msb as int * 256 + lsb as int)) / 16,
{
    let divisor: u32 = ((msb as u32) << 8) | (lsb as u32);
    assert(divisor == msb as u32 * 256 + lsb as u32) by (bit_vector)
        requires
            divisor == ((msb as u32) << 8u32) | (lsb as u32),
    ;
    (uart_clock_hz / divisor) / 16
}

/// Whether a 16550 line status byte lets a byte be written to the transmit
/// holding register (bit 5).
pub fn transmit_ready(lsr: u8) -> (r: bool)
    ensures
        r == (lsr & 0x20 != 0),
{
    let r = u8_get_bit(lsr, 5);
    assert(r == (lsr & 0x20 != 0)) by (bit_vector)
        requires
            r == (lsr & (1u8 << 5u8) != 0),
    ;
    r
}

/// Whether `get_maybe` of a 16550 reads the receive buffer after this line
/// status byte: it does when bit 0 is clear.
pub fn receive_reads_buffer(lsr: u8) -> (r: bool)
    ensures
        r == (lsr & 0x01 == 0),
{
    let set = u8_get_bit(lsr, 0);
    assert(set == (lsr & 0x01 != 0)) by (bit_vector)
        requires
            set == (lsr & (1u8 << 0u8) != 0),
    ;
    !set
}

/// The byte that a SiFive receive data word holds: none when the word is
/// negative (the empty flag, bit 31, is set), else its low eight bits.
pub fn sifive_received(rxdata: i32) -> (r: Option<u8>)
    ensures
        rxdata < 0 ==> r.is_none(),
        rxdata >= 0 ==> r == Some(rxdata as u8),
{
    if rxdata < 0 {
        None
    } else {
        let bits = i32_get_bits(rxdata, 0, 7);
        assert((bits as u8) == (rxdata as u8)) by (bit_vector)
            requires
                bits == ((rxdata << 24i32) >> 24i32) >> 0i32,
        ;
        Some(bits as u8)
    }
}

/// Whether a SiFive transmit `fetch_or` has finished: the prior transmit data
/// word is not zero.
pub fn sifive_put_done(prior_txdata: i32) -> (r: bool)
    ensures
        r == (prior_txdata != 0),
{
    prior_txdata != 0
}

/// Whether the SiFive transmit control gets two stop bits (bit 1 set): the
/// stop-bit count, brought into 1..=2, is 2.
pub fn sifive_two_stop_bits(stop_bits: u8) -> (r: bool)
    ensures
        r == (clamp_u8(stop_bits, 1, 2) == 2),
{
    let mut stop_bits = stop_bits;
    if stop_bits < 1 {
        stop_bits = 1;
    } else if stop_bits > 2 {
        stop_bits = 2;
    }
    stop_bits == 2
}

/// The SiFive clock divisor for a baud rate: none for a rate of zero, else
/// the clock divided by the rate, at least 16 (the receiver oversamples).
pub fn sifive_divisor(baud_hz: u32, uart_clock_hz: u32) -> (r: Option<u32>)
    ensures
        baud_hz == 0 ==> r.is_none(),
        baud_hz != 0 ==> r == Some(
            if uart_clock_hz / baud_hz < 16 {
                16
            } else {
                uart_clock_hz / baud_hz
            },
        ),
{
    if baud_hz == 0 {
        return None;
    }
    let mut divisor = uart_clock_hz / baud_hz;
    if divisor < 16 {
        divisor = 16;
    }
    Some(divisor)
}

/// The SiFive divisor register with its 20-bit divisor field replaced and
/// the reserved bits above it kept.
pub fn sifive_div_register(divreg: u32, divisor: u32) -> (r: u32)
    ensures
        r == (divreg & 0xFFF0_0000) | (divisor & 0x000F_FFFF),
{
    (divreg & 0xFFF0_0000) | (divisor & 0x000F_FFFF)
}

/// The baud rate that a SiFive divisor register gives at a UART clock: the
/// clock divided by the low 16 bits of the register, or 0 when those are 0.
pub fn sifive_baud_rate(divreg: u32, uart_clock_hz: u32) -> (r: u32)
    ensures
        (divreg & 0xFFFF) == 0 ==> r == 0,
        (divreg & 0xFFFF) != 0 ==> r == uart_clock_hz / (divreg & 0xFFFF),
{
    let divisor = divreg & 0x0000FFFF;
    if divisor == 0 {
        return 0;
    }
    uart_clock_hz / divisor
}

/// A SiFive UART: the base address of its memory-mapped registers.
pub struct SifiveUart {
    base_address: usize,
}

impl SifiveUart {
    pub closed spec fn base_address(&self) -> int {
        self.base_address as int
    }

    /// Every register address fits in a `usize`.
    pub open spec fn wf(&self) -> bool {
        0 <= self.base_address() <= usize::MAX - 0x18
    }

    /// A handle on the UART at `base_address`. The caller vouches that the
    /// registers are mapped there for the life of the program.
    pub fn new(base_address: usize) -> (r: SifiveUart)
        requires
            base_address <= usize::MAX - 0x18,
        ensures
            r.wf(),
            r.base_address() == base_address,
    {
        SifiveUart { base_address }
    }

    /// The address of the transmit data register.
    pub fn txdata(&self) -> (r: usize)
        requires
            self.wf(),
        ensures
            r == self.base_address() + 0x00,
    {
        self.base_address + 0x00
    }

    /// The address of the receive data register.
    pub fn rxdata(&self) -> (r: usize)
        requires
            self.wf(),
        ensures
            r == self.base_address() + 0x04,
    {
        self.base_address + 0x04
    }

    /// The address of the transmit control register.
    pub fn txctrl(&self) -> (r: usize)
        requires
            self.wf(),
        ensures
            r == self.base_address() + 0x08,
    {
        self.base_address + 0x08
    }

    /// The address of the receive control register.
    pub fn rxctrl(&self) -> (r: usize)
        requires
            self.wf(),
        ensures
            r == self.base_address() + 0x0c,
    {
        self.base_address + 0x0c
    }

    /// The address of the interrupt enable register.
    pub fn ie(&self) -> (r: usize)
        requires
            self.wf(),
        ensures
            r == self.base_address() + 0x10,
    {
        self.base_address + 0x10
    }

    /// The address of the interrupt pending register.
    pub fn ip(&self) -> (r: usize)
        requires
            self.wf(),
        ensures
            r == self.base_address() + 0x14,
    {
        self.base_address + 0x14
    }

    /// The address of the baud rate divisor register.
    pub fn div(&self) -> (r: usize)
        requires
            self.wf(),
        ensures
            r == self.base_address() + 0x18,
    {
        self.base_address + 0x18
    }
}

/// The registers of a 16550 UART, used under the lock of `Uart16550`.
pub struct InnerUart16550 {
    base_address: usize,
}

impl InnerUart16550 {
    pub closed spec fn base_address(&self) -> int {
        self.base_address as int
    }

    /// Every register address fits in a `usize`.
    pub open spec fn wf(&self) -> bool {
        0 <= self.base_address() <= usize::MAX - 0x06
    }

    pub fn new(base_address: usize) -> (r: InnerUart16550)
        requires
            base_address <= usize::MAX - 0x06,
        ensures
            r.wf(),
            r.base_address() == base_address,
    {
        InnerUart16550 { base_address }
    }

    /// The address of the receive buffer (read) register.
    pub fn rbr(&self) -> (r: usize)
        requires
            self.wf(),
        ensures
            r == self.base_address() + 0x00,
    {
        self.base_address + 0x00
    }

    /// The address of the transmit holding (write) register.
    pub fn thr(&self) -> (r: usize)
        requires
            self.wf(),
        ensures
            r == self.base_address() + 0x00,
    {
        self.base_address + 0x00
    }

    /// The address of the interrupt enable register.
    pub fn ier(&self) -> (r: usize)
        requires
            self.wf(),
        ensures
            r == self.base_address() + 0x01,
    {
        self.base_address + 0x01
    }

    /// The address of the interrupt identification (read) register.
    pub fn iir(&self) -> (r: usize)
        requires
            self.wf(),
        ensures
            r == self.base_address() + 0x02,
    {
        self.base_address + 0x02
    }

    /// The address of the FIFO control (write) register.
    pub fn fcr(&self) -> (r: usize)
        requires
            self.wf(),
        ensures
            r == self.base_address() + 0x02,
    {
        self.base_address + 0x02
    }

    /// The address of the line control register.
    pub fn lcr(&self) -> (r: usize)
        requires
            self.wf(),
        ensures
            r == self.base_address() + 0x03,
    {
        self.base_address + 0x03
    }

    /// The address of the modem control register.
    pub fn mcr(&self) -> (r: usize)
        requires
            self.wf(),
        ensures
            r == self.base_address() + 0x04,
    {
        self.base_address + 0x04
    }

    /// The address of the line status register.
    pub fn lsr(&self) -> (r: usize)
        requires
            self.wf(),
        ensures
            r == self.base_address() + 0x05,
    {
        self.base_address + 0x05
    }

    /// The address of the modem status register.
    pub fn msr(&self) -> (r: usize)
        requires
            self.wf(),
        ensures
            r == self.base_address() + 0x06,
    {
        self.base_address + 0x06
    }

    /// The address of the divisor latch, low byte (latch on) register.
    pub fn dlr_lsb(&self) -> (r: usize)
        requires
            self.wf(),
        ensures
            r == self.base_address() + 0x00,
    {
        self.base_address + 0x00
    }

    /// The address of the divisor latch, high byte (latch on) register.
    pub fn dlr_msb(&self) -> (r: usize)
        requires
            self.wf(),
        ensures
            r == self.base_address() + 0x01,
    {
        self.base_address + 0x01
    }
}

/// A 16550 UART: its registers behind a spinlock, so that one context at a
/// time drives them.
pub struct Uart16550 {
    pub inner: Spinlock<InnerUart16550>,
}

impl Uart16550 {
    /// A handle on the UART at `base_address`, unlocked. The caller vouches
    /// that the registers are mapped there for the life of the program.
    pub fn new(base_address: usize) -> (r: Uart16550)
        requires
            base_address <= usize::MAX - 0x06,
        ensures
            r.inner.wf(),
            !r.inner.held(),
            r.inner.payload().wf(),
            r.inner.payload().base_address() == base_address,
    {
        Uart16550 { inner: Spinlock::new(InnerUart16550::new(base_address)) }
    }
}

} // verus!
