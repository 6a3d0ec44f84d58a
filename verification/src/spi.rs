//! SPI buses driven through `/dev/spidevB.S`.
//!
//! Configuration travels through ioctl calls whose request codes this
//! module builds, and whose payloads are scalars or the fixed-layout
//! transfer descriptor.  The mode byte packs clock phase and polarity in
//! its low two bits next to unrelated flags (chip-select polarity, wire
//! count), so partial updates must preserve every bit they do not own;
//! the functions here make that guarantee explicit.

use crate::ioctl::request_code;
use crate::ioctl::request_code_read;
use crate::ioctl::request_code_write;
use crate::ioctl::DIR_READ;
use crate::ioctl::DIR_WRITE;
use crate::sysfs::ascii_bytes;
use crate::sysfs::ascii_vec;
use crate::sysfs::append_ascii;
use crate::sysfs::append_decimal;
use crate::sysfs::decimal_digits;
use vstd::prelude::*;

verus! {

/// Clock phase flag of the mode byte.
pub const SPI_CPHA: u8 = 0x01;

/// Clock polarity flag of the mode byte.
pub const SPI_CPOL: u8 = 0x02;

/// Chip-select-active-high flag of the mode byte.
pub const SPI_CS_HIGH: u8 = 0x04;

/// Least-significant-bit-first flag of the mode byte.
pub const SPI_LSB_FIRST: u8 = 0x08;

/// Shared SI/SO signal flag of the mode byte.
pub const SPI_3WIRE: u8 = 0x10;

/// Loopback flag of the mode byte.
pub const SPI_LOOP: u8 = 0x20;

/// No-chip-select flag of the mode byte.
pub const SPI_NO_CS: u8 = 0x40;

/// Slave-ready flag of the mode byte.
pub const SPI_READY: u8 = 0x80;

/// Type tag of every spidev request code: ASCII `'k'`.
pub const SPI_IOC_MAGIC: u8 = 0x6b;

/// Operation numbers of the spidev protocol.
pub const SPI_IOC_NR_TRANSFER: u8 = 0;

pub const SPI_IOC_NR_MODE: u8 = 1;

pub const SPI_IOC_NR_LSB_FIRST: u8 = 2;

pub const SPI_IOC_NR_BITS_PER_WORD: u8 = 3;

pub const SPI_IOC_NR_MAX_SPEED_HZ: u8 = 4;

/// Byte size of the kernel's fixed-layout transfer descriptor.
pub const SPI_IOC_TRANSFER_SIZE: u64 = 32;

/// Clock mode: the four combinations of clock polarity and phase,
/// occupying the low two bits of the mode byte.
#[derive(Debug, Copy, Clone, PartialEq, Eq, Structural)]
pub enum Mode {
    Mode0,
    Mode1,
    Mode2,
    Mode3,
}

/// Order in which word bits go on the wire.
#[derive(Debug, Copy, Clone, PartialEq, Eq, Structural)]
pub enum BitOrder {
    MsbFirst,
    LsbFirst,
}

/// Slave-select polarity.
#[derive(Debug, Copy, Clone, PartialEq, Eq, Structural)]
pub enum Polarity {
    ActiveLow,
    ActiveHigh,
}

/// The two mode bits (CPOL, CPHA) a clock mode occupies.
pub open spec fn mode_bits(mode: Mode) -> u8 {
    match mode {
        Mode::Mode0 => 0,
        Mode::Mode1 => 1,
        Mode::Mode2 => 2,
        Mode::Mode3 => 3,
    }
}

/// The clock mode the low two bits of a mode byte denote.
pub open spec fn mode_from_bits_spec(bits: u8) -> Mode {
    if bits & 0x03 == 1 {
        Mode::Mode1
    } else if bits & 0x03 == 2 {
        Mode::Mode2
    } else if bits & 0x03 == 3 {
        Mode::Mode3
    } else {
        Mode::Mode0
    }
}

impl Mode {
    /// The numeric value of the two mode bits.
    pub fn bits(self) -> (b: u8)
        ensures
            b == mode_bits(self),
            b < 4,
    {
        match self {
            Mode::Mode0 => 0,
            Mode::Mode1 => 1,
            Mode::Mode2 => 2,
            Mode::Mode3 => 3,
        }
    }
}

/// Decodes the clock mode from a mode byte, ignoring the other flags.
pub fn mode_from_bits(bits: u8) -> (mode: Mode)
    ensures
        mode == mode_from_bits_spec(bits),
        mode_bits(mode) == bits & 0x03,
{
    let low = bits & 0x03;
    proof {
        assert(bits & 0x03 < 4) by (bit_vector);
    }
    if low == 1 {
        Mode::Mode1
    } else if low == 2 {
        Mode::Mode2
    } else if low == 3 {
        Mode::Mode3
    } else {
        Mode::Mode0
    }
}

/// Replaces the two mode bits of a mode byte, leaving every other flag
/// (chip-select polarity, wire count, and the rest) untouched.
pub fn apply_mode(prior: u8, mode: Mode) -> (r: u8)
    ensures
        r & 0x03 == mode_bits(mode),
        r & 0xfc == prior & 0xfc,
        r == (prior & 0xfc) | mode_bits(mode),
{
    let b = mode.bits();
    let r = (prior & 0xfc) | b;
    proof {
        assert(((prior & 0xfc) | b) & 0x03 == b && ((prior & 0xfc) | b) & 0xfc == prior & 0xfc)
            by (bit_vector)
            requires
                b < 4,
        ;
    }
    r
}

/// The slave-select polarity a mode byte denotes.
pub open spec fn ss_polarity_spec(mode: u8) -> Polarity {
    if mode & SPI_CS_HIGH == 0 {
        Polarity::ActiveLow
    } else {
        Polarity::ActiveHigh
    }
}

/// Decodes the slave-select polarity from a mode byte.
pub fn ss_polarity_from_mode(mode: u8) -> (polarity: Polarity)
    ensures
        polarity == ss_polarity_spec(mode),
{
    if mode & SPI_CS_HIGH == 0 {
        Polarity::ActiveLow
    } else {
        Polarity::ActiveHigh
    }
}

/// Sets or clears the chip-select-active-high flag of a mode byte,
/// leaving every other bit untouched.
pub fn apply_ss_polarity(prior: u8, polarity: Polarity) -> (r: u8)
    ensures
        ss_polarity_spec(r) == polarity,
        r & 0xfb == prior & 0xfb,
{
    match polarity {
        Polarity::ActiveHigh => {
            let r = prior | 0x04;
            proof {
                assert((prior | 0x04) & 0x04 != 0 && (prior | 0x04) & 0xfb == prior & 0xfb)
                    by (bit_vector);
            }
            r
        },
        Polarity::ActiveLow => {
            let r = prior & 0xfb;
            proof {
                assert((prior & 0xfb) & 0x04 == 0 && (prior & 0xfb) & 0xfb == prior & 0xfb)
                    by (bit_vector);
            }
            r
        },
    }
}

/// The wire value of a bit order (the `lsb_first` payload byte).
pub open spec fn bit_order_bits(order: BitOrder) -> u8 {
    match order {
        BitOrder::MsbFirst => 0,
        BitOrder::LsbFirst => 1,
    }
}

/// The bit order an `lsb_first` payload byte denotes: zero means most
/// significant bit first, anything else least significant bit first.
pub open spec fn bit_order_from_bits_spec(bits: u8) -> BitOrder {
    if bits == 0 {
        BitOrder::MsbFirst
    } else {
        BitOrder::LsbFirst
    }
}

impl BitOrder {
    /// The `lsb_first` payload byte for this order.
    pub fn bits(self) -> (b: u8)
        ensures
            b == bit_order_bits(self),
    {
        match self {
            BitOrder::MsbFirst => 0,
            BitOrder::LsbFirst => 1,
        }
    }
}

/// Decodes an `lsb_first` payload byte.
pub fn bit_order_from_bits(bits: u8) -> (order: BitOrder)
    ensures
        order == bit_order_from_bits_spec(bits),
{
    if bits == 0 {
        BitOrder::MsbFirst
    } else {
        BitOrder::LsbFirst
    }
}

/// The request code that reads the mode byte.
pub fn rd_mode_request() -> (code: u64)
    ensures
        code == request_code(DIR_READ, SPI_IOC_MAGIC as u64, SPI_IOC_NR_MODE as u64, 1),
{
    request_code_read(SPI_IOC_MAGIC, SPI_IOC_NR_MODE, 1)
}

/// The request code that writes the mode byte.
pub fn wr_mode_request() -> (code: u64)
    ensures
        code == request_code(DIR_WRITE, SPI_IOC_MAGIC as u64, SPI_IOC_NR_MODE as u64, 1),
{
    request_code_write(SPI_IOC_MAGIC, SPI_IOC_NR_MODE, 1)
}

/// The request code that reads the `lsb_first` byte.
pub fn rd_lsb_first_request() -> (code: u64)
    ensures
        code == request_code(DIR_READ, SPI_IOC_MAGIC as u64, SPI_IOC_NR_LSB_FIRST as u64, 1),
{
    request_code_read(SPI_IOC_MAGIC, SPI_IOC_NR_LSB_FIRST, 1)
}

/// The request code that writes the `lsb_first` byte.
pub fn wr_lsb_first_request() -> (code: u64)
    ensures
        code == request_code(DIR_WRITE, SPI_IOC_MAGIC as u64, SPI_IOC_NR_LSB_FIRST as u64, 1),
{
    request_code_write(SPI_IOC_MAGIC, SPI_IOC_NR_LSB_FIRST, 1)
}

/// The request code that reads the word size.
pub fn rd_bits_per_word_request() -> (code: u64)
    ensures
        code == request_code(DIR_READ, SPI_IOC_MAGIC as u64, SPI_IOC_NR_BITS_PER_WORD as u64, 1),
{
    request_code_read(SPI_IOC_MAGIC, SPI_IOC_NR_BITS_PER_WORD, 1)
}

/// The request code that writes the word size.
pub fn wr_bits_per_word_request() -> (code: u64)
    ensures
        code == request_code(DIR_WRITE, SPI_IOC_MAGIC as u64, SPI_IOC_NR_BITS_PER_WORD as u64, 1),
{
    request_code_write(SPI_IOC_MAGIC, SPI_IOC_NR_BITS_PER_WORD, 1)
}

/// The request code that reads the clock speed (a 4-byte scalar).
pub fn rd_max_speed_request() -> (code: u64)
    ensures
        code == request_code(DIR_READ, SPI_IOC_MAGIC as u64, SPI_IOC_NR_MAX_SPEED_HZ as u64, 4),
{
    request_code_read(SPI_IOC_MAGIC, SPI_IOC_NR_MAX_SPEED_HZ, 4)
}

/// The request code that writes the clock speed (a 4-byte scalar).
pub fn wr_max_speed_request() -> (code: u64)
    ensures
        code == request_code(DIR_WRITE, SPI_IOC_MAGIC as u64, SPI_IOC_NR_MAX_SPEED_HZ as u64, 4),
{
    request_code_write(SPI_IOC_MAGIC, SPI_IOC_NR_MAX_SPEED_HZ, 4)
}

/// The request code that submits `count` transfer descriptors in one
/// atomic bus transaction.  The payload size is the exact byte size of
/// the descriptor array; the 14-bit size field caps how many descriptors
/// one call can carry.
pub fn transfer_request(count: usize) -> (code: u64)
    requires
        count * SPI_IOC_TRANSFER_SIZE < 0x4000,
    ensures
        code == request_code(
            DIR_WRITE,
            SPI_IOC_MAGIC as u64,
            SPI_IOC_NR_TRANSFER as u64,
            ((count as u64) * SPI_IOC_TRANSFER_SIZE) as u64,
        ),
{
    request_code_write(SPI_IOC_MAGIC, SPI_IOC_NR_TRANSFER, count * 32)
}

/// The device node of bus `bus`, slave select `slave`:
/// `/dev/spidevB.S`.
pub open spec fn device_path_spec(bus: u8, slave: u8) -> Seq<u8> {
    ascii_bytes("/dev/spidev"@) + decimal_digits(bus as nat) + ascii_bytes("."@) + decimal_digits(
        slave as nat,
    )
}

/// Builds the device-node path for a bus and slave-select pair.
pub fn device_path(bus: u8, slave: u8) -> (v: Vec<u8>)
    ensures
        v@ == device_path_spec(bus, slave),
{
    proof {
        reveal_strlit("/dev/spidev");
        reveal_strlit(".");
    }
    let mut v = ascii_vec("/dev/spidev");
    append_decimal(&mut v, bus as u64);
    append_ascii(&mut v, ".");
    append_decimal(&mut v, slave as u64);
    proof {
        assert(v@ =~= device_path_spec(bus, slave));
    }
    v
}

/// The logical content of one transfer descriptor: which buffers take
/// part, the shared byte count, and the optional per-transfer overrides
/// (zero means "use the bus-wide setting").
///
/// The kernel-facing layout additionally carries the two buffer
/// addresses; the embedding application fills those in at the moment of
/// the call, from buffers it keeps valid and exclusively borrowed for
/// exactly that call.  Nothing here copies or owns buffer memory.
#[allow(non_camel_case_types)]
#[derive(Debug, Copy, Clone, PartialEq, Eq, Structural)]
pub struct spi_ioc_transfer {
    pub has_tx: bool,
    pub has_rx: bool,
    pub len: u32,
    pub speed_hz: u32,
    pub delay_usecs: u16,
    pub bits_per_word: u8,
    pub cs_change: u8,
}

impl spi_ioc_transfer {
    /// A receive-only descriptor: the kernel fills `buff`, and the
    /// length is exactly the buffer's length.
    pub fn read(buff: &[u8]) -> (t: spi_ioc_transfer)
        requires
            buff@.len() <= u32::MAX,
        ensures
            !t.has_tx,
            t.has_rx,
            t.len == buff@.len(),
            t.speed_hz == 0 && t.delay_usecs == 0 && t.bits_per_word == 0 && t.cs_change == 0,
    {
        spi_ioc_transfer {
            has_tx: false,
            has_rx: true,
            len: buff.len() as u32,
            speed_hz: 0,
            delay_usecs: 0,
            bits_per_word: 0,
            cs_change: 0,
        }
    }

    /// A transmit-only descriptor: the kernel consumes `buff`, and the
    /// length is exactly the buffer's length.
    pub fn write(buff: &[u8]) -> (t: spi_ioc_transfer)
        requires
            buff@.len() <= u32::MAX,
        ensures
            t.has_tx,
            !t.has_rx,
            t.len == buff@.len(),
            t.speed_hz == 0 && t.delay_usecs == 0 && t.bits_per_word == 0 && t.cs_change == 0,
    {
        spi_ioc_transfer {
            has_tx: true,
            has_rx: false,
            len: buff.len() as u32,
            speed_hz: 0,
            delay_usecs: 0,
            bits_per_word: 0,
            cs_change: 0,
        }
    }

    /// A full-duplex descriptor: the kernel transmits `tx_buf` while
    /// filling `rx_buf` in lockstep, so the two buffers must have the
    /// same length.  A caller that cannot establish that uses
    /// [`spi_ioc_transfer::try_read_write`], which refuses mismatched
    /// lengths instead of constructing a descriptor.
    pub fn read_write(tx_buf: &[u8], rx_buf: &[u8]) -> (t: spi_ioc_transfer)
        requires
            tx_buf@.len() == rx_buf@.len(),
            tx_buf@.len() <= u32::MAX,
        ensures
            t.has_tx,
            t.has_rx,
            t.len == tx_buf@.len(),
            t.speed_hz == 0 && t.delay_usecs == 0 && t.bits_per_word == 0 && t.cs_change == 0,
    {
        spi_ioc_transfer {
            has_tx: true,
            has_rx: true,
            len: tx_buf.len() as u32,
            speed_hz: 0,
            delay_usecs: 0,
            bits_per_word: 0,
            cs_change: 0,
        }
    }

    /// The checked form of [`spi_ioc_transfer::read_write`]: yields a
    /// descriptor exactly when the two buffers have the same length (and
    /// that length fits the descriptor's 32-bit count), and nothing
    /// otherwise.
    pub fn try_read_write(tx_buf: &[u8], rx_buf: &[u8]) -> (r: Option<spi_ioc_transfer>)
        ensures
            (r is Some) == (tx_buf@.len() == rx_buf@.len() && tx_buf@.len() <= u32::MAX),
            r matches Some(t) ==> t.has_tx && t.has_rx && t.len == tx_buf@.len() && t.speed_hz == 0
                && t.delay_usecs == 0 && t.bits_per_word == 0 && t.cs_change == 0,
    {
        if tx_buf.len() != rx_buf.len() {
            return None;
        }
        if tx_buf.len() > 0xffff_ffff {
            return None;
        }
        Some(Self::read_write(tx_buf, rx_buf))
    }
}

} // verus!
