//! I2C buses driven through `/dev/i2c-B`.
//!
//! The bus object tracks what the kernel has been told (slave address,
//! addressing width) and what the adapter reported it can do.  Every
//! configuration change is validated here, then handed to the embedding
//! application as a prepared [`IoctlCall`]; the combined write-then-read
//! transaction is encoded as a pair of segment descriptors for the
//! kernel's `I2C_RDWR` request.

use crate::ioctl::IoctlCall;
use crate::sysfs::ascii_bytes;
use crate::sysfs::ascii_vec;
use crate::sysfs::append_ascii;
use crate::sysfs::append_decimal;
use crate::sysfs::decimal_digits;
use crate::Error;
use vstd::prelude::*;

verus! {

/// Request codes of the i2c-dev protocol.
pub const I2C_RETRIES: u64 = 0x0701;

pub const I2C_TIMEOUT: u64 = 0x0702;

pub const I2C_SLAVE: u64 = 0x0703;

pub const I2C_TENBIT: u64 = 0x0704;

pub const I2C_FUNCS: u64 = 0x0705;

pub const I2C_SLAVE_FORCE: u64 = 0x0706;

pub const I2C_RDWR: u64 = 0x0707;

pub const I2C_PEC: u64 = 0x0708;

/// Feature bits of the capability bitmask the adapter reports.
pub const FUNC_I2C: u64 = 0x01;

pub const FUNC_10BIT_ADDR: u64 = 0x02;

pub const FUNC_PROTOCOL_MANGLING: u64 = 0x04;

pub const FUNC_SMBUS_PEC: u64 = 0x08;

pub const FUNC_NOSTART: u64 = 0x10;

pub const FUNC_SLAVE: u64 = 0x20;

/// Per-segment flags of a combined transaction.
pub const RDWR_FLAG_RD: u16 = 0x0001;

pub const RDWR_FLAG_TEN: u16 = 0x0010;

/// The feature bitmask an adapter reported when the bus was opened, as
/// named predicates.  The snapshot is taken once; a hot-swapped adapter
/// is only seen by reopening the bus.
#[derive(Debug, Copy, Clone, PartialEq, Eq, Structural)]
pub struct Capabilities {
    funcs: u64,
}

impl Capabilities {
    /// The raw bitmask.
    pub closed spec fn spec_funcs(self) -> u64 {
        self.funcs
    }

    /// Wraps the bitmask an `I2C_FUNCS` query returned.
    pub fn new(funcs: u64) -> (c: Capabilities)
        ensures
            c.spec_funcs() == funcs,
    {
        Capabilities { funcs }
    }

    /// Whether plain I2C transactions are supported.
    pub open spec fn spec_i2c(self) -> bool {
        self.spec_funcs() & FUNC_I2C != 0
    }

    pub fn i2c(self) -> (r: bool)
        ensures
            r == self.spec_i2c(),
    {
        (self.funcs & FUNC_I2C) > 0
    }

    /// Whether slave mode is supported.
    pub open spec fn spec_slave(self) -> bool {
        self.spec_funcs() & FUNC_SLAVE != 0
    }

    pub fn slave(self) -> (r: bool)
        ensures
            r == self.spec_slave(),
    {
        (self.funcs & FUNC_SLAVE) > 0
    }

    /// Whether 10-bit addresses are supported.
    pub open spec fn spec_addr_10bit(self) -> bool {
        self.spec_funcs() & FUNC_10BIT_ADDR != 0
    }

    pub fn addr_10bit(self) -> (r: bool)
        ensures
            r == self.spec_addr_10bit(),
    {
        (self.funcs & FUNC_10BIT_ADDR) > 0
    }

    /// Whether protocol mangling is supported.
    pub open spec fn spec_protocol_mangling(self) -> bool {
        self.spec_funcs() & FUNC_PROTOCOL_MANGLING != 0
    }

    pub fn protocol_mangling(self) -> (r: bool)
        ensures
            r == self.spec_protocol_mangling(),
    {
        (self.funcs & FUNC_PROTOCOL_MANGLING) > 0
    }

    /// Whether the NOSTART flag is supported.
    pub open spec fn spec_nostart(self) -> bool {
        self.spec_funcs() & FUNC_NOSTART != 0
    }

    pub fn nostart(self) -> (r: bool)
        ensures
            r == self.spec_nostart(),
    {
        (self.funcs & FUNC_NOSTART) > 0
    }

    /// Whether SMBus Packet Error Checking is supported.
    pub open spec fn spec_smbus_pec(self) -> bool {
        self.spec_funcs() & FUNC_SMBUS_PEC != 0
    }

    pub fn smbus_pec(self) -> (r: bool)
        ensures
            r == self.spec_smbus_pec(),
    {
        (self.funcs & FUNC_SMBUS_PEC) > 0
    }
}

/// Whether `addr` is legal for the chosen addressing width: 10-bit
/// addresses run to `0x3ff`; 7-bit addresses run to `0x7f`, with the
/// reserved block `0b1111xxx` (`0x78..=0x7f`) excluded.
pub open spec fn valid_slave_address(ten_bit: bool, addr: u16) -> bool {
    if ten_bit {
        addr <= 0x3ff
    } else {
        addr <= 0x7f && !(0x78 <= addr && addr <= 0x7f)
    }
}

/// One segment of a combined transaction: the slave address, the
/// read/width flags, and the byte count of the buffer the segment moves.
///
/// The kernel-facing layout additionally carries the buffer address; the
/// embedding application fills it in at the moment of the `I2C_RDWR`
/// call, from a buffer it keeps valid and exclusively borrowed for
/// exactly that call.
#[derive(Debug, Copy, Clone, PartialEq, Eq, Structural)]
pub struct RdwrSegment {
    pub addr: u16,
    pub flags: u16,
    pub len: u16,
}

/// An open I2C bus: the device number, the capability snapshot, and the
/// addressing state the kernel has been told.
#[derive(Debug, Copy, Clone, PartialEq, Eq, Structural)]
pub struct I2C {
    bus: u8,
    address: u16,
    addr_10bit: bool,
    funcs: Capabilities,
}

impl I2C {
    pub closed spec fn spec_bus(self) -> u8 {
        self.bus
    }

    pub closed spec fn spec_address(self) -> u16 {
        self.address
    }

    pub closed spec fn spec_addr_10bit(self) -> bool {
        self.addr_10bit
    }

    pub closed spec fn spec_capabilities(self) -> Capabilities {
        self.funcs
    }

    /// Well-formedness: the kernel is switched to 10-bit addressing only
    /// when the adapter reported the feature.  Every constructor
    /// establishes this and every method preserves it.
    pub open spec fn wf(self) -> bool {
        self.spec_addr_10bit() ==> self.spec_capabilities().spec_addr_10bit()
    }

    /// State for a bus whose device node the application has opened and
    /// whose capability bitmask it has queried (request [`I2C_FUNCS`]).
    /// Starts in the kernel's default addressing state: 7-bit, no slave
    /// address chosen.
    pub fn new(bus: u8, funcs: Capabilities) -> (i2c: I2C)
        ensures
            i2c.spec_bus() == bus,
            i2c.spec_address() == 0,
            !i2c.spec_addr_10bit(),
            i2c.spec_capabilities() == funcs,
            i2c.wf(),
    {
        I2C { bus, address: 0, addr_10bit: false, funcs }
    }

    /// The bus number.
    pub fn bus(&self) -> (r: u8)
        ensures
            r == self.spec_bus(),
    {
        self.bus
    }

    /// The capability snapshot taken when the bus was opened.
    pub fn capabilities(&self) -> (r: Capabilities)
        ensures
            r == self.spec_capabilities(),
    {
        self.funcs
    }

    /// Chooses the slave the next transfers talk to.  Addresses outside
    /// the legal range for the current addressing width are rejected
    /// before any kernel call; a legal address updates the state and
    /// yields the prepared [`I2C_SLAVE`] call.
    pub fn set_slave_address(&mut self, slave_address: u16) -> (r: Result<IoctlCall, Error>)
        ensures
            final(self).spec_bus() == old(self).spec_bus(),
            final(self).spec_addr_10bit() == old(self).spec_addr_10bit(),
            final(self).spec_capabilities() == old(self).spec_capabilities(),
            valid_slave_address(old(self).spec_addr_10bit(), slave_address) ==> (r matches Ok(c)
                && c.req == I2C_SLAVE && c.arg == slave_address as u64 && final(self).spec_address() == slave_address),
            !valid_slave_address(old(self).spec_addr_10bit(), slave_address) ==> (r matches Err(e)
                && e == Error::InvalidSlaveAddress(slave_address) && final(self).spec_address() == old(self).spec_address()),
            old(self).wf() ==> final(self).wf(),
    {
        proof {
            assert(((slave_address >> 3) == 0b1111 || slave_address > 0x7f) == !(slave_address
                <= 0x7f && !(0x78 <= slave_address && slave_address <= 0x7f))) by (bit_vector);
        }
        if (!self.addr_10bit && ((slave_address >> 3) == 0b1111 || slave_address > 0x7f)) || (
        self.addr_10bit && slave_address > 0x03ff) {
            return Err(Error::InvalidSlaveAddress(slave_address));
        }
        self.address = slave_address;
        Ok(IoctlCall { req: I2C_SLAVE, arg: slave_address as u64 })
    }

    /// Switches between 7-bit and 10-bit addressing.  Fails without a
    /// kernel call when the adapter never reported the feature; the
    /// check gates on the capability snapshot, whatever width is asked
    /// for.
    pub fn set_addr_10bit(&mut self, addr_10bit: bool) -> (r: Result<IoctlCall, Error>)
        ensures
            final(self).spec_bus() == old(self).spec_bus(),
            final(self).spec_address() == old(self).spec_address(),
            final(self).spec_capabilities() == old(self).spec_capabilities(),
            old(self).spec_capabilities().spec_addr_10bit() ==> (r matches Ok(c) && c.req
                == I2C_TENBIT && c.arg == (if addr_10bit {
                1u64
            } else {
                0u64
            }) && final(self).spec_addr_10bit() == addr_10bit),
            !old(self).spec_capabilities().spec_addr_10bit() ==> (r matches Err(e) && e
                == Error::FeatureNotSupported && final(self).spec_addr_10bit() == old(self).spec_addr_10bit()),
            old(self).wf() ==> final(self).wf(),
    {
        if !self.funcs.addr_10bit() {
            return Err(Error::FeatureNotSupported);
        }
        self.addr_10bit = addr_10bit;
        Ok(IoctlCall { req: I2C_TENBIT, arg: if addr_10bit { 1 } else { 0 } })
    }

    /// The prepared call that sets the bus timeout.  The kernel counts
    /// in tens of milliseconds; a nonzero timeout below one unit is
    /// rounded up rather than truncated to zero.
    pub fn set_timeout(&self, timeout: u32) -> (c: IoctlCall)
        ensures
            c.req == I2C_TIMEOUT,
            c.arg == timeout_arg_spec(timeout),
    {
        let arg: u64 = if timeout > 0 && timeout < 10 {
            1
        } else {
            (timeout / 10) as u64
        };
        IoctlCall { req: I2C_TIMEOUT, arg }
    }

    /// The prepared call that switches SMBus Packet Error Checking on or
    /// off.
    pub fn set_smbus_pec(&self, enable: bool) -> (c: IoctlCall)
        ensures
            c.req == I2C_PEC,
            c.arg == (if enable {
                1u64
            } else {
                0u64
            }),
    {
        IoctlCall { req: I2C_PEC, arg: if enable { 1 } else { 0 } }
    }

    /// The sysfs file holding the adapter's clock frequency.
    pub fn clock_frequency_path(&self) -> (v: Vec<u8>)
        ensures
            v@ == clock_frequency_path_spec(self.spec_bus()),
    {
        proof {
            reveal_strlit("/sys/class/i2c-adapter/i2c-");
            reveal_strlit("/of_node/clock-frequency");
        }
        let mut v = ascii_vec("/sys/class/i2c-adapter/i2c-");
        append_decimal(&mut v, self.bus as u64);
        append_ascii(&mut v, "/of_node/clock-frequency");
        proof {
            assert(v@ =~= clock_frequency_path_spec(self.spec_bus()));
        }
        v
    }

    /// Assembles the clock frequency from the four big-endian bytes the
    /// `clock-frequency` file holds.
    pub fn clock_speed(&self, raw: &[u8]) -> (r: u32)
        requires
            raw@.len() == 4,
        ensures
            r == be_u32_spec(raw@),
    {
        let b0 = raw[0];
        let b1 = raw[1];
        let b2 = raw[2];
        let b3 = raw[3];
        proof {
            assert((b3 as u32) | ((b2 as u32) << 8) | ((b1 as u32) << 16) | ((b0 as u32) << 24)
                == ((b0 as u32) * 0x1000000 + (b1 as u32) * 0x10000 + (b2 as u32) * 0x100 + (
            b3 as u32)) as u32) by (bit_vector);
        }
        (b3 as u32) | ((b2 as u32) << 8) | ((b1 as u32) << 16) | ((b0 as u32) << 24)
    }

    /// Encodes an atomic write-then-read on the chosen slave: a write
    /// segment followed by a read segment, same address, no stop
    /// condition in between — the mechanism for register-indexed reads.
    /// When either buffer is empty there is nothing to transfer and no
    /// segments are produced.  The 16-bit segment length field caps the
    /// buffer sizes; nothing is ever truncated.
    pub fn write_read(&self, write_buffer: &[u8], read_buffer: &[u8]) -> (r: Option<
        (RdwrSegment, RdwrSegment),
    >)
        requires
            write_buffer@.len() <= 0xffff,
            read_buffer@.len() <= 0xffff,
        ensures
            (r is Some) == (write_buffer@.len() > 0 && read_buffer@.len() > 0),
            r matches Some(segs) ==> ({
                &&& segs.0.addr == self.spec_address()
                &&& segs.0.flags == (if self.spec_addr_10bit() {
                    RDWR_FLAG_TEN
                } else {
                    0
                })
                &&& segs.0.len == write_buffer@.len()
                &&& segs.1.addr == self.spec_address()
                &&& segs.1.flags == (if self.spec_addr_10bit() {
                    RDWR_FLAG_RD | RDWR_FLAG_TEN
                } else {
                    RDWR_FLAG_RD
                })
                &&& segs.1.len == read_buffer@.len()
            }),
    {
        if write_buffer.len() == 0 || read_buffer.len() == 0 {
            return None;
        }
        let segment_write = RdwrSegment {
            addr: self.address,
            flags: if self.addr_10bit {
                RDWR_FLAG_TEN
            } else {
                0
            },
            len: write_buffer.len() as u16,
        };
        let segment_read = RdwrSegment {
            addr: self.address,
            flags: if self.addr_10bit {
                RDWR_FLAG_RD | RDWR_FLAG_TEN
            } else {
                RDWR_FLAG_RD
            },
            len: read_buffer.len() as u16,
        };
        Some((segment_write, segment_read))
    }
}

/// The argument of an [`I2C_TIMEOUT`] call for a timeout in
/// milliseconds: the kernel's unit is ten milliseconds, and a nonzero
/// timeout never rounds down to zero.
pub open spec fn timeout_arg_spec(timeout: u32) -> u64 {
    if 0 < timeout < 10 {
        1
    } else {
        (timeout / 10) as u64
    }
}

/// The adapter's `clock-frequency` file:
/// `/sys/class/i2c-adapter/i2c-B/of_node/clock-frequency`.
pub open spec fn clock_frequency_path_spec(bus: u8) -> Seq<u8> {
    ascii_bytes("/sys/class/i2c-adapter/i2c-"@) + decimal_digits(bus as nat) + ascii_bytes(
        "/of_node/clock-frequency"@,
    )
}

/// The number four big-endian bytes denote.
pub open spec fn be_u32_spec(s: Seq<u8>) -> u32
    recommends
        s.len() == 4,
{
    ((s[0] as u32) * 0x1000000 + (s[1] as u32) * 0x10000 + (s[2] as u32) * 0x100 + (
    s[3] as u32)) as u32
}

/// The device node of bus `bus`: `/dev/i2c-B`.
pub open spec fn device_path_spec(bus: u8) -> Seq<u8> {
    ascii_bytes("/dev/i2c-"@) + decimal_digits(bus as nat)
}

/// Builds the device-node path for a bus.
pub fn device_path(bus: u8) -> (v: Vec<u8>)
    ensures
        v@ == device_path_spec(bus),
{
    proof {
        reveal_strlit("/dev/i2c-");
    }
    let mut v = ascii_vec("/dev/i2c-");
    append_decimal(&mut v, bus as u64);
    proof {
        assert(v@ =~= device_path_spec(bus));
    }
    v
}

} // verus!
