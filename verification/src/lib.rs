//! Typed, verified encoding layer for Linux peripheral control.
//!
//! The library covers the pure, kernel-ABI-critical part of driving GPIO,
//! PWM, I2C and SPI peripherals on a Linux host: packing ioctl request
//! codes, building transfer descriptors, validating addresses and
//! configuration values, and encoding/decoding the ASCII tokens exchanged
//! with the sysfs tree.  Everything that touches a file descriptor (opening
//! device nodes, reading and writing sysfs attributes, issuing the ioctl
//! itself) is left to the embedding application, which hands this crate
//! plain values and receives plain values back.

use vstd::prelude::*;

pub mod gpio;
pub mod i2c;
pub mod ioctl;
pub mod pwm;
pub mod spi;
pub mod sysfs;

verus! {

/// Failures reported by the encoding and validation layer.
///
/// I/O failures (open, read, write, ioctl) belong to the embedding
/// application; this layer only rejects values it can judge on its own.
#[derive(Debug, Clone, PartialEq, Eq)]
pub enum Error {
    /// A slave address outside the legal range for the current addressing
    /// width; carries the rejected address.
    InvalidSlaveAddress(u16),
    /// The bus adapter does not support the requested feature.
    FeatureNotSupported,
    /// A sysfs attribute held text that matches no recognized token;
    /// carries the offending (trimmed) contents.
    UnexpectedContents(Vec<u8>),
}

} // verus!
