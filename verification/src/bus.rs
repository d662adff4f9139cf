//! The vocabulary between the driver and whoever holds the bus.
//!
//! The driver never touches a device. It names one transaction at a time as a
//! [`BusRequest`]; the holder of the device performs it and reports whether it
//! succeeded.

use vstd::prelude::*;

verus! {

/// The bus address that the chip answers to when its address pin is tied to
/// ground.
pub const DEFAULT_ADS1115_SLAVE_ADDRESS: u16 = 0x48;

/// Address of the conversion register: the latest sample, read only.
pub const ADS111X_CONVERSION_REGISTER: u8 = 0b00;

/// Address of the configuration register.
pub const ADS111X_CONFIG_REGISTER: u8 = 0b01;

/// One transaction on the bus, addressed to the converter.
#[derive(Debug, Clone, Copy, PartialEq, Eq, Structural)]
pub enum BusRequest {
    /// Write the 16-bit `value` to `register` with the bus's word write: the
    /// register address, then the two bytes of the value.
    WriteWord { register: u8, value: u16 },
    /// Write the single byte `register`, which points the chip at that
    /// register for the reads that follow.
    WritePointer { register: u8 },
    /// Read two bytes from the register that the chip points at, into the
    /// receive buffer.
    ReadWord,
}

} // verus!
