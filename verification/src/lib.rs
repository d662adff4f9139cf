//! Driver core for the ADS1114/ADS1115 delta-sigma converters.
//!
//! The crate holds everything the driver decides and computes: how a
//! configuration packs into the chip's 16-bit configuration word, which bus
//! transactions construction and a voltage read consist of and in what order,
//! how the two conversion bytes decode, and how a raw code scales to a
//! voltage. It touches no bus itself. A caller performs each
//! [`BusRequest`] on its device and hands the outcome back.

pub mod bus;
pub mod driver;
pub mod options;
pub mod reading;

pub use bus::{
    BusRequest, ADS111X_CONFIG_REGISTER, ADS111X_CONVERSION_REGISTER,
    DEFAULT_ADS1115_SLAVE_ADDRESS,
};

pub use driver::{ReadStage, ReadStep, ADS111X};
pub use options::{
    ADS11145GainAmplifier, ADS1115MultiplexerConfig, ADS111XConfig, ADS111XDataRate,
    ADS111XOperatingMode, FULL_SCALE_CODE,
};
pub use reading::Reading;
