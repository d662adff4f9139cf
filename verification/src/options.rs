//! The four option sets of the configuration register, and the record that
//! holds one value of each.
//!
//! Every variant stands for a fixed bit pattern. `code` gives that pattern as
//! a number; [`ADS111XConfig::register_word`] shifts the four codes to their
//! places in the 16-bit word:
//!
//! | bits  | field              |
//! |-------|--------------------|
//! | 15    | zero               |
//! | 14-12 | input multiplexer  |
//! | 11-9  | gain amplifier     |
//! | 8     | operating mode     |
//! | 7-5   | data rate          |
//! | 4-0   | zero               |

use vstd::prelude::*;

verus! {

/// Position of the lowest multiplexer bit in the configuration word.
pub const MULTIPLEXER_SHIFT: u16 = 12;

/// Position of the lowest gain bit in the configuration word.
pub const GAIN_SHIFT: u16 = 9;

/// Position of the operating-mode bit in the configuration word.
pub const MODE_SHIFT: u16 = 8;

/// Position of the lowest data-rate bit in the configuration word.
pub const DATA_RATE_SHIFT: u16 = 5;

/// The bits of the configuration word that no option occupies: bit 15 and
/// bits 4 to 0.
pub const UNUSED_BITS: u16 = 0x801F;

/// The raw code of positive full scale. A raw code of this value reads as
/// exactly the full-scale voltage of the selected gain.
pub const FULL_SCALE_CODE: i32 = 32767;

/// Which analog inputs the converter measures (ADS1115 only).
#[allow(non_camel_case_types)]
#[derive(Debug, Clone, Copy, PartialEq, Eq, Structural)]
pub enum ADS1115MultiplexerConfig {
    AIN0_AIN1,
    AIN0_AIN3,
    AIN1_AIN3,
    AIN2_AIN3,
    AIN0_GND,
    AIN1_GND,
    AIN2_GND,
    AIN3_GND,
}

/// The full-scale input range of the programmable gain amplifier (ADS1114
/// and ADS1115).
#[allow(non_camel_case_types)]
#[derive(Debug, Clone, Copy, PartialEq, Eq, Structural)]
pub enum ADS11145GainAmplifier {
    FS_6_144V,
    FS_4_096V,
    FS_2_048V,
    FS_1_024V,
    FS_0_512V,
    FS_0_256V,
}

/// Whether the converter samples on its own or once per trigger.
#[derive(Debug, Clone, Copy, PartialEq, Eq, Structural)]
pub enum ADS111XOperatingMode {
    ContinuousConversion,
    SingleShot,
}

/// The conversion rate in samples per second.
#[allow(non_camel_case_types)]
#[derive(Debug, Clone, Copy, PartialEq, Eq, Structural)]
pub enum ADS111XDataRate {
    DR_8SPS,
    DR_16SPS,
    DR_32SPS,
    DR_64SPS,
    DR_128SPS,
    DR_250SPS,
    DR_475SPS,
    DR_860SPS,
}

/// One value of each option set. All four are mandatory.
#[derive(Debug, Clone, Copy, PartialEq, Eq, Structural)]
pub struct ADS111XConfig {
    pub multiplexer_config: ADS1115MultiplexerConfig,
    pub gain_amplifier: ADS11145GainAmplifier,
    pub operating_mode: ADS111XOperatingMode,
    pub data_rate: ADS111XDataRate,
}

impl ADS1115MultiplexerConfig {
    /// The three-bit field value of this selection.
    pub open spec fn spec_code(&self) -> u16 {
        match self {
            ADS1115MultiplexerConfig::AIN0_AIN1 => 0b000,
            ADS1115MultiplexerConfig::AIN0_AIN3 => 0b001,
            ADS1115MultiplexerConfig::AIN1_AIN3 => 0b010,
            ADS1115MultiplexerConfig::AIN2_AIN3 => 0b011,
            ADS1115MultiplexerConfig::AIN0_GND => 0b100,
            ADS1115MultiplexerConfig::AIN1_GND => 0b101,
            ADS1115MultiplexerConfig::AIN2_GND => 0b110,
            ADS1115MultiplexerConfig::AIN3_GND => 0b111,
        }
    }

    /// The three-bit field value of this selection.
    #[verifier::when_used_as_spec(spec_code)]
    pub fn code(&self) -> (code: u16)
        ensures
            code == self.spec_code(),
            code <= 0b111,
    {
        match self {
            ADS1115MultiplexerConfig::AIN0_AIN1 => 0b000,
            ADS1115MultiplexerConfig::AIN0_AIN3 => 0b001,
            ADS1115MultiplexerConfig::AIN1_AIN3 => 0b010,
            ADS1115MultiplexerConfig::AIN2_AIN3 => 0b011,
            ADS1115MultiplexerConfig::AIN0_GND => 0b100,
            ADS1115MultiplexerConfig::AIN1_GND => 0b101,
            ADS1115MultiplexerConfig::AIN2_GND => 0b110,
            ADS1115MultiplexerConfig::AIN3_GND => 0b111,
        }
    }
}

impl ADS11145GainAmplifier {
    /// The three-bit field value of this range.
    pub open spec fn spec_code(&self) -> u16 {
        match self {
            ADS11145GainAmplifier::FS_6_144V => 0b000,
            ADS11145GainAmplifier::FS_4_096V => 0b001,
            ADS11145GainAmplifier::FS_2_048V => 0b010,
            ADS11145GainAmplifier::FS_1_024V => 0b011,
            ADS11145GainAmplifier::FS_0_512V => 0b100,
            ADS11145GainAmplifier::FS_0_256V => 0b101,
        }
    }

    /// The three-bit field value of this range.
    #[verifier::when_used_as_spec(spec_code)]
    pub fn code(&self) -> (code: u16)
        ensures
            code == self.spec_code(),
            code <= 0b101,
    {
        match self {
            ADS11145GainAmplifier::FS_6_144V => 0b000,
            ADS11145GainAmplifier::FS_4_096V => 0b001,
            ADS11145GainAmplifier::FS_2_048V => 0b010,
            ADS11145GainAmplifier::FS_1_024V => 0b011,
            ADS11145GainAmplifier::FS_0_512V => 0b100,
            ADS11145GainAmplifier::FS_0_256V => 0b101,
        }
    }

    /// The full-scale voltage of this range, in millivolts.
    pub open spec fn spec_full_scale_millivolts(&self) -> u16 {
        match self {
            ADS11145GainAmplifier::FS_6_144V => 6144,
            ADS11145GainAmplifier::FS_4_096V => 4096,
            ADS11145GainAmplifier::FS_2_048V => 2048,
            ADS11145GainAmplifier::FS_1_024V => 1024,
            ADS11145GainAmplifier::FS_0_512V => 512,
            ADS11145GainAmplifier::FS_0_256V => 256,
        }
    }

    /// The full-scale voltage of this range, in millivolts.
    ///
    /// One raw code is worth this many millivolts divided by
    /// [`FULL_SCALE_CODE`]: the gain factor, as an exact fraction.
    #[verifier::when_used_as_spec(spec_full_scale_millivolts)]
    pub fn full_scale_millivolts(&self) -> (millivolts: u16)
        ensures
            millivolts == self.spec_full_scale_millivolts(),
            256 <= millivolts <= 6144,
    {
        match self {
            ADS11145GainAmplifier::FS_6_144V => 6144,
            ADS11145GainAmplifier::FS_4_096V => 4096,
            ADS11145GainAmplifier::FS_2_048V => 2048,
            ADS11145GainAmplifier::FS_1_024V => 1024,
            ADS11145GainAmplifier::FS_0_512V => 512,
            ADS11145GainAmplifier::FS_0_256V => 256,
        }
    }
}

impl ADS111XOperatingMode {
    /// The one-bit field value of this mode.
    pub open spec fn spec_code(&self) -> u16 {
        match self {
            ADS111XOperatingMode::ContinuousConversion => 0b0,
            ADS111XOperatingMode::SingleShot => 0b1,
        }
    }

    /// The one-bit field value of this mode.
    #[verifier::when_used_as_spec(spec_code)]
    pub fn code(&self) -> (code: u16)
        ensures
            code == self.spec_code(),
            code <= 0b1,
    {
        match self {
            ADS111XOperatingMode::ContinuousConversion => 0b0,
            ADS111XOperatingMode::SingleShot => 0b1,
        }
    }

    /// Whether the converter samples without being triggered.
    pub open spec fn spec_is_continuous(&self) -> bool {
        self is ContinuousConversion
    }

    /// Whether the converter samples without being triggered.
    #[verifier::when_used_as_spec(spec_is_continuous)]
    pub fn is_continuous(&self) -> (continuous: bool)
        ensures
            continuous <==> self is ContinuousConversion,
            !continuous <==> self is SingleShot,
    {
        match self {
            ADS111XOperatingMode::ContinuousConversion => true,
            ADS111XOperatingMode::SingleShot => false,
        }
    }
}

impl ADS111XDataRate {
    /// The three-bit field value of this rate.
    pub open spec fn spec_code(&self) -> u16 {
        match self {
            ADS111XDataRate::DR_8SPS => 0b000,
            ADS111XDataRate::DR_16SPS => 0b001,
            ADS111XDataRate::DR_32SPS => 0b010,
            ADS111XDataRate::DR_64SPS => 0b011,
            ADS111XDataRate::DR_128SPS => 0b100,
            ADS111XDataRate::DR_250SPS => 0b101,
            ADS111XDataRate::DR_475SPS => 0b110,
            ADS111XDataRate::DR_860SPS => 0b111,
        }
    }

    /// The three-bit field value of this rate.
    #[verifier::when_used_as_spec(spec_code)]
    pub fn code(&self) -> (code: u16)
        ensures
            code == self.spec_code(),
            code <= 0b111,
    {
        match self {
            ADS111XDataRate::DR_8SPS => 0b000,
            ADS111XDataRate::DR_16SPS => 0b001,
            ADS111XDataRate::DR_32SPS => 0b010,
            ADS111XDataRate::DR_64SPS => 0b011,
            ADS111XDataRate::DR_128SPS => 0b100,
            ADS111XDataRate::DR_250SPS => 0b101,
            ADS111XDataRate::DR_475SPS => 0b110,
            ADS111XDataRate::DR_860SPS => 0b111,
        }
    }
}

impl ADS111XConfig {
    /// The configuration word: each option's code shifted to its field, the
    /// four joined by bitwise OR.
    pub open spec fn spec_register_word(&self) -> u16 {
        (self.multiplexer_config.spec_code() << MULTIPLEXER_SHIFT)
            | (self.gain_amplifier.spec_code() << GAIN_SHIFT)
            | (self.operating_mode.spec_code() << MODE_SHIFT)
            | (self.data_rate.spec_code() << DATA_RATE_SHIFT)
    }

    /// Packs the four options into the 16-bit configuration word.
    #[verifier::when_used_as_spec(spec_register_word)]
    pub fn register_word(&self) -> (word: u16)
        ensures
            word == self.spec_register_word(),
    {
        (self.multiplexer_config.code() << MULTIPLEXER_SHIFT)
            | (self.gain_amplifier.code() << GAIN_SHIFT)
            | (self.operating_mode.code() << MODE_SHIFT)
            | (self.data_rate.code() << DATA_RATE_SHIFT)
    }
}

/// The configuration word holds each option's code in that option's field and
/// nothing else: every field reads back as the code that was packed into it,
/// and bit 15 and bits 4 to 0 are zero. With fields that do not overlap, the
/// bitwise OR is also the sum of the codes, each times the weight of its
/// field.
pub proof fn lemma_register_word_fields(config: ADS111XConfig)
    ensures
        (config.spec_register_word() >> MULTIPLEXER_SHIFT) & 0b111
            == config.multiplexer_config.spec_code(),
        (config.spec_register_word() >> GAIN_SHIFT) & 0b111 == config.gain_amplifier.spec_code(),
        (config.spec_register_word() >> MODE_SHIFT) & 0b1 == config.operating_mode.spec_code(),
        (config.spec_register_word() >> DATA_RATE_SHIFT) & 0b111 == config.data_rate.spec_code(),
        config.spec_register_word() & UNUSED_BITS == 0,
        config.spec_register_word() == 4096 * config.multiplexer_config.spec_code() + 512
            * config.gain_amplifier.spec_code() + 256 * config.operating_mode.spec_code() + 32
            * config.data_rate.spec_code(),
{
    let mux = config.multiplexer_config.spec_code();
    let gain = config.gain_amplifier.spec_code();
    let mode = config.operating_mode.spec_code();
    let rate = config.data_rate.spec_code();
    let word = config.spec_register_word();
    assert(word == (mux << 12u16) | (gain << 9u16) | (mode << 8u16) | (rate << 5u16));
    assert({
        &&& (word >> 12u16) & 0b111 == mux
        &&& (word >> 9u16) & 0b111 == gain
        &&& (word >> 8u16) & 0b1 == mode
        &&& (word >> 5u16) & 0b111 == rate
        &&& word & 0x801F == 0
        &&& word == 4096 * mux + 512 * gain + 256 * mode + 32 * rate
    }) by (bit_vector)
        requires
            mux <= 0b111,
            gain <= 0b111,
            mode <= 0b1,
            rate <= 0b111,
            word == (mux << 12u16) | (gain << 9u16) | (mode << 8u16) | (rate << 5u16),
    ;
}

/// Two configurations that pack into the same word are the same
/// configuration: the word loses nothing of the record.
pub proof fn lemma_register_word_injective(a: ADS111XConfig, b: ADS111XConfig)
    requires
        a.spec_register_word() == b.spec_register_word(),
    ensures
        a == b,
{
    lemma_register_word_fields(a);
    lemma_register_word_fields(b);
}

} // verus!
