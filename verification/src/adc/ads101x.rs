//! Register codec and adapter state of the ADS101x family of converters.
//!
//! The configuration register is one 16-bit word of nine fields. Each field
//! has a type of its own here, and [`Config`] holds one value of each. The
//! conversion register holds a 12-bit two's-complement sample in a 16-bit
//! transfer word.

use crate::sensor::Sensor;
use vstd::prelude::*;
use vstd::std_specs::convert::FromSpecImpl;

verus! {

/// Address of the conversion register.
pub const CONVERSION_REG: u8 = 0x00;

/// Address of the configuration register.
pub const CONFIG_REG: u8 = 0x01;

/// Address of the low threshold register.
pub const LO_THRESH_REG: u8 = 0x02;

/// Address of the high threshold register.
pub const HI_THRESH_REG: u8 = 0x03;

/// Operational status or single-shot conversion start.
///
/// Can only be written in the power-down state and has no effect while a
/// conversion is ongoing.
#[derive(Clone, Copy, Debug, PartialEq, Eq, Structural)]
pub enum Os {
    /// Writing: no effect. Reading: a conversion is in progress.
    Off,
    /// Writing: start a single conversion. Reading: no conversion is in progress.
    On,
}

impl Os {
    /// The value of the register field that stands for this setting.
    pub open spec fn code(self) -> u16 {
        match self {
            Os::Off => 0,
            Os::On => 1,
        }
    }

    /// The setting that a value of the register field stands for.
    pub open spec fn of_code(code: u16) -> Os {
        if code == 0 {
            Os::Off
        } else {
            Os::On
        }
    }

    /// The setting that a register word holds in this field.
    pub open spec fn of_word(word: u16) -> Os {
        Os::of_code((word & 0x8000) >> 15)
    }

    /// The value of the register field, not yet shifted into place.
    pub fn bits(self) -> (r: u16)
        ensures
            r == self.code(),
    {
        match self {
            Os::Off => 0,
            Os::On => 1,
        }
    }
}

impl Default for Os {
    fn default() -> (r: Self)
        ensures
            r == Os::On,
    {
        Os::On
    }
}

impl From<u16> for Os {
    fn from(word: u16) -> (r: Self) {
        match (word & 0x8000) >> 15 {
            0 => Os::Off,
            _ => Os::On,
        }
    }
}

impl FromSpecImpl<u16> for Os {
    open spec fn obeys_from_spec() -> bool {
        true
    }

    open spec fn from_spec(word: u16) -> Self {
        Os::of_word(word)
    }
}

/// Input multiplexer configuration (ADS1015 only).
///
/// These bits serve no function on the ADS1013 and ADS1014.
#[derive(Clone, Copy, Debug, PartialEq, Eq, Structural)]
pub enum Mux {
    /// AINP = AIN0 and AINN = AIN1 (default)
    Ain0Ain1,
    /// AINP = AIN0 and AINN = AIN3
    Ain0Ain3,
    /// AINP = AIN1 and AINN = AIN3
    Ain1Ain3,
    /// AINP = AIN2 and AINN = AIN3
    Ain2Ain3,
    /// AINP = AIN0 and AINN = GND
    Ain0Gnd,
    /// AINP = AIN1 and AINN = GND
    Ain1Gnd,
    /// AINP = AIN2 and AINN = GND
    Ain2Gnd,
    /// AINP = AIN3 and AINN = GND
    Ain3Gnd,
}

impl Mux {
    /// The value of the register field that stands for this setting.
    pub open spec fn code(self) -> u16 {
        match self {
            Mux::Ain0Ain1 => 0,
            Mux::Ain0Ain3 => 1,
            Mux::Ain1Ain3 => 2,
            Mux::Ain2Ain3 => 3,
            Mux::Ain0Gnd => 4,
            Mux::Ain1Gnd => 5,
            Mux::Ain2Gnd => 6,
            Mux::Ain3Gnd => 7,
        }
    }

    /// The setting that a value of the register field stands for.
    pub open spec fn of_code(code: u16) -> Mux {
        if code == 0 {
            Mux::Ain0Ain1
        } else if code == 1 {
            Mux::Ain0Ain3
        } else if code == 2 {
            Mux::Ain1Ain3
        } else if code == 3 {
            Mux::Ain2Ain3
        } else if code == 4 {
            Mux::Ain0Gnd
        } else if code == 5 {
            Mux::Ain1Gnd
        } else if code == 6 {
            Mux::Ain2Gnd
        } else {
            Mux::Ain3Gnd
        }
    }

    /// The setting that a register word holds in this field.
    pub open spec fn of_word(word: u16) -> Mux {
        Mux::of_code((word & 0x7000) >> 12)
    }

    /// The value of the register field, not yet shifted into place.
    pub fn bits(self) -> (r: u16)
        ensures
            r == self.code(),
    {
        match self {
            Mux::Ain0Ain1 => 0,
            Mux::Ain0Ain3 => 1,
            Mux::Ain1Ain3 => 2,
            Mux::Ain2Ain3 => 3,
            Mux::Ain0Gnd => 4,
            Mux::Ain1Gnd => 5,
            Mux::Ain2Gnd => 6,
            Mux::Ain3Gnd => 7,
        }
    }
}

impl Default for Mux {
    fn default() -> (r: Self)
        ensures
            r == Mux::Ain0Ain1,
    {
        Mux::Ain0Ain1
    }
}

impl From<u16> for Mux {
    fn from(word: u16) -> (r: Self) {
        match (word & 0x7000) >> 12 {
            0 => Mux::Ain0Ain1,
            1 => Mux::Ain0Ain3,
            2 => Mux::Ain1Ain3,
            3 => Mux::Ain2Ain3,
            4 => Mux::Ain0Gnd,
            5 => Mux::Ain1Gnd,
            6 => Mux::Ain2Gnd,
            _ => Mux::Ain3Gnd,
        }
    }
}

impl FromSpecImpl<u16> for Mux {
    open spec fn obeys_from_spec() -> bool {
        true
    }

    open spec fn from_spec(word: u16) -> Self {
        Mux::of_word(word)
    }
}

/// Programmable gain amplifier configuration.
///
/// Sets the full-scale range. The field is three bits wide; the two values
/// above the last defined one read as the smallest range, as the device
/// treats them. These bits serve no function on the ADS1013.
#[allow(non_camel_case_types)]
#[derive(Clone, Copy, Debug, PartialEq, Eq, Structural)]
pub enum Pga {
    /// FSR = +-6.144 V
    Fsr6_144V,
    /// FSR = +-4.096 V
    Fsr4_096V,
    /// FSR = +-2.048 V (default)
    Fsr2_048V,
    /// FSR = +-1.024 V
    Fsr1_024V,
    /// FSR = +-0.512 V
    Fsr0_512V,
    /// FSR = +-0.256 V
    Fsr0_256V,
}

impl Pga {
    /// The value of the register field that stands for this setting.
    pub open spec fn code(self) -> u16 {
        match self {
            Pga::Fsr6_144V => 0,
            Pga::Fsr4_096V => 1,
            Pga::Fsr2_048V => 2,
            Pga::Fsr1_024V => 3,
            Pga::Fsr0_512V => 4,
            Pga::Fsr0_256V => 5,
        }
    }

    /// The setting that a value of the register field stands for.
    pub open spec fn of_code(code: u16) -> Pga {
        if code == 0 {
            Pga::Fsr6_144V
        } else if code == 1 {
            Pga::Fsr4_096V
        } else if code == 2 {
            Pga::Fsr2_048V
        } else if code == 3 {
            Pga::Fsr1_024V
        } else if code == 4 {
            Pga::Fsr0_512V
        } else {
            Pga::Fsr0_256V
        }
    }

    /// The setting that a register word holds in this field.
    pub open spec fn of_word(word: u16) -> Pga {
        Pga::of_code((word & 0x0E00) >> 9)
    }

    /// The value of the register field, not yet shifted into place.
    pub fn bits(self) -> (r: u16)
        ensures
            r == self.code(),
    {
        match self {
            Pga::Fsr6_144V => 0,
            Pga::Fsr4_096V => 1,
            Pga::Fsr2_048V => 2,
            Pga::Fsr1_024V => 3,
            Pga::Fsr0_512V => 4,
            Pga::Fsr0_256V => 5,
        }
    }

    /// The size of one count at this range, in microvolts.
    pub open spec fn lsb(self) -> int {
        match self {
            Pga::Fsr6_144V => 3000,
            Pga::Fsr4_096V => 2000,
            Pga::Fsr2_048V => 1000,
            Pga::Fsr1_024V => 500,
            Pga::Fsr0_512V => 250,
            Pga::Fsr0_256V => 125,
        }
    }

    /// The size of one count at this range, in microvolts.
    pub fn lsb_microvolts(self) -> (r: i32)
        ensures
            r == self.lsb(),
    {
        match self {
            Pga::Fsr6_144V => 3000,
            Pga::Fsr4_096V => 2000,
            Pga::Fsr2_048V => 1000,
            Pga::Fsr1_024V => 500,
            Pga::Fsr0_512V => 250,
            Pga::Fsr0_256V => 125,
        }
    }
}

impl Default for Pga {
    fn default() -> (r: Self)
        ensures
            r == Pga::Fsr2_048V,
    {
        Pga::Fsr2_048V
    }
}

impl From<u16> for Pga {
    fn from(word: u16) -> (r: Self) {
        match (word & 0x0E00) >> 9 {
            0 => Pga::Fsr6_144V,
            1 => Pga::Fsr4_096V,
            2 => Pga::Fsr2_048V,
            3 => Pga::Fsr1_024V,
            4 => Pga::Fsr0_512V,
            _ => Pga::Fsr0_256V,
        }
    }
}

impl FromSpecImpl<u16> for Pga {
    open spec fn obeys_from_spec() -> bool {
        true
    }

    open spec fn from_spec(word: u16) -> Self {
        Pga::of_word(word)
    }
}

/// Device operating mode.
#[derive(Clone, Copy, Debug, PartialEq, Eq, Structural)]
pub enum Mode {
    /// Continuous-conversion mode
    Continuous,
    /// Single-shot mode or power-down state (default)
    SingleShot,
}

impl Mode {
    /// The value of the register field that stands for this setting.
    pub open spec fn code(self) -> u16 {
        match self {
            Mode::Continuous => 0,
            Mode::SingleShot => 1,
        }
    }

    /// The setting that a value of the register field stands for.
    pub open spec fn of_code(code: u16) -> Mode {
        if code == 0 {
            Mode::Continuous
        } else {
            Mode::SingleShot
        }
    }

    /// The setting that a register word holds in this field.
    pub open spec fn of_word(word: u16) -> Mode {
        Mode::of_code((word & 0x0100) >> 8)
    }

    /// The value of the register field, not yet shifted into place.
    pub fn bits(self) -> (r: u16)
        ensures
            r == self.code(),
    {
        match self {
            Mode::Continuous => 0,
            Mode::SingleShot => 1,
        }
    }
}

impl Default for Mode {
    fn default() -> (r: Self)
        ensures
            r == Mode::SingleShot,
    {
        Mode::SingleShot
    }
}

impl From<u16> for Mode {
    fn from(word: u16) -> (r: Self) {
        match (word & 0x0100) >> 8 {
            0 => Mode::Continuous,
            _ => Mode::SingleShot,
        }
    }
}

impl FromSpecImpl<u16> for Mode {
    open spec fn obeys_from_spec() -> bool {
        true
    }

    open spec fn from_spec(word: u16) -> Self {
        Mode::of_word(word)
    }
}

/// Data rate.
///
/// The field is three bits wide; the value above the last defined one reads
/// as the highest rate, as the device treats it.
#[derive(Clone, Copy, Debug, PartialEq, Eq, Structural)]
pub enum DataRate {
    /// 128 SPS
    Sps128,
    /// 250 SPS
    Sps250,
    /// 490 SPS
    Sps490,
    /// 920 SPS
    Sps920,
    /// 1600 SPS (default)
    Sps1600,
    /// 2400 SPS
    Sps2400,
    /// 3300 SPS
    Sps3300,
}

impl DataRate {
    /// The value of the register field that stands for this setting.
    pub open spec fn code(self) -> u16 {
        match self {
            DataRate::Sps128 => 0,
            DataRate::Sps250 => 1,
            DataRate::Sps490 => 2,
            DataRate::Sps920 => 3,
            DataRate::Sps1600 => 4,
            DataRate::Sps2400 => 5,
            DataRate::Sps3300 => 6,
        }
    }

    /// The setting that a value of the register field stands for.
    pub open spec fn of_code(code: u16) -> DataRate {
        if code == 0 {
            DataRate::Sps128
        } else if code == 1 {
            DataRate::Sps250
        } else if code == 2 {
            DataRate::Sps490
        } else if code == 3 {
            DataRate::Sps920
        } else if code == 4 {
            DataRate::Sps1600
        } else if code == 5 {
            DataRate::Sps2400
        } else {
            DataRate::Sps3300
        }
    }

    /// The setting that a register word holds in this field.
    pub open spec fn of_word(word: u16) -> DataRate {
        DataRate::of_code((word & 0x00E0) >> 5)
    }

    /// The value of the register field, not yet shifted into place.
    pub fn bits(self) -> (r: u16)
        ensures
            r == self.code(),
    {
        match self {
            DataRate::Sps128 => 0,
            DataRate::Sps250 => 1,
            DataRate::Sps490 => 2,
            DataRate::Sps920 => 3,
            DataRate::Sps1600 => 4,
            DataRate::Sps2400 => 5,
            DataRate::Sps3300 => 6,
        }
    }
}

impl Default for DataRate {
    fn default() -> (r: Self)
        ensures
            r == DataRate::Sps1600,
    {
        DataRate::Sps1600
    }
}

impl From<u16> for DataRate {
    fn from(word: u16) -> (r: Self) {
        match (word & 0x00E0) >> 5 {
            0 => DataRate::Sps128,
            1 => DataRate::Sps250,
            2 => DataRate::Sps490,
            3 => DataRate::Sps920,
            4 => DataRate::Sps1600,
            5 => DataRate::Sps2400,
            _ => DataRate::Sps3300,
        }
    }
}

impl FromSpecImpl<u16> for DataRate {
    open spec fn obeys_from_spec() -> bool {
        true
    }

    open spec fn from_spec(word: u16) -> Self {
        DataRate::of_word(word)
    }
}

/// Comparator mode (ADS1014 and ADS1015 only).
#[derive(Clone, Copy, Debug, PartialEq, Eq, Structural)]
pub enum CompMode {
    /// Traditional comparator (default)
    Traditional,
    /// Window comparator
    Window,
}

impl CompMode {
    /// The value of the register field that stands for this setting.
    pub open spec fn code(self) -> u16 {
        match self {
            CompMode::Traditional => 0,
            CompMode::Window => 1,
        }
    }

    /// The setting that a value of the register field stands for.
    pub open spec fn of_code(code: u16) -> CompMode {
        if code == 0 {
            CompMode::Traditional
        } else {
            CompMode::Window
        }
    }

    /// The setting that a register word holds in this field.
    pub open spec fn of_word(word: u16) -> CompMode {
        CompMode::of_code((word & 0x0010) >> 4)
    }

    /// The value of the register field, not yet shifted into place.
    pub fn bits(self) -> (r: u16)
        ensures
            r == self.code(),
    {
        match self {
            CompMode::Traditional => 0,
            CompMode::Window => 1,
        }
    }
}

impl Default for CompMode {
    fn default() -> (r: Self)
        ensures
            r == CompMode::Traditional,
    {
        CompMode::Traditional
    }
}

impl From<u16> for CompMode {
    fn from(word: u16) -> (r: Self) {
        match (word & 0x0010) >> 4 {
            0 => CompMode::Traditional,
            _ => CompMode::Window,
        }
    }
}

impl FromSpecImpl<u16> for CompMode {
    open spec fn obeys_from_spec() -> bool {
        true
    }

    open spec fn from_spec(word: u16) -> Self {
        CompMode::of_word(word)
    }
}

/// Comparator polarity (ADS1014 and ADS1015 only).
///
/// Controls the polarity of the ALERT/RDY pin.
#[derive(Clone, Copy, Debug, PartialEq, Eq, Structural)]
pub enum CompPolarity {
    /// Active low (default)
    ActiveLow,
    /// Active high
    ActiveHigh,
}

impl CompPolarity {
    /// The value of the register field that stands for this setting.
    pub open spec fn code(self) -> u16 {
        match self {
            CompPolarity::ActiveLow => 0,
            CompPolarity::ActiveHigh => 1,
        }
    }

    /// The setting that a value of the register field stands for.
    pub open spec fn of_code(code: u16) -> CompPolarity {
        if code == 0 {
            CompPolarity::ActiveLow
        } else {
            CompPolarity::ActiveHigh
        }
    }

    /// The setting that a register word holds in this field.
    pub open spec fn of_word(word: u16) -> CompPolarity {
        CompPolarity::of_code((word & 0x0008) >> 3)
    }

    /// The value of the register field, not yet shifted into place.
    pub fn bits(self) -> (r: u16)
        ensures
            r == self.code(),
    {
        match self {
            CompPolarity::ActiveLow => 0,
            CompPolarity::ActiveHigh => 1,
        }
    }
}

impl Default for CompPolarity {
    fn default() -> (r: Self)
        ensures
            r == CompPolarity::ActiveLow,
    {
        CompPolarity::ActiveLow
    }
}

impl From<u16> for CompPolarity {
    fn from(word: u16) -> (r: Self) {
        match (word & 0x0008) >> 3 {
            0 => CompPolarity::ActiveLow,
            _ => CompPolarity::ActiveHigh,
        }
    }
}

impl FromSpecImpl<u16> for CompPolarity {
    open spec fn obeys_from_spec() -> bool {
        true
    }

    open spec fn from_spec(word: u16) -> Self {
        CompPolarity::of_word(word)
    }
}

/// Latching comparator (ADS1014 and ADS1015 only).
#[derive(Clone, Copy, Debug, PartialEq, Eq, Structural)]
pub enum CompLatch {
    /// The ALERT/RDY pin does not latch when asserted (default).
    Nonlatching,
    /// The asserted ALERT/RDY pin remains latched until the conversion data are read.
    Latching,
}

impl CompLatch {
    /// The value of the register field that stands for this setting.
    pub open spec fn code(self) -> u16 {
        match self {
            CompLatch::Nonlatching => 0,
            CompLatch::Latching => 1,
        }
    }

    /// The setting that a value of the register field stands for.
    pub open spec fn of_code(code: u16) -> CompLatch {
        if code == 0 {
            CompLatch::Nonlatching
        } else {
            CompLatch::Latching
        }
    }

    /// The setting that a register word holds in this field.
    pub open spec fn of_word(word: u16) -> CompLatch {
        CompLatch::of_code((word & 0x0004) >> 2)
    }

    /// The value of the register field, not yet shifted into place.
    pub fn bits(self) -> (r: u16)
        ensures
            r == self.code(),
    {
        match self {
            CompLatch::Nonlatching => 0,
            CompLatch::Latching => 1,
        }
    }
}

impl Default for CompLatch {
    fn default() -> (r: Self)
        ensures
            r == CompLatch::Nonlatching,
    {
        CompLatch::Nonlatching
    }
}

impl From<u16> for CompLatch {
    fn from(word: u16) -> (r: Self) {
        match (word & 0x0004) >> 2 {
            0 => CompLatch::Nonlatching,
            _ => CompLatch::Latching,
        }
    }
}

impl FromSpecImpl<u16> for CompLatch {
    open spec fn obeys_from_spec() -> bool {
        true
    }

    open spec fn from_spec(word: u16) -> Self {
        CompLatch::of_word(word)
    }
}

/// Comparator queue and disable (ADS1014 and ADS1015 only).
#[derive(Clone, Copy, Debug, PartialEq, Eq, Structural)]
pub enum CompQueue {
    /// Assert after one conversion
    OneConversion,
    /// Assert after two conversions
    TwoConversion,
    /// Assert after four conversions
    FourConversion,
    /// Disable the comparator and set ALERT/RDY to high impedance (default)
    Disable,
}

impl CompQueue {
    /// The value of the register field that stands for this setting.
    pub open spec fn code(self) -> u16 {
        match self {
            CompQueue::OneConversion => 0,
            CompQueue::TwoConversion => 1,
            CompQueue::FourConversion => 2,
            CompQueue::Disable => 3,
        }
    }

    /// The setting that a value of the register field stands for.
    pub open spec fn of_code(code: u16) -> CompQueue {
        if code == 0 {
            CompQueue::OneConversion
        } else if code == 1 {
            CompQueue::TwoConversion
        } else if code == 2 {
            CompQueue::FourConversion
        } else {
            CompQueue::Disable
        }
    }

    /// The setting that a register word holds in this field.
    pub open spec fn of_word(word: u16) -> CompQueue {
        CompQueue::of_code(word & 0x0003)
    }

    /// The value of the register field, not yet shifted into place.
    pub fn bits(self) -> (r: u16)
        ensures
            r == self.code(),
    {
        match self {
            CompQueue::OneConversion => 0,
            CompQueue::TwoConversion => 1,
            CompQueue::FourConversion => 2,
            CompQueue::Disable => 3,
        }
    }
}

impl Default for CompQueue {
    fn default() -> (r: Self)
        ensures
            r == CompQueue::Disable,
    {
        CompQueue::Disable
    }
}

impl From<u16> for CompQueue {
    fn from(word: u16) -> (r: Self) {
        match word & 0x0003 {
            0 => CompQueue::OneConversion,
            1 => CompQueue::TwoConversion,
            2 => CompQueue::FourConversion,
            _ => CompQueue::Disable,
        }
    }
}

impl FromSpecImpl<u16> for CompQueue {
    open spec fn obeys_from_spec() -> bool {
        true
    }

    open spec fn from_spec(word: u16) -> Self {
        CompQueue::of_word(word)
    }
}

/// The configuration register: operating mode, input selection, data rate,
/// full-scale range and comparator modes.
///
/// Every field is strongly typed, and every combination of field values is a
/// configuration. The `with_` methods replace one field each.
#[derive(Clone, Copy, Debug, PartialEq, Eq, Structural)]
pub struct Config {
    pub os: Os,
    pub mux: Mux,
    pub pga: Pga,
    pub mode: Mode,
    pub data_rate: DataRate,
    pub comp_mode: CompMode,
    pub comp_polarity: CompPolarity,
    pub comp_latch: CompLatch,
    pub comp_queue: CompQueue,
}

impl Config {
    /// The register word that holds this configuration: each field's value
    /// at its bit offset.
    pub open spec fn encode(self) -> u16 {
        (self.os.code() << 15)
        | (self.mux.code() << 12)
        | (self.pga.code() << 9)
        | (self.mode.code() << 8)
        | (self.data_rate.code() << 5)
        | (self.comp_mode.code() << 4)
        | (self.comp_polarity.code() << 3)
        | (self.comp_latch.code() << 2)
        | self.comp_queue.code()
    }

    /// The configuration that a register word holds: each field masked out
    /// and read at its bit offset.
    pub open spec fn decode(word: u16) -> Config {
        Config {
            os: Os::of_word(word),
            mux: Mux::of_word(word),
            pga: Pga::of_word(word),
            mode: Mode::of_word(word),
            data_rate: DataRate::of_word(word),
            comp_mode: CompMode::of_word(word),
            comp_polarity: CompPolarity::of_word(word),
            comp_latch: CompLatch::of_word(word),
            comp_queue: CompQueue::of_word(word),
        }
    }

    /// The register's value after reset: every field at its default.
    pub open spec fn reset() -> Config {
        Config {
            os: Os::On,
            mux: Mux::Ain0Ain1,
            pga: Pga::Fsr2_048V,
            mode: Mode::SingleShot,
            data_rate: DataRate::Sps1600,
            comp_mode: CompMode::Traditional,
            comp_polarity: CompPolarity::ActiveLow,
            comp_latch: CompLatch::Nonlatching,
            comp_queue: CompQueue::Disable,
        }
    }

    /// This configuration with the `Os` field replaced.
    pub fn with_os(self, os: Os) -> (r: Self)
        ensures
            r == (Config { os, ..self }),
    {
        let mut config = self;
        config.os = os;
        config
    }

    /// This configuration with the `Mux` field replaced.
    pub fn with_mux(self, mux: Mux) -> (r: Self)
        ensures
            r == (Config { mux, ..self }),
    {
        let mut config = self;
        config.mux = mux;
        config
    }

    /// This configuration with the `Pga` field replaced.
    pub fn with_pga(self, pga: Pga) -> (r: Self)
        ensures
            r == (Config { pga, ..self }),
    {
        let mut config = self;
        config.pga = pga;
        config
    }

    /// This configuration with the `Mode` field replaced.
    pub fn with_mode(self, mode: Mode) -> (r: Self)
        ensures
            r == (Config { mode, ..self }),
    {
        let mut config = self;
        config.mode = mode;
        config
    }

    /// This configuration with the `DataRate` field replaced.
    pub fn with_data_rate(self, data_rate: DataRate) -> (r: Self)
        ensures
            r == (Config { data_rate, ..self }),
    {
        let mut config = self;
        config.data_rate = data_rate;
        config
    }

    /// This configuration with the `CompMode` field replaced.
    pub fn with_comp_mode(self, comp_mode: CompMode) -> (r: Self)
        ensures
            r == (Config { comp_mode, ..self }),
    {
        let mut config = self;
        config.comp_mode = comp_mode;
        config
    }

    /// This configuration with the `CompPolarity` field replaced.
    pub fn with_comp_polarity(self, comp_polarity: CompPolarity) -> (r: Self)
        ensures
            r == (Config { comp_polarity, ..self }),
    {
        let mut config = self;
        config.comp_polarity = comp_polarity;
        config
    }

    /// This configuration with the `CompLatch` field replaced.
    pub fn with_comp_latch(self, comp_latch: CompLatch) -> (r: Self)
        ensures
            r == (Config { comp_latch, ..self }),
    {
        let mut config = self;
        config.comp_latch = comp_latch;
        config
    }

    /// This configuration with the `CompQueue` field replaced.
    pub fn with_comp_queue(self, comp_queue: CompQueue) -> (r: Self)
        ensures
            r == (Config { comp_queue, ..self }),
    {
        let mut config = self;
        config.comp_queue = comp_queue;
        config
    }
}

impl Default for Config {
    /// The register's value after reset.
    fn default() -> (r: Self)
        ensures
            r == Config::reset(),
    {
        Config {
            os: Os::default(),
            mux: Mux::default(),
            pga: Pga::default(),
            mode: Mode::default(),
            data_rate: DataRate::default(),
            comp_mode: CompMode::default(),
            comp_polarity: CompPolarity::default(),
            comp_latch: CompLatch::default(),
            comp_queue: CompQueue::default(),
        }
    }
}

impl From<u16> for Config {
    fn from(word: u16) -> (r: Self) {
        Config {
            os: Os::from(word),
            mux: Mux::from(word),
            pga: Pga::from(word),
            mode: Mode::from(word),
            data_rate: DataRate::from(word),
            comp_mode: CompMode::from(word),
            comp_polarity: CompPolarity::from(word),
            comp_latch: CompLatch::from(word),
            comp_queue: CompQueue::from(word),
        }
    }
}

impl FromSpecImpl<u16> for Config {
    open spec fn obeys_from_spec() -> bool {
        true
    }

    open spec fn from_spec(word: u16) -> Self {
        Config::decode(word)
    }
}

impl From<Config> for u16 {
    fn from(config: Config) -> (r: Self) {
        let os: u16 = config.os.bits() << 15;
        let mux: u16 = config.mux.bits() << 12;
        let pga: u16 = config.pga.bits() << 9;
        let mode: u16 = config.mode.bits() << 8;
        let data_rate: u16 = config.data_rate.bits() << 5;
        let comp_mode: u16 = config.comp_mode.bits() << 4;
        let comp_polarity: u16 = config.comp_polarity.bits() << 3;
        let comp_latch: u16 = config.comp_latch.bits() << 2;
        let comp_queue: u16 = config.comp_queue.bits();
        os | mux | pga | mode | data_rate | comp_mode
            | comp_polarity | comp_latch | comp_queue
    }
}

impl FromSpecImpl<Config> for u16 {
    open spec fn obeys_from_spec() -> bool {
        true
    }

    open spec fn from_spec(config: Config) -> Self {
        config.encode()
    }
}

/// Reading a field back out of a word packed from nine field values gives
/// the value that went in, for every field.
proof fn packed_fields_read_back(
    word: u16,
    os: u16,
    mux: u16,
    pga: u16,
    mode: u16,
    data_rate: u16,
    comp_mode: u16,
    comp_polarity: u16,
    comp_latch: u16,
    comp_queue: u16,
)
    by (bit_vector)
    requires
        word == (os << 15) | (mux << 12) | (pga << 9) | (mode << 8) | (data_rate << 5) | (comp_mode
            << 4) | (comp_polarity << 3) | (comp_latch << 2) | comp_queue,
        os < 2,
        mux < 8,
        pga < 8,
        mode < 2,
        data_rate < 8,
        comp_mode < 2,
        comp_polarity < 2,
        comp_latch < 2,
        comp_queue < 4,
    ensures
        (word & 0x8000) >> 15 == os,
        (word & 0x7000) >> 12 == mux,
        (word & 0x0E00) >> 9 == pga,
        (word & 0x0100) >> 8 == mode,
        (word & 0x00E0) >> 5 == data_rate,
        (word & 0x0010) >> 4 == comp_mode,
        (word & 0x0008) >> 3 == comp_polarity,
        (word & 0x0004) >> 2 == comp_latch,
        word & 0x0003 == comp_queue,
{
}

/// Decoding an encoded configuration gives the configuration back, for every
/// combination of field values.
pub proof fn config_round_trip(config: Config)
    ensures
        Config::decode(config.encode()) == config,
{
    packed_fields_read_back(
        config.encode(),
        config.os.code(),
        config.mux.code(),
        config.pga.code(),
        config.mode.code(),
        config.data_rate.code(),
        config.comp_mode.code(),
        config.comp_polarity.code(),
        config.comp_latch.code(),
        config.comp_queue.code(),
    );
}

/// A transfer word with its two bytes exchanged: the device sends the high
/// byte of the conversion register first.
pub open spec fn swapped(word: u16) -> int {
    (word as int % 256) * 256 + word as int / 256
}

/// The 12 bits of the sample as an unsigned number: the upper 12 bits of the
/// conversion register.
pub open spec fn sample_pattern(word: u16) -> int {
    swapped(word) / 16
}

/// The sample that a transfer word holds: its 12-bit pattern read as two's
/// complement.
pub open spec fn sample_counts(word: u16) -> int {
    if sample_pattern(word) >= 2048 {
        sample_pattern(word) - 4096
    } else {
        sample_pattern(word)
    }
}

/// Decodes a transfer word of the conversion register into a signed sample.
///
/// The bytes are exchanged, the 12-bit sample is shifted down, and its sign
/// bit is extended into the upper four bits.
pub fn decode_raw_sample(word: u16) -> (r: i16)
    ensures
        r == sample_counts(word),
        -2048 <= r <= 2047,
{
    let native: u16 = (word << 8) | (word >> 8);
    let shifted: u16 = native >> 4;
    let extended: u16 = if (native & 0x8000) != 0 {
        0xF000 | shifted
    } else {
        shifted
    };
    assert(native == (word % 256) * 256 + word / 256) by (bit_vector)
        requires
            native == (word << 8) | (word >> 8),
    ;
    assert(shifted == native / 16 && shifted < 4096) by (bit_vector)
        requires
            shifted == native >> 4,
    ;
    assert((native & 0x8000) != 0 <==> native / 16 >= 2048) by (bit_vector);
    assert(shifted >= 2048 ==> (0xF000 | shifted) == shifted + 0xF000) by (bit_vector)
        requires
            shifted < 4096,
    ;
    let counts: i16 = #[verifier::truncate] (extended as i16);
    assert(extended < 0x8000 ==> counts as i32 == extended as i32) by (bit_vector)
        requires
            counts == extended as i16,
    ;
    assert(extended >= 0x8000 ==> counts as i32 == extended as i32 - 0x10000) by (bit_vector)
        requires
            counts == extended as i16,
    ;
    counts
}

/// The sample moves with its bit pattern: one step of the pattern is one
/// count, and the pattern's upper half stands 4096 counts lower.
pub proof fn raw_sample_linear(a: u16, b: u16)
    ensures
        -2048 <= sample_counts(a) <= 2047,
        0 <= sample_pattern(a) < 4096,
        (sample_pattern(a) >= 2048) == (sample_pattern(b) >= 2048) ==> sample_counts(b)
            - sample_counts(a) == sample_pattern(b) - sample_pattern(a),
        sample_pattern(a) < 2048 ==> sample_counts(a) == sample_pattern(a),
        sample_pattern(a) >= 2048 ==> sample_counts(a) == sample_pattern(a) - 4096,
{
}

/// The outcome of writing a configuration and reading it back.
#[derive(Clone, Copy, Debug, PartialEq, Eq, Structural)]
pub enum ConfigOutcome {
    /// The device reports the configuration that was written.
    Confirmed,
    /// The device reports another configuration: it ignored a field that this
    /// variant of the hardware does not have. The adapter goes on with what the
    /// device reports.
    Mismatch,
}

/// The state of one ADS101x device: a mirror of its configuration register.
///
/// The owner of the bus handle performs the register transfers and hands the
/// words to this type, which decodes them.
pub struct ADS101x {
    config: Config,
}

impl ADS101x {
    /// The configuration that the device last reported.
    pub closed spec fn spec_current(&self) -> Config {
        self.config
    }

    /// The adapter for a device whose configuration register read `config_word`
    /// when it was opened.
    pub fn new(config_word: u16) -> (r: Self)
        ensures
            r.spec_current() == Config::decode(config_word),
    {
        ADS101x { config: Config::from(config_word) }
    }

    /// The configuration that the device last reported.
    pub fn current(&self) -> (r: Config)
        ensures
            r == self.spec_current(),
    {
        self.config
    }

    /// Takes in the read-back of the configuration register after `config` was
    /// written to it as `u16::from(config)`.
    ///
    /// The mirror follows the device, whatever it reports; a difference from
    /// what was written is told, and is no failure.
    pub fn config(&mut self, config: Config, readback: u16) -> (r: ConfigOutcome)
        ensures
            final(self).spec_current() == Config::decode(readback),
            r == ConfigOutcome::Confirmed <==> Config::decode(readback) == config,
            readback == config.encode() ==> r == ConfigOutcome::Confirmed,
    {
        proof {
            config_round_trip(config);
        }
        self.config = Config::from(readback);
        if self.config == config {
            ConfigOutcome::Confirmed
        } else {
            ConfigOutcome::Mismatch
        }
    }

    /// The voltage, in microvolts, that a transfer word of the conversion
    /// register stands for at the range now in effect.
    pub open spec fn voltage(&self, word: u16) -> int {
        sample_counts(word) * self.spec_current().pga.lsb()
    }

    /// Decodes a transfer word of the conversion register and scales it by the
    /// range now in effect. The result is in microvolts.
    pub fn read_raw(&self, word: u16) -> (r: i32)
        ensures
            r == self.voltage(word),
    {
        let counts: i16 = decode_raw_sample(word);
        let lsb: i32 = self.config.pga.lsb_microvolts();
        assert(-2048 * 3000 <= counts * lsb <= 2048 * 3000) by (nonlinear_arith)
            requires
                -2048 <= counts <= 2047,
                0 < lsb <= 3000,
        ;
        (counts as i32) * lsb
    }

    /// Decodes a transfer word of the conversion register and hands the
    /// voltage to a sensor's conversion.
    pub fn read<T: Sensor>(&self, word: u16, sensor: &T) -> (r: T::Output)
        ensures
            r == sensor.reading(self.voltage(word) as i32),
    {
        let voltage: i32 = self.read_raw(word);
        sensor.conversion(voltage)
    }
}

} // verus!
