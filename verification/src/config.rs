//! Settings of a converter unit: resolution, per-channel attenuation, and
//! whether the hall sensor is powered.

use vstd::prelude::*;
use crate::channel::Adc1Pin;

verus! {

/// Number of attenuation slots of a unit, one per channel index.
pub const SLOTS: usize = 10;

/// Width of a sample.
#[derive(Clone, Copy, PartialEq, Eq, Structural, Debug)]
pub enum Resolution {
    Resolution9Bit,
    Resolution10Bit,
    Resolution11Bit,
    Resolution12Bit,
}

/// Scaling of the input before it is converted.
#[derive(Clone, Copy, PartialEq, Eq, Structural, Debug)]
pub enum Attenuation {
    Attenuation0dB,
    Attenuation2p5dB,
    Attenuation6dB,
    Attenuation11dB,
}

impl Resolution {
    /// The two-bit code the hardware uses for this resolution.
    pub open spec fn spec_code(self) -> u8 {
        match self {
            Resolution::Resolution9Bit => 0,
            Resolution::Resolution10Bit => 1,
            Resolution::Resolution11Bit => 2,
            Resolution::Resolution12Bit => 3,
        }
    }

    /// Number of bits of a sample taken at this resolution.
    pub open spec fn spec_bits(self) -> u8 {
        (9 + self.spec_code()) as u8
    }

    /// The two-bit code the hardware uses for this resolution.
    pub fn code(self) -> (code: u8)
        ensures
            code == self.spec_code(),
            code <= 3,
    {
        match self {
            Resolution::Resolution9Bit => 0,
            Resolution::Resolution10Bit => 1,
            Resolution::Resolution11Bit => 2,
            Resolution::Resolution12Bit => 3,
        }
    }

    /// Number of bits of a sample taken at this resolution.
    pub fn bits(self) -> (bits: u8)
        ensures
            bits == self.spec_bits(),
            9 <= bits <= 12,
    {
        9 + self.code()
    }
}

impl Attenuation {
    /// The two-bit code the hardware uses for this attenuation.
    pub open spec fn spec_code(self) -> u8 {
        match self {
            Attenuation::Attenuation0dB => 0b00,
            Attenuation::Attenuation2p5dB => 0b01,
            Attenuation::Attenuation6dB => 0b10,
            Attenuation::Attenuation11dB => 0b11,
        }
    }

    /// The two-bit code the hardware uses for this attenuation.
    pub fn code(self) -> (code: u8)
        ensures
            code == self.spec_code(),
            code <= 3,
    {
        match self {
            Attenuation::Attenuation0dB => 0b00,
            Attenuation::Attenuation2p5dB => 0b01,
            Attenuation::Attenuation6dB => 0b10,
            Attenuation::Attenuation11dB => 0b11,
        }
    }
}

/// Conversion settings of a unit, with the channels named by their index.
///
/// A channel is enabled when its slot holds an attenuation.
#[derive(Clone, Copy, PartialEq, Eq, Debug)]
pub struct Config {
    pub resolution: Resolution,
    pub attenuations: [Option<Attenuation>; 10],
}

impl Config {
    /// Whether `channel` has a slot and the slot holds an attenuation.
    pub open spec fn spec_is_enabled(self, channel: u8) -> bool {
        channel < SLOTS && self.attenuations@[channel as int] is Some
    }

    /// Enables the channel with index `pin` at the given attenuation. A
    /// channel that was enabled before takes the new attenuation.
    pub fn enable_pin(&mut self, pin: u8, attenuation: Attenuation)
        requires
            pin < SLOTS,
        ensures
            final(self).attenuations@ == old(self).attenuations@.update(pin as int, Some(attenuation)),
            final(self).resolution == old(self).resolution,
            final(self).spec_is_enabled(pin),
    {
        self.attenuations[pin as usize] = Some(attenuation);
    }

    /// Whether `channel` has a slot and the slot holds an attenuation.
    pub fn is_enabled(&self, channel: u8) -> (enabled: bool)
        ensures
            enabled == self.spec_is_enabled(channel),
    {
        (channel as usize) < SLOTS && self.attenuations[channel as usize].is_some()
    }
}

impl Default for Config {
    /// Twelve-bit resolution and no channel enabled.
    fn default() -> (config: Config)
        ensures
            config.resolution == Resolution::Resolution12Bit,
            forall|slot: int| 0 <= slot < SLOTS ==> config.attenuations@[slot] is None,
            forall|channel: u8| !config.spec_is_enabled(channel),
    {
        Config { resolution: Resolution::Resolution12Bit, attenuations: [None;10] }
    }
}

/// Settings of unit 1, with the channels named by their pin.
#[derive(Clone, Copy, PartialEq, Eq, Debug)]
pub struct AdcConfig {
    pub resolution: Resolution,
    pub hall_sensor: bool,
    pub attenuations: [Option<Attenuation>; 10],
}

impl AdcConfig {
    /// The conversion settings, without the hall sensor flag.
    pub open spec fn spec_conversion(self) -> Config {
        Config { resolution: self.resolution, attenuations: self.attenuations }
    }

    /// Enables the channel `pin` is wired to at the given attenuation. A
    /// channel that was enabled before takes the new attenuation.
    pub fn enable_pin(&mut self, pin: Adc1Pin, attenuation: Attenuation)
        ensures
            final(self).attenuations@ == old(self).attenuations@.update(
                pin.spec_channel() as int,
                Some(attenuation),
            ),
            final(self).resolution == old(self).resolution,
            final(self).hall_sensor == old(self).hall_sensor,
            final(self).spec_conversion().spec_is_enabled(pin.spec_channel()),
    {
        self.attenuations[pin.channel() as usize] = Some(attenuation);
    }

    /// Asks for the hall sensor to be powered.
    pub fn enable_hall_sensor(&mut self)
        ensures
            final(self).hall_sensor,
            final(self).resolution == old(self).resolution,
            final(self).attenuations == old(self).attenuations,
    {
        self.hall_sensor = true;
    }

    /// Asks for the hall sensor to be left without power.
    pub fn disable_hall_sensor(&mut self)
        ensures
            !final(self).hall_sensor,
            final(self).resolution == old(self).resolution,
            final(self).attenuations == old(self).attenuations,
    {
        self.hall_sensor = false;
    }

    /// The conversion settings, without the hall sensor flag.
    pub fn conversion(&self) -> (config: Config)
        ensures
            config == self.spec_conversion(),
    {
        Config { resolution: self.resolution, attenuations: self.attenuations }
    }
}

impl Default for AdcConfig {
    /// Twelve-bit resolution, no channel enabled, hall sensor off.
    fn default() -> (config: AdcConfig)
        ensures
            config.resolution == Resolution::Resolution12Bit,
            !config.hall_sensor,
            forall|slot: int| 0 <= slot < SLOTS ==> config.attenuations@[slot] is None,
            forall|channel: u8| !config.spec_conversion().spec_is_enabled(channel),
    {
        AdcConfig {
            resolution: Resolution::Resolution12Bit,
            hall_sensor: false,
            attenuations: [None;10],
        }
    }
}

} // verus!
