//! Which pin is wired to which channel of which converter unit.
//!
//! The wiring is fixed by the chip. Each unit has its own pin type, so a pin
//! that is not wired to a unit cannot be named where that unit's channel is
//! asked for.

use vstd::prelude::*;

verus! {

/// Converter unit 1, with eight channels.
#[derive(Clone, Copy, PartialEq, Eq, Structural, Debug)]
pub struct ADC1;

/// Converter unit 2, with ten channels.
#[derive(Clone, Copy, PartialEq, Eq, Structural, Debug)]
pub struct ADC2;

/// The pins wired to unit 1.
#[derive(Clone, Copy, PartialEq, Eq, Structural, Debug)]
pub enum Adc1Pin {
    /// `SENSOR_VP`
    Gpio36,
    /// `SENSOR_CAPP`
    Gpio37,
    /// `SENSOR_CAPN`
    Gpio38,
    /// `SENSOR_VN`
    Gpio39,
    /// `32K_XP`
    Gpio33,
    /// `32K_XN`
    Gpio32,
    /// `VDET_1`
    Gpio34,
    /// `VDET_2`
    Gpio35,
}

/// The pins wired to unit 2.
#[derive(Clone, Copy, PartialEq, Eq, Structural, Debug)]
pub enum Adc2Pin {
    Gpio4,
    Gpio0,
    Gpio2,
    /// `MTDO`
    Gpio15,
    /// `MTCK`
    Gpio13,
    /// `MTDI`
    Gpio12,
    /// `MTMS`
    Gpio14,
    Gpio27,
    Gpio25,
    Gpio26,
}

impl Adc1Pin {
    /// The channel of unit 1 this pin is wired to.
    pub open spec fn spec_channel(self) -> u8 {
        match self {
            Adc1Pin::Gpio36 => 0,
            Adc1Pin::Gpio37 => 1,
            Adc1Pin::Gpio38 => 2,
            Adc1Pin::Gpio39 => 3,
            Adc1Pin::Gpio33 => 4,
            Adc1Pin::Gpio32 => 5,
            Adc1Pin::Gpio34 => 6,
            Adc1Pin::Gpio35 => 7,
        }
    }

    /// The number of the pin.
    pub open spec fn spec_gpio(self) -> u8 {
        match self {
            Adc1Pin::Gpio36 => 36,
            Adc1Pin::Gpio37 => 37,
            Adc1Pin::Gpio38 => 38,
            Adc1Pin::Gpio39 => 39,
            Adc1Pin::Gpio33 => 33,
            Adc1Pin::Gpio32 => 32,
            Adc1Pin::Gpio34 => 34,
            Adc1Pin::Gpio35 => 35,
        }
    }

    /// The channel of unit 1 this pin is wired to.
    pub fn channel(self) -> (channel: u8)
        ensures
            channel == self.spec_channel(),
            channel < ADC1::CHANNELS,
    {
        match self {
            Adc1Pin::Gpio36 => 0,
            Adc1Pin::Gpio37 => 1,
            Adc1Pin::Gpio38 => 2,
            Adc1Pin::Gpio39 => 3,
            Adc1Pin::Gpio33 => 4,
            Adc1Pin::Gpio32 => 5,
            Adc1Pin::Gpio34 => 6,
            Adc1Pin::Gpio35 => 7,
        }
    }

    /// The number of the pin.
    pub fn gpio(self) -> (gpio: u8)
        ensures
            gpio == self.spec_gpio(),
    {
        match self {
            Adc1Pin::Gpio36 => 36,
            Adc1Pin::Gpio37 => 37,
            Adc1Pin::Gpio38 => 38,
            Adc1Pin::Gpio39 => 39,
            Adc1Pin::Gpio33 => 33,
            Adc1Pin::Gpio32 => 32,
            Adc1Pin::Gpio34 => 34,
            Adc1Pin::Gpio35 => 35,
        }
    }
}

impl Adc2Pin {
    /// The channel of unit 2 this pin is wired to.
    pub open spec fn spec_channel(self) -> u8 {
        match self {
            Adc2Pin::Gpio4 => 0,
            Adc2Pin::Gpio0 => 1,
            Adc2Pin::Gpio2 => 2,
            Adc2Pin::Gpio15 => 3,
            Adc2Pin::Gpio13 => 4,
            Adc2Pin::Gpio12 => 5,
            Adc2Pin::Gpio14 => 6,
            Adc2Pin::Gpio27 => 7,
            Adc2Pin::Gpio25 => 8,
            Adc2Pin::Gpio26 => 9,
        }
    }

    /// The number of the pin.
    pub open spec fn spec_gpio(self) -> u8 {
        match self {
            Adc2Pin::Gpio4 => 4,
            Adc2Pin::Gpio0 => 0,
            Adc2Pin::Gpio2 => 2,
            Adc2Pin::Gpio15 => 15,
            Adc2Pin::Gpio13 => 13,
            Adc2Pin::Gpio12 => 12,
            Adc2Pin::Gpio14 => 14,
            Adc2Pin::Gpio27 => 27,
            Adc2Pin::Gpio25 => 25,
            Adc2Pin::Gpio26 => 26,
        }
    }

    /// The channel of unit 2 this pin is wired to.
    pub fn channel(self) -> (channel: u8)
        ensures
            channel == self.spec_channel(),
            channel < ADC2::CHANNELS,
    {
        match self {
            Adc2Pin::Gpio4 => 0,
            Adc2Pin::Gpio0 => 1,
            Adc2Pin::Gpio2 => 2,
            Adc2Pin::Gpio15 => 3,
            Adc2Pin::Gpio13 => 4,
            Adc2Pin::Gpio12 => 5,
            Adc2Pin::Gpio14 => 6,
            Adc2Pin::Gpio27 => 7,
            Adc2Pin::Gpio25 => 8,
            Adc2Pin::Gpio26 => 9,
        }
    }

    /// The number of the pin.
    pub fn gpio(self) -> (gpio: u8)
        ensures
            gpio == self.spec_gpio(),
    {
        match self {
            Adc2Pin::Gpio4 => 4,
            Adc2Pin::Gpio0 => 0,
            Adc2Pin::Gpio2 => 2,
            Adc2Pin::Gpio15 => 15,
            Adc2Pin::Gpio13 => 13,
            Adc2Pin::Gpio12 => 12,
            Adc2Pin::Gpio14 => 14,
            Adc2Pin::Gpio27 => 27,
            Adc2Pin::Gpio25 => 25,
            Adc2Pin::Gpio26 => 26,
        }
    }
}

impl ADC1 {
    /// Number of channels of the unit.
    pub const CHANNELS: u8 = 8;

    /// The pin with number `gpio`, if it is wired to this unit.
    pub fn pin(gpio: u8) -> (pin: Option<Adc1Pin>)
        ensures
            match pin {
                Some(p) => p.spec_gpio() == gpio,
                None => forall|p: Adc1Pin| p.spec_gpio() != gpio,
            },
    {
        match gpio {
            36 => Some(Adc1Pin::Gpio36),
            37 => Some(Adc1Pin::Gpio37),
            38 => Some(Adc1Pin::Gpio38),
            39 => Some(Adc1Pin::Gpio39),
            33 => Some(Adc1Pin::Gpio33),
            32 => Some(Adc1Pin::Gpio32),
            34 => Some(Adc1Pin::Gpio34),
            35 => Some(Adc1Pin::Gpio35),
            _ => None,
        }
    }
}

impl ADC2 {
    /// Number of channels of the unit.
    pub const CHANNELS: u8 = 10;

    /// The pin with number `gpio`, if it is wired to this unit.
    pub fn pin(gpio: u8) -> (pin: Option<Adc2Pin>)
        ensures
            match pin {
                Some(p) => p.spec_gpio() == gpio,
                None => forall|p: Adc2Pin| p.spec_gpio() != gpio,
            },
    {
        match gpio {
            4 => Some(Adc2Pin::Gpio4),
            0 => Some(Adc2Pin::Gpio0),
            2 => Some(Adc2Pin::Gpio2),
            15 => Some(Adc2Pin::Gpio15),
            13 => Some(Adc2Pin::Gpio13),
            12 => Some(Adc2Pin::Gpio12),
            14 => Some(Adc2Pin::Gpio14),
            27 => Some(Adc2Pin::Gpio27),
            25 => Some(Adc2Pin::Gpio25),
            26 => Some(Adc2Pin::Gpio26),
            _ => None,
        }
    }
}

/// No two pins of unit 1 share a channel or a number, and every pin has a
/// channel of the unit.
pub proof fn lemma_adc1_wiring()
    ensures
        forall|p: Adc1Pin, q: Adc1Pin| p.spec_channel() == q.spec_channel() ==> p == q,
        forall|p: Adc1Pin, q: Adc1Pin| p.spec_gpio() == q.spec_gpio() ==> p == q,
        forall|p: Adc1Pin| #[trigger] p.spec_channel() < ADC1::CHANNELS,
{
}

/// No two pins of unit 2 share a channel or a number, and every pin has a
/// channel of the unit.
pub proof fn lemma_adc2_wiring()
    ensures
        forall|p: Adc2Pin, q: Adc2Pin| p.spec_channel() == q.spec_channel() ==> p == q,
        forall|p: Adc2Pin, q: Adc2Pin| p.spec_gpio() == q.spec_gpio() ==> p == q,
        forall|p: Adc2Pin| #[trigger] p.spec_channel() < ADC2::CHANNELS,
{
}

} // verus!
