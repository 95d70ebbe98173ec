//! Verified core of a driver layer for the ESP32 analog subsystem.
//!
//! The crate holds everything the driver decides or computes: which register
//! fields are written during power-up and in which order, how the one-shot
//! conversion engine shares one converter between channels without ever
//! blocking, and how the factory calibration constants are decoded from the
//! fuse block. Touching the hardware itself is left to the caller, who
//! performs the register operations this crate hands out.

pub mod adc;
pub mod channel;
pub mod config;
pub mod dac;
pub mod efuse;
pub mod hall;
pub mod lock;
pub mod power_up;
pub mod protocol;
pub mod registers;
