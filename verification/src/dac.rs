//! The two digital-to-analog converters.
//!
//! A converter is powered once and then takes eight-bit values. As with the
//! rest of the driver core, the register operations are handed to the caller.

use vstd::prelude::*;
use crate::registers::{Field, RegisterOp};

verus! {

/// Names one of the two converters.
#[derive(Clone, Copy, PartialEq, Eq, Structural, Debug)]
pub enum DacUnit {
    /// The converter on pin 25.
    Dac1,
    /// The converter on pin 26.
    Dac2,
}

/// One of the two converters, powered.
#[derive(Clone, Copy, PartialEq, Eq, Structural, Debug)]
pub struct DAC {
    pub unit: DacUnit,
}

impl DacUnit {
    /// The operations that power the converter: its power is put under
    /// software control and switched on.
    pub open spec fn spec_set_power(self) -> Seq<RegisterOp> {
        match self {
            DacUnit::Dac1 => seq![
                RegisterOp::spec_set_bit(Field::Pdac1DacXpdForce),
                RegisterOp::spec_set_bit(Field::Pdac1XpdDac),
            ],
            DacUnit::Dac2 => seq![
                RegisterOp::spec_set_bit(Field::Pdac2DacXpdForce),
                RegisterOp::spec_set_bit(Field::Pdac2XpdDac),
            ],
        }
    }

    /// The operations that put `value` on the converter's output: its cosine
    /// generator is switched off, then the value is written.
    pub open spec fn spec_write(self, value: u8) -> Seq<RegisterOp> {
        match self {
            DacUnit::Dac1 => seq![
                RegisterOp::spec_clear_bit(Field::DacCwEn1),
                RegisterOp::spec_write(Field::Pdac1Dac, value as u32),
            ],
            DacUnit::Dac2 => seq![
                RegisterOp::spec_clear_bit(Field::DacCwEn2),
                RegisterOp::spec_write(Field::Pdac2Dac, value as u32),
            ],
        }
    }

    fn set_power(self) -> (ops: Vec<RegisterOp>)
        ensures
            ops@ == self.spec_set_power(),
    {
        let mut ops: Vec<RegisterOp> = Vec::new();
        match self {
            DacUnit::Dac1 => {
                ops.push(RegisterOp::set_bit(Field::Pdac1DacXpdForce));
                ops.push(RegisterOp::set_bit(Field::Pdac1XpdDac));
            },
            DacUnit::Dac2 => {
                ops.push(RegisterOp::set_bit(Field::Pdac2DacXpdForce));
                ops.push(RegisterOp::set_bit(Field::Pdac2XpdDac));
            },
        }
        assert(ops@ =~= self.spec_set_power());
        ops
    }

}

impl DAC {
    /// The first converter, with the operations that power it.
    pub fn dac1() -> (made: Result<(DAC, Vec<RegisterOp>), ()>)
        ensures
            made matches Ok((dac, ops)) && dac.unit == DacUnit::Dac1 && ops@
                == DacUnit::Dac1.spec_set_power(),
    {
        Ok((DAC { unit: DacUnit::Dac1 }, DacUnit::Dac1.set_power()))
    }

    /// The second converter, with the operations that power it.
    pub fn dac2() -> (made: Result<(DAC, Vec<RegisterOp>), ()>)
        ensures
            made matches Ok((dac, ops)) && dac.unit == DacUnit::Dac2 && ops@
                == DacUnit::Dac2.spec_set_power(),
    {
        Ok((DAC { unit: DacUnit::Dac2 }, DacUnit::Dac2.set_power()))
    }

    /// The operations that put `value` on the converter's output.
    pub fn write(&mut self, value: u8) -> (ops: Vec<RegisterOp>)
        ensures
            ops@ == old(self).unit.spec_write(value),
            *final(self) == *old(self),
    {
        let mut ops: Vec<RegisterOp> = Vec::new();
        match self.unit {
            DacUnit::Dac1 => {
                ops.push(RegisterOp::clear_bit(Field::DacCwEn1));
                ops.push(RegisterOp::write(Field::Pdac1Dac, value as u32));
            },
            DacUnit::Dac2 => {
                ops.push(RegisterOp::clear_bit(Field::DacCwEn2));
                ops.push(RegisterOp::write(Field::Pdac2Dac, value as u32));
            },
        }
        assert(ops@ =~= self.unit.spec_write(value));
        ops
    }
}

} // verus!
