//! Register operations of the analog subsystem, as plain data.
//!
//! The driver core never touches the hardware. It hands out [`RegisterOp`]
//! values, each a read-modify-write of one named field, and the caller carries
//! them out in the order given. A register file is modelled as a map from
//! [`Field`] to the field's current value, so that the effect of a sequence of
//! operations can be stated and proved.

use vstd::prelude::*;

verus! {

/// The register fields the driver core reads or writes.
#[derive(Clone, Copy, PartialEq, Eq, Structural, Debug)]
pub enum Field {
    /// Conversion width of unit 1 (`SENS.SAR_START_FORCE.SAR1_BIT_WIDTH`).
    Sar1BitWidth,
    /// Sample width of unit 1 (`SENS.SAR_READ_CTRL.SAR1_SAMPLE_BIT`).
    Sar1SampleBit,
    /// Packed per-channel attenuation of unit 1 (`SENS.SAR_ATTEN1.SAR1_ATTEN`).
    Sar1Atten,
    /// Unit 1 driven by the digital controller (`SENS.SAR_READ_CTRL.SAR1_DIG_FORCE`).
    Sar1DigForce,
    /// Conversion start under software control (`SENS.SAR_MEAS_START1.MEAS1_START_FORCE`).
    Meas1StartForce,
    /// Pad enable map under software control (`SENS.SAR_MEAS_START1.SAR1_EN_PAD_FORCE`).
    Sar1EnPadForce,
    /// Hall sensor power under software control (`SENS.SAR_TOUCH_CTRL1.XPD_HALL_FORCE`).
    XpdHallForce,
    /// Hall sensor phase under software control (`SENS.SAR_TOUCH_CTRL1.HALL_PHASE_FORCE`).
    HallPhaseForce,
    /// Power override of the converter (`SENS.SAR_MEAS_WAIT2.FORCE_XPD_SAR`).
    ForceXpdSar,
    /// Power override of the amplifier (`SENS.SAR_MEAS_WAIT2.FORCE_XPD_AMP`).
    ForceXpdAmp,
    /// Amplifier state machine, feedback reset (`SENS.SAR_MEAS_CTRL.AMP_RST_FB_FSM`).
    AmpRstFbFsm,
    /// Amplifier state machine, reference short (`SENS.SAR_MEAS_CTRL.AMP_SHORT_REF_FSM`).
    AmpShortRefFsm,
    /// Amplifier state machine, ground short (`SENS.SAR_MEAS_CTRL.AMP_SHORT_REF_GND_FSM`).
    AmpShortRefGndFsm,
    /// First amplifier wait count (`SENS.SAR_MEAS_WAIT1.SAR_AMP_WAIT1`).
    SarAmpWait1,
    /// Second amplifier wait count (`SENS.SAR_MEAS_WAIT1.SAR_AMP_WAIT2`).
    SarAmpWait2,
    /// Third amplifier wait count (`SENS.SAR_MEAS_WAIT2.SAR_AMP_WAIT3`).
    SarAmpWait3,
    /// Pad enable map of unit 1 (`SENS.SAR_MEAS_START1.SAR1_EN_PAD`).
    Sar1EnPad,
    /// Conversion start of unit 1 (`SENS.SAR_MEAS_START1.MEAS1_START_SAR`).
    Meas1StartSar,
    /// Hall sensor power (`RTC_IO.HALL_SENS.XPD_HALL`).
    RtcIoXpdHall,
    /// Hall sensor phase (`RTC_IO.HALL_SENS.HALL_PHASE`).
    RtcIoHallPhase,
    /// Cosine generator of DAC 1 (`SENS.SAR_DAC_CTRL2.DAC_CW_EN1`).
    DacCwEn1,
    /// Cosine generator of DAC 2 (`SENS.SAR_DAC_CTRL2.DAC_CW_EN2`).
    DacCwEn2,
    /// DAC 1 power under software control (`RTC_IO.PAD_DAC1.PDAC1_DAC_XPD_FORCE`).
    Pdac1DacXpdForce,
    /// DAC 1 power (`RTC_IO.PAD_DAC1.PDAC1_XPD_DAC`).
    Pdac1XpdDac,
    /// DAC 1 output value (`RTC_IO.PAD_DAC1.PDAC1_DAC`).
    Pdac1Dac,
    /// DAC 2 power under software control (`RTC_IO.PAD_DAC2.PDAC2_DAC_XPD_FORCE`).
    Pdac2DacXpdForce,
    /// DAC 2 power (`RTC_IO.PAD_DAC2.PDAC2_XPD_DAC`).
    Pdac2XpdDac,
    /// DAC 2 output value (`RTC_IO.PAD_DAC2.PDAC2_DAC`).
    Pdac2Dac,
}

impl Field {
    /// The bits a value of this field can have set.
    pub open spec fn spec_mask(self) -> u32 {
        match self {
            Field::Sar1Atten => 0xffff_ffff,
            Field::SarAmpWait1 | Field::SarAmpWait2 | Field::SarAmpWait3 => 0xffff,
            Field::Sar1EnPad => 0xfff,
            Field::Pdac1Dac | Field::Pdac2Dac => 0xff,
            Field::AmpRstFbFsm | Field::AmpShortRefFsm | Field::AmpShortRefGndFsm => 0xf,
            Field::Sar1BitWidth | Field::Sar1SampleBit | Field::ForceXpdSar | Field::ForceXpdAmp => 0x3,
            _ => 0x1,
        }
    }

    /// The bits a value of this field can have set.
    pub fn mask(self) -> (m: u32)
        ensures
            m == self.spec_mask(),
    {
        match self {
            Field::Sar1Atten => 0xffff_ffff,
            Field::SarAmpWait1 | Field::SarAmpWait2 | Field::SarAmpWait3 => 0xffff,
            Field::Sar1EnPad => 0xfff,
            Field::Pdac1Dac | Field::Pdac2Dac => 0xff,
            Field::AmpRstFbFsm | Field::AmpShortRefFsm | Field::AmpShortRefGndFsm => 0xf,
            Field::Sar1BitWidth | Field::Sar1SampleBit | Field::ForceXpdSar | Field::ForceXpdAmp => 0x3,
            _ => 0x1,
        }
    }
}

/// A read-modify-write of one field: the bits under `mask` are replaced by
/// `bits`, the others keep their value.
#[derive(Clone, Copy, PartialEq, Eq, Structural, Debug)]
pub struct RegisterOp {
    pub field: Field,
    pub mask: u32,
    pub bits: u32,
}

impl RegisterOp {
    /// The operation stays inside its field and sets no bit outside its mask.
    pub open spec fn wf(self) -> bool {
        &&& self.mask & !self.field.spec_mask() == 0
        &&& self.bits & !self.mask == 0
    }

    /// The operation that overwrites the whole of `field` with `value`,
    /// cut down to the field's width.
    pub open spec fn spec_write(field: Field, value: u32) -> RegisterOp {
        RegisterOp { field, mask: field.spec_mask(), bits: value & field.spec_mask() }
    }

    /// The operation that sets the lowest bit of `field`.
    pub open spec fn spec_set_bit(field: Field) -> RegisterOp {
        RegisterOp { field, mask: 1, bits: 1 }
    }

    /// The operation that clears the lowest bit of `field`.
    pub open spec fn spec_clear_bit(field: Field) -> RegisterOp {
        RegisterOp { field, mask: 1, bits: 0 }
    }

    /// The field's value after the operation, given its value before.
    pub open spec fn spec_apply(self, old_value: u32) -> u32 {
        (old_value & !self.mask) | self.bits
    }

    /// Overwrites the whole of `field` with `value`, cut down to the
    /// field's width.
    pub fn write(field: Field, value: u32) -> (op: RegisterOp)
        ensures
            op == Self::spec_write(field, value),
            op.wf(),
    {
        let mask = field.mask();
        let bits = value & mask;
        assert(mask & !mask == 0 && bits & !mask == 0) by (bit_vector)
            requires
                bits == value & mask,
        ;
        RegisterOp { field, mask, bits }
    }

    /// Sets the lowest bit of `field`.
    pub fn set_bit(field: Field) -> (op: RegisterOp)
        ensures
            op == Self::spec_set_bit(field),
            op.wf(),
    {
        let mask = field.mask();
        assert(mask & 1 == 1 ==> 1u32 & !mask == 0) by (bit_vector);
        assert(1u32 & !1u32 == 0) by (bit_vector);
        assert(mask & 1 == 1) by (bit_vector)
            requires
                mask == 0xffff_ffffu32 || mask == 0xffffu32 || mask == 0xfffu32 || mask == 0xffu32
                    || mask == 0xfu32 || mask == 0x3u32 || mask == 0x1u32,
        ;
        RegisterOp { field, mask: 1, bits: 1 }
    }

    /// Clears the lowest bit of `field`.
    pub fn clear_bit(field: Field) -> (op: RegisterOp)
        ensures
            op == Self::spec_clear_bit(field),
            op.wf(),
    {
        let mask = field.mask();
        assert(mask & 1 == 1 ==> 1u32 & !mask == 0) by (bit_vector);
        assert(0u32 & !1u32 == 0) by (bit_vector);
        assert(mask & 1 == 1) by (bit_vector)
            requires
                mask == 0xffff_ffffu32 || mask == 0xffffu32 || mask == 0xfffu32 || mask == 0xffu32
                    || mask == 0xfu32 || mask == 0x3u32 || mask == 0x1u32,
        ;
        RegisterOp { field, mask: 1, bits: 0 }
    }

    /// The field's value after the operation, given its value before.
    pub fn apply(&self, old_value: u32) -> (new_value: u32)
        ensures
            new_value == self.spec_apply(old_value),
    {
        (old_value & !self.mask) | self.bits
    }
}

/// The register file after `op`, given the register file before.
pub open spec fn step(regs: Map<Field, u32>, op: RegisterOp) -> Map<Field, u32> {
    regs.insert(op.field, op.spec_apply(regs[op.field]))
}

/// The register file after the operations of `ops` in order.
pub open spec fn run(regs: Map<Field, u32>, ops: Seq<RegisterOp>) -> Map<Field, u32>
    decreases ops.len(),
{
    if ops.len() == 0 {
        regs
    } else {
        step(run(regs, ops.drop_last()), ops.last())
    }
}

/// Running `ops` and then `more` is running their concatenation.
pub proof fn lemma_run_concat(regs: Map<Field, u32>, ops: Seq<RegisterOp>, more: Seq<RegisterOp>)
    ensures
        run(regs, ops + more) == run(run(regs, ops), more),
    decreases more.len(),
{
    if more.len() == 0 {
        assert(ops + more =~= ops);
    } else {
        assert((ops + more).drop_last() =~= ops + more.drop_last());
        lemma_run_concat(regs, ops, more.drop_last());
    }
}

/// Running `ops` and then `op` is running `ops` with `op` added at the end.
pub proof fn lemma_run_push(regs: Map<Field, u32>, ops: Seq<RegisterOp>, op: RegisterOp)
    ensures
        run(regs, ops.push(op)) == step(run(regs, ops), op),
{
    assert(ops.push(op).drop_last() =~= ops);
}

/// Every field of the register file holds a value that fits the field.
pub open spec fn spec_fits(regs: Map<Field, u32>) -> bool {
    forall|field: Field| (#[trigger] regs[field]) & !field.spec_mask() == 0
}

/// An operation that stays inside its field leaves a register file whose
/// values fit their fields, provided they did before.
pub proof fn lemma_step_fits(regs: Map<Field, u32>, op: RegisterOp)
    requires
        op.wf(),
        spec_fits(regs),
    ensures
        spec_fits(step(regs, op)),
{
    let mask = op.mask;
    let bits = op.bits;
    let full = op.field.spec_mask();
    let old_value = regs[op.field];
    assert(((old_value & !mask) | bits) & !full == 0) by (bit_vector)
        requires
            mask & !full == 0,
            bits & !mask == 0,
            old_value & !full == 0,
    ;
    assert forall|field: Field| (#[trigger] step(regs, op)[field]) & !field.spec_mask() == 0 by {
        if field != op.field {
            assert(step(regs, op)[field] == regs[field]);
        }
    }
}

/// Overwriting a field that held a fitting value leaves the new value, cut
/// down to the field's width.
pub proof fn lemma_write_replaces(field: Field, value: u32, old_value: u32)
    requires
        old_value & !field.spec_mask() == 0,
    ensures
        RegisterOp::spec_write(field, value).spec_apply(old_value) == value & field.spec_mask(),
{
    let mask = field.spec_mask();
    assert((old_value & !mask) | (value & mask) == value & mask) by (bit_vector)
        requires
            old_value & !mask == 0,
    ;
}

/// Setting or clearing the lowest bit of a one-bit field that held a fitting
/// value leaves one or zero.
pub proof fn lemma_bit_replaces(field: Field, old_value: u32)
    requires
        field.spec_mask() == 1,
        old_value & !field.spec_mask() == 0,
    ensures
        RegisterOp::spec_set_bit(field).spec_apply(old_value) == 1,
        RegisterOp::spec_clear_bit(field).spec_apply(old_value) == 0,
{
    assert((old_value & !1u32) | 1u32 == 1 && (old_value & !1u32) | 0u32 == 0) by (bit_vector)
        requires
            old_value & !1u32 == 0,
    ;
}

} // verus!
