//! The power-up sequence of converter unit 1.
//!
//! Each step is the list of register operations it stands for; the steps are
//! carried out in the order in which [`spec_power_up`] lists them, each on the
//! state the one before has left.

use vstd::prelude::*;
use crate::adc::ADC;
use crate::config::{AdcConfig, Attenuation, Resolution};
use crate::registers::{
    lemma_bit_replaces, lemma_run_concat, lemma_run_push, lemma_step_fits, lemma_write_replaces,
    run, spec_fits, step, Field, RegisterOp,
};

verus! {

/// Bit offset of the attenuation slot of `channel` in the packed register.
pub open spec fn slot_offset(channel: u8) -> u32 {
    (2 * channel) as u32
}

/// The operation that puts `attenuation` into the slot of `channel` and
/// leaves the other slots alone.
pub open spec fn spec_attenuation_op(channel: u8, attenuation: Attenuation) -> RegisterOp {
    RegisterOp {
        field: Field::Sar1Atten,
        mask: 0b11u32 << slot_offset(channel),
        bits: (attenuation.spec_code() as u32) << slot_offset(channel),
    }
}

/// Step 1: the resolution goes into both width fields.
pub open spec fn spec_set_resolution(resolution: Resolution) -> Seq<RegisterOp> {
    seq![
        RegisterOp::spec_write(Field::Sar1BitWidth, resolution.spec_code() as u32),
        RegisterOp::spec_write(Field::Sar1SampleBit, resolution.spec_code() as u32),
    ]
}

/// Step 2: one operation for each enabled channel, by rising channel index.
pub open spec fn spec_set_attenuation(attenuations: Seq<Option<Attenuation>>) -> Seq<RegisterOp>
    decreases attenuations.len(),
{
    if attenuations.len() == 0 {
        Seq::empty()
    } else {
        let before = spec_set_attenuation(attenuations.drop_last());
        match attenuations.last() {
            Some(attenuation) => before.push(
                spec_attenuation_op((attenuations.len() - 1) as u8, attenuation),
            ),
            None => before,
        }
    }
}

/// Step 3: control of the conversion goes from the digital controller to
/// software.
pub open spec fn spec_set_controller() -> Seq<RegisterOp> {
    seq![
        RegisterOp::spec_clear_bit(Field::Sar1DigForce),
        RegisterOp::spec_set_bit(Field::Meas1StartForce),
        RegisterOp::spec_set_bit(Field::Sar1EnPadForce),
        RegisterOp::spec_set_bit(Field::XpdHallForce),
        RegisterOp::spec_set_bit(Field::HallPhaseForce),
    ]
}

/// Step 4: the converter's power is forced on.
pub open spec fn spec_set_power() -> Seq<RegisterOp> {
    seq![RegisterOp::spec_write(Field::ForceXpdSar, 0b11)]
}

/// Step 5: the hall sensor is powered, or not.
pub open spec fn spec_set_hall(use_hall_sensor: bool) -> Seq<RegisterOp> {
    if use_hall_sensor {
        seq![RegisterOp::spec_set_bit(Field::RtcIoXpdHall)]
    } else {
        seq![RegisterOp::spec_clear_bit(Field::RtcIoXpdHall)]
    }
}

/// Step 6: the amplifier is switched off, its state machine disabled and its
/// wait counts set to the values the hardware asks for.
pub open spec fn spec_set_amp() -> Seq<RegisterOp> {
    seq![
        RegisterOp::spec_write(Field::ForceXpdAmp, 0b10),
        RegisterOp::spec_write(Field::AmpRstFbFsm, 0),
        RegisterOp::spec_write(Field::AmpShortRefFsm, 0),
        RegisterOp::spec_write(Field::AmpShortRefGndFsm, 0),
        RegisterOp::spec_write(Field::SarAmpWait1, 1),
        RegisterOp::spec_write(Field::SarAmpWait2, 1),
        RegisterOp::spec_write(Field::SarAmpWait3, 1),
    ]
}

/// The whole sequence for `config`, steps 1 to 6 in order.
pub open spec fn spec_power_up(config: AdcConfig) -> Seq<RegisterOp> {
    spec_set_resolution(config.resolution) + spec_set_attenuation(config.attenuations@)
        + spec_set_controller() + spec_set_power() + spec_set_hall(config.hall_sensor)
        + spec_set_amp()
}

/// The operation that puts `attenuation` into the slot of `channel` and
/// leaves the other slots alone.
pub fn attenuation_op(channel: u8, attenuation: Attenuation) -> (op: RegisterOp)
    requires
        channel < 16,
    ensures
        op == spec_attenuation_op(channel, attenuation),
        op.wf(),
{
    let offset: u32 = 2 * (channel as u32);
    let code: u32 = attenuation.code() as u32;
    let mask: u32 = 0b11u32 << offset;
    let bits: u32 = code << offset;
    assert(bits & !mask == 0 && mask & !0xffff_ffffu32 == 0) by (bit_vector)
        requires
            offset < 32,
            code <= 3,
            mask == 0b11u32 << offset,
            bits == code << offset,
    ;
    RegisterOp { field: Field::Sar1Atten, mask, bits }
}

impl ADC {
    /// Step 1: the resolution goes into both width fields.
    pub fn set_resolution(resolution: Resolution) -> (ops: Vec<RegisterOp>)
        ensures
            ops@ == spec_set_resolution(resolution),
    {
        let code: u32 = resolution.code() as u32;
        let mut ops: Vec<RegisterOp> = Vec::new();
        ops.push(RegisterOp::write(Field::Sar1BitWidth, code));
        ops.push(RegisterOp::write(Field::Sar1SampleBit, code));
        assert(ops@ =~= spec_set_resolution(resolution));
        ops
    }

    /// Step 2: one operation for each enabled channel, by rising channel
    /// index.
    pub fn set_attenuation(attenuations: [Option<Attenuation>; 10]) -> (ops: Vec<RegisterOp>)
        ensures
            ops@ == spec_set_attenuation(attenuations@),
    {
        let mut ops: Vec<RegisterOp> = Vec::new();
        let mut channel: usize = 0;
        while channel < 10
            invariant
                channel <= 10,
                ops@ == spec_set_attenuation(attenuations@.take(channel as int)),
            decreases 10 - channel,
        {
            assert(attenuations@.take(channel + 1).drop_last() =~= attenuations@.take(
                channel as int,
            ));
            if let Some(attenuation) = attenuations[channel] {
                ops.push(attenuation_op(channel as u8, attenuation));
            }
            channel += 1;
        }
        assert(attenuations@.take(10) =~= attenuations@);
        ops
    }

    /// Step 3: control of the conversion goes from the digital controller to
    /// software.
    pub fn set_controller() -> (ops: Vec<RegisterOp>)
        ensures
            ops@ == spec_set_controller(),
    {
        let mut ops: Vec<RegisterOp> = Vec::new();
        ops.push(RegisterOp::clear_bit(Field::Sar1DigForce));
        ops.push(RegisterOp::set_bit(Field::Meas1StartForce));
        ops.push(RegisterOp::set_bit(Field::Sar1EnPadForce));
        ops.push(RegisterOp::set_bit(Field::XpdHallForce));
        ops.push(RegisterOp::set_bit(Field::HallPhaseForce));
        assert(ops@ =~= spec_set_controller());
        ops
    }

    /// Step 4: the converter's power is forced on.
    pub fn set_power() -> (ops: Vec<RegisterOp>)
        ensures
            ops@ == spec_set_power(),
    {
        let mut ops: Vec<RegisterOp> = Vec::new();
        ops.push(RegisterOp::write(Field::ForceXpdSar, 0b11));
        assert(ops@ =~= spec_set_power());
        ops
    }

    /// Step 5: the hall sensor is powered, or not.
    pub fn set_hall(use_hall_sensor: bool) -> (ops: Vec<RegisterOp>)
        ensures
            ops@ == spec_set_hall(use_hall_sensor),
    {
        let mut ops: Vec<RegisterOp> = Vec::new();
        if use_hall_sensor {
            ops.push(RegisterOp::set_bit(Field::RtcIoXpdHall));
        } else {
            ops.push(RegisterOp::clear_bit(Field::RtcIoXpdHall));
        }
        assert(ops@ =~= spec_set_hall(use_hall_sensor));
        ops
    }

    /// Step 6: the amplifier is switched off, its state machine disabled and
    /// its wait counts set to the values the hardware asks for.
    pub fn set_amp() -> (ops: Vec<RegisterOp>)
        ensures
            ops@ == spec_set_amp(),
    {
        let mut ops: Vec<RegisterOp> = Vec::new();
        ops.push(RegisterOp::write(Field::ForceXpdAmp, 0b10));
        ops.push(RegisterOp::write(Field::AmpRstFbFsm, 0));
        ops.push(RegisterOp::write(Field::AmpShortRefFsm, 0));
        ops.push(RegisterOp::write(Field::AmpShortRefGndFsm, 0));
        ops.push(RegisterOp::write(Field::SarAmpWait1, 1));
        ops.push(RegisterOp::write(Field::SarAmpWait2, 1));
        ops.push(RegisterOp::write(Field::SarAmpWait3, 1));
        assert(ops@ =~= spec_set_amp());
        ops
    }

    /// The whole sequence for `config`, steps 1 to 6 in order.
    pub fn power_up(config: &AdcConfig) -> (ops: Vec<RegisterOp>)
        ensures
            ops@ == spec_power_up(*config),
    {
        let mut ops = ADC::set_resolution(config.resolution);
        let mut step = ADC::set_attenuation(config.attenuations);
        ops.append(&mut step);
        let mut step = ADC::set_controller();
        ops.append(&mut step);
        let mut step = ADC::set_power();
        ops.append(&mut step);
        let mut step = ADC::set_hall(config.hall_sensor);
        ops.append(&mut step);
        let mut step = ADC::set_amp();
        ops.append(&mut step);
        ops
    }
}

/// The attenuation code in the slot of `channel` of the packed register.
pub open spec fn spec_slot(word: u32, channel: u8) -> u32 {
    (word >> slot_offset(channel)) & 0b11
}

/// The attenuation operation of a channel puts the code into the slot of its
/// channel and leaves every other slot as it was.
pub proof fn lemma_attenuation_op_fills_its_slot(
    word: u32,
    channel: u8,
    attenuation: Attenuation,
    other: u8,
)
    requires
        channel < 16,
        other < 16,
    ensures
        spec_slot(spec_attenuation_op(channel, attenuation).spec_apply(word), other) == if other
            == channel {
            attenuation.spec_code() as u32
        } else {
            spec_slot(word, other)
        },
{
    let at = slot_offset(channel);
    let seen = slot_offset(other);
    let code = attenuation.spec_code() as u32;
    assert((((word & !(0b11u32 << at)) | (code << at)) >> seen) & 0b11 == if seen == at {
        code
    } else {
        (word >> seen) & 0b11
    }) by (bit_vector)
        requires
            at < 32,
            seen < 32,
            at % 2 == 0,
            seen % 2 == 0,
            code <= 3,
    ;
}

/// After step 2 the slot of every enabled channel holds the code of its
/// attenuation; the slots of the other channels and all other fields are as
/// they were.
pub proof fn lemma_set_attenuation_fills_slots(
    regs: Map<Field, u32>,
    attenuations: Seq<Option<Attenuation>>,
    channel: u8,
)
    requires
        attenuations.len() <= 16,
        channel < 16,
    ensures
        ({
            let after = run(regs, spec_set_attenuation(attenuations));
            &&& spec_slot(after[Field::Sar1Atten], channel) == match spec_enabled(
                attenuations,
                channel,
            ) {
                Some(attenuation) => attenuation.spec_code() as u32,
                None => spec_slot(regs[Field::Sar1Atten], channel),
            }
            &&& forall|field: Field| field != Field::Sar1Atten ==> after[field] == regs[field]
        }),
    decreases attenuations.len(),
{
    if attenuations.len() > 0 {
        let before = attenuations.drop_last();
        let last = (attenuations.len() - 1) as u8;
        lemma_set_attenuation_fills_slots(regs, before, channel);
        match attenuations.last() {
            Some(attenuation) => {
                let op = spec_attenuation_op(last, attenuation);
                lemma_run_push(regs, spec_set_attenuation(before), op);
                lemma_attenuation_op_fills_its_slot(
                    run(regs, spec_set_attenuation(before))[Field::Sar1Atten],
                    last,
                    attenuation,
                    channel,
                );
            },
            None => {},
        }
    }
}

/// The attenuation of `channel` in a table, if the table has a slot for the
/// channel and the slot is filled.
pub open spec fn spec_enabled(attenuations: Seq<Option<Attenuation>>, channel: u8) -> Option<
    Attenuation,
> {
    if channel < attenuations.len() {
        attenuations[channel as int]
    } else {
        None
    }
}

proof fn lemma_set_attenuation_fits(regs: Map<Field, u32>, attenuations: Seq<Option<Attenuation>>)
    requires
        spec_fits(regs),
        attenuations.len() <= 16,
    ensures
        spec_fits(run(regs, spec_set_attenuation(attenuations))),
    decreases attenuations.len(),
{
    if attenuations.len() > 0 {
        let before = attenuations.drop_last();
        lemma_set_attenuation_fits(regs, before);
        match attenuations.last() {
            Some(attenuation) => {
                let op = spec_attenuation_op((attenuations.len() - 1) as u8, attenuation);
                let at = slot_offset((attenuations.len() - 1) as u8);
                let code = attenuation.spec_code() as u32;
                assert((code << at) & !(0b11u32 << at) == 0 && (0b11u32 << at) & !0xffff_ffffu32
                    == 0) by (bit_vector)
                    requires
                        at < 32,
                        code <= 3,
                ;
                lemma_run_push(regs, spec_set_attenuation(before), op);
                lemma_step_fits(run(regs, spec_set_attenuation(before)), op);
            },
            None => {},
        }
    }
}

/// The register file after the power-up sequence for `config`, whatever it
/// held before: the fields the sequence writes hold the configuration, the
/// attenuation slots of the channels that are not enabled and the fields it
/// does not write are as they were.
pub proof fn lemma_power_up_configures(regs: Map<Field, u32>, config: AdcConfig, channel: u8)
    requires
        spec_fits(regs),
        channel < 10,
    ensures
        ({
            let after = run(regs, spec_power_up(config));
            &&& after[Field::Sar1BitWidth] == config.resolution.spec_code()
            &&& after[Field::Sar1SampleBit] == config.resolution.spec_code()
            &&& spec_slot(after[Field::Sar1Atten], channel) == match config.attenuations@[channel as int] {
                Some(attenuation) => attenuation.spec_code() as u32,
                None => spec_slot(regs[Field::Sar1Atten], channel),
            }
            &&& after[Field::Sar1DigForce] == 0
            &&& after[Field::Meas1StartForce] == 1
            &&& after[Field::Sar1EnPadForce] == 1
            &&& after[Field::XpdHallForce] == 1
            &&& after[Field::HallPhaseForce] == 1
            &&& after[Field::ForceXpdSar] == 0b11
            &&& after[Field::RtcIoXpdHall] == if config.hall_sensor {
                1u32
            } else {
                0u32
            }
            &&& after[Field::ForceXpdAmp] == 0b10
            &&& after[Field::AmpRstFbFsm] == 0
            &&& after[Field::AmpShortRefFsm] == 0
            &&& after[Field::AmpShortRefGndFsm] == 0
            &&& after[Field::SarAmpWait1] == 1
            &&& after[Field::SarAmpWait2] == 1
            &&& after[Field::SarAmpWait3] == 1
            &&& after[Field::Sar1EnPad] == regs[Field::Sar1EnPad]
            &&& after[Field::Meas1StartSar] == regs[Field::Meas1StartSar]
            &&& after[Field::RtcIoHallPhase] == regs[Field::RtcIoHallPhase]
        }),
{
    let code = config.resolution.spec_code() as u32;
    let empty = Seq::<RegisterOp>::empty();

    // Step 1.
    let s1 = spec_set_resolution(config.resolution);
    let w0 = RegisterOp::spec_write(Field::Sar1BitWidth, code);
    let w1 = RegisterOp::spec_write(Field::Sar1SampleBit, code);
    assert(s1 =~= empty.push(w0).push(w1));
    lemma_run_push(regs, empty, w0);
    lemma_run_push(regs, empty.push(w0), w1);
    lemma_write_replaces(Field::Sar1BitWidth, code, regs[Field::Sar1BitWidth]);
    lemma_write_replaces(Field::Sar1SampleBit, code, regs[Field::Sar1SampleBit]);
    assert(code & 0x3 == code) by (bit_vector)
        requires
            code <= 3,
    ;
    let r1 = run(regs, s1);
    assert(spec_fits(r1)) by {
        assert(code & 0x3 & !0x3u32 == 0 && 0x3u32 & !0x3u32 == 0) by (bit_vector);
        lemma_step_fits(regs, w0);
        lemma_step_fits(step(regs, w0), w1);
    }

    // Step 2.
    let s2 = spec_set_attenuation(config.attenuations@);
    lemma_set_attenuation_fills_slots(r1, config.attenuations@, channel);
    lemma_set_attenuation_fits(r1, config.attenuations@);
    let r2 = run(r1, s2);

    // Steps 3 to 6, operation by operation.
    let c0 = RegisterOp::spec_clear_bit(Field::Sar1DigForce);
    let c1 = RegisterOp::spec_set_bit(Field::Meas1StartForce);
    let c2 = RegisterOp::spec_set_bit(Field::Sar1EnPadForce);
    let c3 = RegisterOp::spec_set_bit(Field::XpdHallForce);
    let c4 = RegisterOp::spec_set_bit(Field::HallPhaseForce);
    let p0 = RegisterOp::spec_write(Field::ForceXpdSar, 0b11);
    let h0 = if config.hall_sensor {
        RegisterOp::spec_set_bit(Field::RtcIoXpdHall)
    } else {
        RegisterOp::spec_clear_bit(Field::RtcIoXpdHall)
    };
    let a0 = RegisterOp::spec_write(Field::ForceXpdAmp, 0b10);
    let a1 = RegisterOp::spec_write(Field::AmpRstFbFsm, 0);
    let a2 = RegisterOp::spec_write(Field::AmpShortRefFsm, 0);
    let a3 = RegisterOp::spec_write(Field::AmpShortRefGndFsm, 0);
    let a4 = RegisterOp::spec_write(Field::SarAmpWait1, 1);
    let a5 = RegisterOp::spec_write(Field::SarAmpWait2, 1);
    let a6 = RegisterOp::spec_write(Field::SarAmpWait3, 1);
    let rest = spec_set_controller() + spec_set_power() + spec_set_hall(config.hall_sensor)
        + spec_set_amp();
    let t1 = empty.push(c0);
    let t2 = t1.push(c1);
    let t3 = t2.push(c2);
    let t4 = t3.push(c3);
    let t5 = t4.push(c4);
    let t6 = t5.push(p0);
    let t7 = t6.push(h0);
    let t8 = t7.push(a0);
    let t9 = t8.push(a1);
    let t10 = t9.push(a2);
    let t11 = t10.push(a3);
    let t12 = t11.push(a4);
    let t13 = t12.push(a5);
    let t14 = t13.push(a6);
    assert(rest =~= t14);
    lemma_run_push(r2, empty, c0);
    lemma_run_push(r2, t1, c1);
    lemma_run_push(r2, t2, c2);
    lemma_run_push(r2, t3, c3);
    lemma_run_push(r2, t4, c4);
    lemma_run_push(r2, t5, p0);
    lemma_run_push(r2, t6, h0);
    lemma_run_push(r2, t7, a0);
    lemma_run_push(r2, t8, a1);
    lemma_run_push(r2, t9, a2);
    lemma_run_push(r2, t10, a3);
    lemma_run_push(r2, t11, a4);
    lemma_run_push(r2, t12, a5);
    lemma_run_push(r2, t13, a6);
    lemma_bit_replaces(Field::Sar1DigForce, r2[Field::Sar1DigForce]);
    lemma_bit_replaces(Field::Meas1StartForce, r2[Field::Meas1StartForce]);
    lemma_bit_replaces(Field::Sar1EnPadForce, r2[Field::Sar1EnPadForce]);
    lemma_bit_replaces(Field::XpdHallForce, r2[Field::XpdHallForce]);
    lemma_bit_replaces(Field::HallPhaseForce, r2[Field::HallPhaseForce]);
    lemma_bit_replaces(Field::RtcIoXpdHall, r2[Field::RtcIoXpdHall]);
    lemma_write_replaces(Field::ForceXpdSar, 0b11, r2[Field::ForceXpdSar]);
    lemma_write_replaces(Field::ForceXpdAmp, 0b10, r2[Field::ForceXpdAmp]);
    lemma_write_replaces(Field::AmpRstFbFsm, 0, r2[Field::AmpRstFbFsm]);
    lemma_write_replaces(Field::AmpShortRefFsm, 0, r2[Field::AmpShortRefFsm]);
    lemma_write_replaces(Field::AmpShortRefGndFsm, 0, r2[Field::AmpShortRefGndFsm]);
    lemma_write_replaces(Field::SarAmpWait1, 1, r2[Field::SarAmpWait1]);
    lemma_write_replaces(Field::SarAmpWait2, 1, r2[Field::SarAmpWait2]);
    lemma_write_replaces(Field::SarAmpWait3, 1, r2[Field::SarAmpWait3]);
    assert(0b11u32 & 0x3 == 0b11 && 0b10u32 & 0x3 == 0b10 && 0u32 & 0xf == 0 && 1u32 & 0xffff == 1)
        by (bit_vector);

    // The sequence is the three parts in order.
    assert(spec_power_up(config) =~= s1 + s2 + rest);
    lemma_run_concat(regs, s1, s2);
    lemma_run_concat(regs, s1 + s2, rest);
}

} // verus!
