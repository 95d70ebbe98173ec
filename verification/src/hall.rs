//! The differential reading of the hall sensor.
//!
//! A reading takes four samples in a fixed order: pin VP then pin VN with the
//! sensor's phase bit cleared, then VP and VN again with the bit set. Each
//! read is tried again until it gives a sample. The loop is the caller's;
//! [`HallReading`] keeps the place in the sequence and says what comes next.

use vstd::prelude::*;
use crate::adc::{AdcError, ReadError, ADC};
use crate::channel::Adc1Pin;
use crate::registers::{Field, RegisterOp};

verus! {

/// Number of samples of a reading.
pub const SAMPLES: usize = 4;

/// A differential reading under way: the samples taken so far, named by the
/// read that is due.
#[derive(Clone, Copy, PartialEq, Eq, Structural, Debug)]
pub enum HallReading {
    /// Nothing taken; VP is due, phase bit cleared.
    FirstVp,
    /// VN is due, phase bit cleared.
    FirstVn(u16),
    /// VP is due, phase bit set.
    SecondVp(u16, u16),
    /// VN is due, phase bit set.
    SecondVn(u16, u16, u16),
    /// All four samples taken.
    Complete(u16, u16, u16, u16),
}

/// What the caller of a differential reading does next.
#[derive(Debug)]
pub enum HallStep {
    /// Carry out the operations, then read the pin that is due.
    Read(Vec<RegisterOp>),
    /// The reading is complete; this is its value.
    Done(i32),
    /// A read was refused for good; the reading stays where it is.
    Failed(AdcError),
}

/// The value of a reading with the samples `vp1`, `vn1`, `vp2` and `vn2`,
/// taken in that order.
pub open spec fn spec_hall_value(vp1: u16, vn1: u16, vp2: u16, vn2: u16) -> int {
    (vp2 - vp1) - (vn2 - vn1)
}

/// The pin whose sample comes after `taken` samples: VP for the first and
/// the third, VN for the second and the fourth, none after that.
pub open spec fn spec_hall_pin(taken: nat) -> Option<Adc1Pin> {
    if taken == 0 || taken == 2 {
        Some(Adc1Pin::Gpio36)
    } else if taken == 1 || taken == 3 {
        Some(Adc1Pin::Gpio39)
    } else {
        None
    }
}

/// The samples taken once a read has brought `outcome`: a sample is added
/// while the reading is short of four, and nothing else changes anything.
pub open spec fn spec_hall_taken(taken: Seq<u16>, outcome: Result<u16, ReadError>) -> Seq<u16> {
    match outcome {
        Ok(sample) if taken.len() < SAMPLES => taken.push(sample),
        _ => taken,
    }
}

/// What comes next once a read has brought `outcome` and `taken` holds the
/// samples taken with it: a refusal is passed on; a complete reading gives
/// its value; the phase bit is set for the second pair of reads, once, with
/// the sample that completes the first pair.
pub open spec fn spec_hall_step(taken: Seq<u16>, outcome: Result<u16, ReadError>) -> (
    Seq<RegisterOp>,
    Option<int>,
    Option<AdcError>,
) {
    match outcome {
        Err(ReadError::Other(error)) => (Seq::empty(), None, Some(error)),
        _ => if taken.len() >= SAMPLES {
            (Seq::empty(), Some(spec_hall_value(taken[0], taken[1], taken[2], taken[3])), None)
        } else if outcome is Ok && taken.len() == 2 {
            (seq![RegisterOp::spec_set_bit(Field::RtcIoHallPhase)], None, None)
        } else {
            (Seq::empty(), None, None)
        },
    }
}

/// A step as its parts: the operations to carry out, the value of the
/// reading, the refusal.
pub open spec fn spec_hall_parts(step: HallStep) -> (Seq<RegisterOp>, Option<int>, Option<AdcError>) {
    match step {
        HallStep::Read(ops) => (ops@, None, None),
        HallStep::Done(value) => (Seq::empty(), Some(value as int), None),
        HallStep::Failed(error) => (Seq::empty(), None, Some(error)),
    }
}

impl View for HallReading {
    type V = Seq<u16>;

    /// The samples taken so far, in the order taken.
    open spec fn view(&self) -> Seq<u16> {
        match *self {
            HallReading::FirstVp => Seq::empty(),
            HallReading::FirstVn(vp1) => seq![vp1],
            HallReading::SecondVp(vp1, vn1) => seq![vp1, vn1],
            HallReading::SecondVn(vp1, vn1, vp2) => seq![vp1, vn1, vp2],
            HallReading::Complete(vp1, vn1, vp2, vn2) => seq![vp1, vn1, vp2, vn2],
        }
    }
}

impl HallReading {
    /// The pin to read next, none once the reading is complete.
    pub fn pin(&self) -> (pin: Option<Adc1Pin>)
        ensures
            pin == spec_hall_pin(self@.len()),
    {
        match self {
            HallReading::FirstVp | HallReading::SecondVp(_, _) => Some(Adc1Pin::Gpio36),
            HallReading::FirstVn(_) | HallReading::SecondVn(_, _, _) => Some(Adc1Pin::Gpio39),
            HallReading::Complete(_, _, _, _) => None,
        }
    }

    /// The value of the reading, once it is complete.
    pub fn value(&self) -> (value: Option<i32>)
        ensures
            self@.len() <= SAMPLES,
            match value {
                Some(v) => self@.len() == SAMPLES && v == spec_hall_value(
                    self@[0],
                    self@[1],
                    self@[2],
                    self@[3],
                ),
                None => self@.len() < SAMPLES,
            },
    {
        match self {
            HallReading::Complete(vp1, vn1, vp2, vn2) => Some(
                ADC::hall_value(*vp1, *vn1, *vp2, *vn2),
            ),
            _ => None,
        }
    }

    /// Takes the outcome of the read of the pin that was due and says what
    /// comes next. A read that would block is simply due again.
    pub fn feed(&mut self, outcome: Result<u16, ReadError>) -> (step: HallStep)
        ensures
            final(self)@ == spec_hall_taken(old(self)@, outcome),
            spec_hall_parts(step) == spec_hall_step(final(self)@, outcome),
    {
        match outcome {
            Err(ReadError::Other(error)) => HallStep::Failed(error),
            Err(ReadError::WouldBlock) => match self.value() {
                Some(value) => HallStep::Done(value),
                None => HallStep::Read(Vec::new()),
            },
            Ok(sample) => {
                let before = *self;
                *self = match before {
                    HallReading::FirstVp => HallReading::FirstVn(sample),
                    HallReading::FirstVn(vp1) => HallReading::SecondVp(vp1, sample),
                    HallReading::SecondVp(vp1, vn1) => HallReading::SecondVn(vp1, vn1, sample),
                    HallReading::SecondVn(vp1, vn1, vp2) => HallReading::Complete(
                        vp1,
                        vn1,
                        vp2,
                        sample,
                    ),
                    HallReading::Complete(_, _, _, _) => before,
                };
                assert(self@ =~= spec_hall_taken(before@, outcome));
                match self.value() {
                    Some(value) => HallStep::Done(value),
                    None => {
                        let mut ops: Vec<RegisterOp> = Vec::new();
                        if let HallReading::SecondVp(_, _) = self {
                            ops.push(RegisterOp::set_bit(Field::RtcIoHallPhase));
                            assert(ops@ =~= seq![RegisterOp::spec_set_bit(Field::RtcIoHallPhase)]);
                        }
                        HallStep::Read(ops)
                    },
                }
            },
        }
    }
}

impl ADC {
    /// The value of a reading with the samples `vp1`, `vn1`, `vp2` and `vn2`,
    /// taken in that order.
    pub fn hall_value(vp1: u16, vn1: u16, vp2: u16, vn2: u16) -> (value: i32)
        ensures
            value == spec_hall_value(vp1, vn1, vp2, vn2),
    {
        (vp2 as i32 - vp1 as i32) - (vn2 as i32 - vn1 as i32)
    }

    /// Opens a differential reading of the hall sensor: no sample taken, and
    /// the operation that clears the phase bit for the first pair of reads.
    pub fn read_hall_sensor(&self) -> (opened: (HallReading, Vec<RegisterOp>))
        ensures
            opened.0@ == Seq::<u16>::empty(),
            opened.1@ == seq![RegisterOp::spec_clear_bit(Field::RtcIoHallPhase)],
    {
        let mut ops: Vec<RegisterOp> = Vec::new();
        ops.push(RegisterOp::clear_bit(Field::RtcIoHallPhase));
        assert(ops@ =~= seq![RegisterOp::spec_clear_bit(Field::RtcIoHallPhase)]);
        (HallReading::FirstVp, ops)
    }
}

/// The samples taken by a reading that started with none, once its reads
/// have brought `outcomes` in turn.
pub open spec fn spec_hall_run(outcomes: Seq<Result<u16, ReadError>>) -> Seq<u16>
    decreases outcomes.len(),
{
    if outcomes.len() == 0 {
        Seq::empty()
    } else {
        spec_hall_taken(spec_hall_run(outcomes.drop_last()), outcomes.last())
    }
}

/// The samples among `outcomes`, in the order they came.
pub open spec fn spec_hall_samples(outcomes: Seq<Result<u16, ReadError>>) -> Seq<u16>
    decreases outcomes.len(),
{
    if outcomes.len() == 0 {
        Seq::empty()
    } else {
        let before = spec_hall_samples(outcomes.drop_last());
        match outcomes.last() {
            Ok(sample) => before.push(sample),
            Err(_) => before,
        }
    }
}

/// However often its reads would block or are refused, a reading takes the
/// first four samples that come, in the order they come, and no more.
pub proof fn lemma_hall_takes_the_first_four_samples(outcomes: Seq<Result<u16, ReadError>>)
    ensures
        spec_hall_run(outcomes) == if spec_hall_samples(outcomes).len() <= SAMPLES {
            spec_hall_samples(outcomes)
        } else {
            spec_hall_samples(outcomes).take(SAMPLES as int)
        },
    decreases outcomes.len(),
{
    if outcomes.len() > 0 {
        lemma_hall_takes_the_first_four_samples(outcomes.drop_last());
        let before = spec_hall_samples(outcomes.drop_last());
        match outcomes.last() {
            Ok(sample) => {
                if before.len() == SAMPLES {
                    assert(before.push(sample).take(SAMPLES as int) =~= before);
                } else if before.len() > SAMPLES {
                    assert(before.push(sample).take(SAMPLES as int) =~= before.take(
                        SAMPLES as int,
                    ));
                }
            },
            Err(_) => {},
        }
    }
}

} // verus!
