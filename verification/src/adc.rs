//! The one-shot conversion engine of converter unit 1.
//!
//! A unit converts one channel at a time. [`ADC::begin_read`] never waits: it
//! either opens a [`ReadSession`] for the channel or says that the caller
//! would block. While a session is open the caller holds the unit's guard,
//! carries out the register operations the session hands out, polls the
//! hardware, and reports what it saw to [`ReadSession::complete`].

use vstd::prelude::*;
use crate::config::{AdcConfig, Config};
use crate::lock::{guarded, load, new_lock, store, try_lock};
use crate::power_up::spec_power_up;
use crate::protocol::{spec_polled, spec_read, ReadEvent};
use crate::registers::{
    lemma_bit_replaces, lemma_run_push, lemma_write_replaces, run, spec_fits, Field, RegisterOp,
};

verus! {

/// Why a read was refused for good.
#[derive(Clone, Copy, PartialEq, Eq, Structural, Debug)]
pub enum AdcError {
    /// The channel has no attenuation configured.
    UnconfiguredChannel,
}

/// Why a read returned no sample.
#[derive(Clone, Copy, PartialEq, Eq, Structural, Debug)]
pub enum ReadError {
    /// The read can never succeed; trying again is of no use.
    Other(AdcError),
    /// No sample yet; the caller tries again later.
    WouldBlock,
}

/// What a unit is doing.
#[derive(Clone, Copy, PartialEq, Eq, Structural, Debug)]
pub enum ConversionState {
    /// No conversion is under way.
    Idle,
    /// A conversion of the given channel was started and its sample has not
    /// been handed out yet.
    Pending(u8),
}

/// How a read of a channel enters a unit whose guard it holds.
#[derive(Clone, Copy, PartialEq, Eq, Structural, Debug)]
pub enum Entry {
    /// The unit was idle: the read starts a conversion.
    Start,
    /// A conversion of the same channel is under way: the read polls it.
    Resume,
}

impl ConversionState {
    /// The state a slot stands for.
    pub open spec fn spec_from_slot(slot: Option<u8>) -> ConversionState {
        match slot {
            None => ConversionState::Idle,
            Some(channel) => ConversionState::Pending(channel),
        }
    }

    /// The slot that stands for the state.
    pub open spec fn spec_slot(self) -> Option<u8> {
        match self {
            ConversionState::Idle => None,
            ConversionState::Pending(channel) => Some(channel),
        }
    }

    /// The state a slot stands for.
    pub fn from_slot(slot: Option<u8>) -> (state: ConversionState)
        ensures
            state == Self::spec_from_slot(slot),
            state.spec_slot() == slot,
    {
        match slot {
            None => ConversionState::Idle,
            Some(channel) => ConversionState::Pending(channel),
        }
    }

    /// The slot that stands for the state.
    pub fn slot(self) -> (slot: Option<u8>)
        ensures
            slot == self.spec_slot(),
            Self::spec_from_slot(slot) == self,
    {
        match self {
            ConversionState::Idle => None,
            ConversionState::Pending(channel) => Some(channel),
        }
    }
}

/// How a read of `channel` enters a unit, given the unit's settings and what
/// the attempt to take the guard brought: `None` when the guard was not to be
/// had, else the state found under it.
///
/// An unconfigured channel is refused whatever the guard says. Without the
/// guard, or with a conversion of another channel under way, the read would
/// block.
pub open spec fn spec_entry(
    settings: Config,
    observed: Option<ConversionState>,
    channel: u8,
) -> Result<Entry, ReadError> {
    if !settings.spec_is_enabled(channel) {
        Err(ReadError::Other(AdcError::UnconfiguredChannel))
    } else {
        match observed {
            None => Err(ReadError::WouldBlock),
            Some(ConversionState::Idle) => Ok(Entry::Start),
            Some(ConversionState::Pending(active)) => if active == channel {
                Ok(Entry::Resume)
            } else {
                Err(ReadError::WouldBlock)
            },
        }
    }
}

/// What polling a unit in `state` gives, and the state it leaves: with a
/// conversion under way and the hardware done, the data field as it came,
/// and the unit is idle again; else nothing changes and the caller would
/// block.
pub open spec fn spec_conclude(state: ConversionState, done: bool, raw: u16) -> (
    ConversionState,
    Result<u16, ReadError>,
) {
    match state {
        ConversionState::Pending(_) if done => (ConversionState::Idle, Ok(raw)),
        _ => (state, Err(ReadError::WouldBlock)),
    }
}

/// The pad enable map with the pad of `channel` alone. The map has twelve
/// bits; a channel beyond them has no pad.
pub open spec fn spec_pad(channel: u8) -> u32 {
    if channel < 12 {
        1u32 << (channel as u32)
    } else {
        0
    }
}

/// The operations that start a conversion of `channel`: its pad is enabled,
/// then the start bit is pulsed, cleared first and set after.
///
/// The pad enable map is written whole. A pad stays enabled when its
/// conversion is done, and is disabled by the start of the next conversion
/// unless that is of the same channel; so never more than one pad is enabled.
pub open spec fn spec_start_conversion(channel: u8) -> Seq<RegisterOp> {
    seq![
        RegisterOp::spec_write(Field::Sar1EnPad, spec_pad(channel)),
        RegisterOp::spec_clear_bit(Field::Meas1StartSar),
        RegisterOp::spec_set_bit(Field::Meas1StartSar),
    ]
}

/// See [`spec_entry`].
pub fn entry(
    settings: &Config,
    observed: Option<ConversionState>,
    channel: u8,
) -> (entry: Result<Entry, ReadError>)
    ensures
        entry == spec_entry(*settings, observed, channel),
{
    if !settings.is_enabled(channel) {
        return Err(ReadError::Other(AdcError::UnconfiguredChannel));
    }
    match observed {
        None => Err(ReadError::WouldBlock),
        Some(ConversionState::Idle) => Ok(Entry::Start),
        Some(ConversionState::Pending(active)) => {
            if active == channel {
                Ok(Entry::Resume)
            } else {
                Err(ReadError::WouldBlock)
            }
        },
    }
}

/// See [`spec_conclude`].
pub fn conclude(state: ConversionState, done: bool, raw: u16) -> (outcome: (
    ConversionState,
    Result<u16, ReadError>,
))
    ensures
        outcome == spec_conclude(state, done, raw),
{
    match state {
        ConversionState::Pending(_) => {
            if done {
                (ConversionState::Idle, Ok(raw))
            } else {
                (state, Err(ReadError::WouldBlock))
            }
        },
        ConversionState::Idle => (state, Err(ReadError::WouldBlock)),
    }
}

/// See [`spec_start_conversion`].
pub fn start_conversion(channel: u8) -> (ops: Vec<RegisterOp>)
    ensures
        ops@ == spec_start_conversion(channel),
        forall|i: int| 0 <= i < ops.len() ==> ops[i].wf(),
{
    let pad: u32 = if channel < 12 {
        1u32 << (channel as u32)
    } else {
        0
    };
    let mut ops: Vec<RegisterOp> = Vec::new();
    ops.push(RegisterOp::write(Field::Sar1EnPad, pad));
    ops.push(RegisterOp::clear_bit(Field::Meas1StartSar));
    ops.push(RegisterOp::set_bit(Field::Meas1StartSar));
    assert(ops@ =~= spec_start_conversion(channel));
    ops
}

/// After the start of a conversion the pad enable map holds the pad of the
/// channel and no other, and the start bit is set; all other fields are as
/// they were.
pub proof fn lemma_start_conversion_enables_one_pad(regs: Map<Field, u32>, channel: u8)
    requires
        spec_fits(regs),
        channel < 12,
    ensures
        ({
            let after = run(regs, spec_start_conversion(channel));
            &&& after[Field::Sar1EnPad] == 1u32 << (channel as u32)
            &&& after[Field::Meas1StartSar] == 1
            &&& forall|field: Field|
                field != Field::Sar1EnPad && field != Field::Meas1StartSar ==> after[field]
                    == regs[field]
        }),
{
    let pad = spec_pad(channel);
    let enable = RegisterOp::spec_write(Field::Sar1EnPad, pad);
    let clear = RegisterOp::spec_clear_bit(Field::Meas1StartSar);
    let set = RegisterOp::spec_set_bit(Field::Meas1StartSar);
    let empty = Seq::<RegisterOp>::empty();
    assert(spec_start_conversion(channel) =~= empty.push(enable).push(clear).push(set));
    lemma_run_push(regs, empty, enable);
    lemma_run_push(regs, empty.push(enable), clear);
    lemma_run_push(regs, empty.push(enable).push(clear), set);
    lemma_write_replaces(Field::Sar1EnPad, pad, regs[Field::Sar1EnPad]);
    let shift = channel as u32;
    assert((1u32 << shift) & 0xfff == 1u32 << shift) by (bit_vector)
        requires
            shift < 12,
    ;
    lemma_bit_replaces(Field::Meas1StartSar, regs[Field::Meas1StartSar]);
    assert((0u32 & !1u32) | 1u32 == 1) by (bit_vector);
}

/// Converter unit 1, powered up and ready to convert.
pub struct ADC {
    settings: Config,
    active_channel: spin::Mutex<Option<u8>>,
}

/// A read that holds the guard of its unit.
///
/// The unit stays closed to every other read until the session is dropped.
pub struct ReadSession<'a> {
    guard: spin::MutexGuard<'a, Option<u8>>,
    channel: u8,
    fresh: bool,
    found: Ghost<ConversionState>,
}

impl ADC {
    /// The settings the unit was powered up with.
    pub closed spec fn spec_settings(&self) -> Config {
        self.settings
    }

    /// Makes the unit for `config`, idle, together with the operations that
    /// power it up. The unit is ready once the caller has carried them out.
    pub fn adc1(config: AdcConfig) -> (made: Result<(ADC, Vec<RegisterOp>), ()>)
        ensures
            made matches Ok((adc, ops)) && adc.spec_settings() == config.spec_conversion() && ops@
                == spec_power_up(config),
    {
        let ops = ADC::power_up(&config);
        let idle = ConversionState::Idle.slot();
        let adc = ADC { settings: config.conversion(), active_channel: new_lock(idle) };
        Ok((adc, ops))
    }

    /// The settings the unit was powered up with.
    pub fn settings(&self) -> (settings: &Config)
        ensures
            *settings == self.spec_settings(),
    {
        &self.settings
    }

    /// Opens a read of `channel`, without ever waiting.
    ///
    /// A channel that is not configured is refused. Else the read would
    /// block if the guard is not to be had; with the guard, what happens is
    /// up to the state under it: see [`ReadSession::enter`]. In a session
    /// that was opened, the unit has a conversion of `channel` under way.
    pub fn begin_read(&self, channel: u8) -> (opened: Result<ReadSession<'_>, ReadError>)
        ensures
            !self.spec_settings().spec_is_enabled(channel) ==> opened == Err::<ReadSession<'_>, _>(
                ReadError::Other(AdcError::UnconfiguredChannel),
            ),
            self.spec_settings().spec_is_enabled(channel) ==> match opened {
                Ok(session) => {
                    &&& session.spec_channel() == channel
                    &&& session.spec_state() == ConversionState::Pending(channel)
                    &&& spec_entry(self.spec_settings(), Some(session.spec_found()), channel)
                        == Ok::<_, ReadError>(
                        if session.spec_fresh() {
                            Entry::Start
                        } else {
                            Entry::Resume
                        },
                    )
                },
                Err(error) => error == ReadError::WouldBlock,
            },
    {
        match try_lock(&self.active_channel) {
            Some(guard) => ReadSession::enter(&self.settings, guard, channel),
            None => if self.settings.is_enabled(channel) {
                Err(ReadError::WouldBlock)
            } else {
                Err(ReadError::Other(AdcError::UnconfiguredChannel))
            },
        }
    }

    /// One whole read of `channel`, without ever waiting.
    ///
    /// `hardware` stands for the converter: it is handed the operations that
    /// start a conversion, or none when a conversion of `channel` is under
    /// way already, carries them out, and says whether the conversion is done
    /// and what the data field holds. It is called at most once, with the
    /// guard of the unit held, and not at all when the read is refused or
    /// would block on entry.
    ///
    /// A sample is the data field as `hardware` gave it. The read is one
    /// transition of the protocol, [`spec_read`], with what `hardware` said;
    /// the state it is taken from is the one [`ReadSession::enter`] finds
    /// under the guard.
    pub fn read<F>(&self, channel: u8, hardware: F) -> (sample: Result<u16, ReadError>)
        where
            F: FnOnce(Vec<RegisterOp>) -> (bool, u16),
        requires
            forall|ops: Vec<RegisterOp>| call_requires(hardware, (ops,)),
        ensures
            !self.spec_settings().spec_is_enabled(channel) ==> sample == Err::<u16, _>(
                ReadError::Other(AdcError::UnconfiguredChannel),
            ),
            sample matches Ok(data) ==> exists|ops: Vec<RegisterOp>| #[trigger]
                call_ensures(hardware, (ops,), (true, data)),
            sample matches Err(error) ==> error == ReadError::WouldBlock
                || !self.spec_settings().spec_is_enabled(channel),
            exists|state: ConversionState, event: ReadEvent|
                {
                    let effect = #[trigger] spec_read(self.spec_settings(), state, event);
                    &&& event.channel == channel
                    &&& sample == effect.result
                    &&& spec_polled(self.spec_settings(), state, event) ==> exists|
                        ops: Vec<RegisterOp>,
                    |
                        {
                            &&& #[trigger] call_ensures(hardware, (ops,), (event.done, event.raw))
                            &&& ops@ == if effect.started {
                                spec_start_conversion(channel)
                            } else {
                                Seq::<RegisterOp>::empty()
                            }
                        }
                },
    {
        match self.begin_read(channel) {
            Err(error) => {
                proof {
                    let event = ReadEvent { channel, acquired: false, done: false, raw: 0 };
                    assert(!spec_polled(self.spec_settings(), ConversionState::Idle, event));
                    assert(spec_read(self.spec_settings(), ConversionState::Idle, event).result
                        == Err::<u16, _>(error));
                }
                Err(error)
            },
            Ok(mut session) => {
                let ops = session.take_start_ops();
                let ghost handed = ops;
                let (done, raw) = hardware(ops);
                let sample = session.complete(done, raw);
                proof {
                    let event = ReadEvent { channel, acquired: true, done, raw };
                    let state = session.spec_found();
                    assert(spec_polled(self.spec_settings(), state, event));
                    assert(sample == spec_read(self.spec_settings(), state, event).result);
                    assert(call_ensures(hardware, (handed,), (event.done, event.raw)));
                }
                sample
            },
        }
    }
}

impl<'a> ReadSession<'a> {
    /// The channel the session reads.
    pub closed spec fn spec_channel(&self) -> u8 {
        self.channel
    }

    /// The state of the unit, which the session holds the guard of.
    pub closed spec fn spec_state(&self) -> ConversionState {
        ConversionState::spec_from_slot(guarded(&self.guard))
    }

    /// Whether the session started a conversion that the hardware has not
    /// been told of yet.
    pub closed spec fn spec_fresh(&self) -> bool {
        self.fresh
    }

    /// The state the unit was in when the session took its guard.
    pub closed spec fn spec_found(&self) -> ConversionState {
        self.found@
    }

    /// Lets a read of `channel` that holds the guard of a unit in, or turns
    /// it away and gives the guard up: see [`spec_entry`], which is taken on
    /// the state the guard shows.
    ///
    /// A read that is let in on an idle unit puts its channel under the
    /// guard; one that finds a conversion of its channel under way leaves the
    /// unit as it is. Either way the session holds the guard, records the
    /// state it found, and is fresh exactly if the unit was idle.
    pub fn enter(
        settings: &Config,
        guard: spin::MutexGuard<'a, Option<u8>>,
        channel: u8,
    ) -> (opened: Result<ReadSession<'a>, ReadError>)
        ensures
            match spec_entry(
                *settings,
                Some(ConversionState::spec_from_slot(guarded(&guard))),
                channel,
            ) {
                Ok(entry) => {
                    &&& opened matches Ok(session)
                    &&& session.spec_channel() == channel
                    &&& session.spec_found() == ConversionState::spec_from_slot(guarded(&guard))
                    &&& session.spec_fresh() == (entry == Entry::Start)
                    &&& session.spec_state() == ConversionState::Pending(channel)
                },
                Err(error) => opened matches Err(refused) && refused == error,
            },
    {
        let mut guard = guard;
        let found = ConversionState::from_slot(load(&guard));
        match entry(settings, Some(found), channel) {
            Err(error) => Err(error),
            Ok(entry) => {
                let fresh = match entry {
                    Entry::Start => true,
                    Entry::Resume => false,
                };
                if fresh {
                    store(&mut guard, Some(channel));
                }
                Ok(ReadSession { guard, channel, fresh, found: Ghost(found) })
            },
        }
    }

    /// The channel the session reads.
    pub fn channel(&self) -> (channel: u8)
        ensures
            channel == self.spec_channel(),
    {
        self.channel
    }

    /// The state of the unit.
    pub fn state(&self) -> (state: ConversionState)
        ensures
            state == self.spec_state(),
    {
        ConversionState::from_slot(load(&self.guard))
    }

    /// The operations that tell the hardware to start the conversion, if this
    /// session started one; none if it polls a conversion that an earlier
    /// read started, and none the second time.
    pub fn take_start_ops(&mut self) -> (ops: Vec<RegisterOp>)
        ensures
            ops@ == if old(self).spec_fresh() {
                spec_start_conversion(old(self).spec_channel())
            } else {
                Seq::<RegisterOp>::empty()
            },
            !final(self).spec_fresh(),
            final(self).spec_channel() == old(self).spec_channel(),
            final(self).spec_state() == old(self).spec_state(),
            final(self).spec_found() == old(self).spec_found(),
    {
        if self.fresh {
            self.fresh = false;
            start_conversion(self.channel)
        } else {
            Vec::new()
        }
    }

    /// Takes what the caller saw when it polled the hardware: whether the
    /// conversion is done and, if so, the data field. See [`spec_conclude`].
    pub fn complete(&mut self, done: bool, raw: u16) -> (sample: Result<u16, ReadError>)
        ensures
            (final(self).spec_state(), sample) == spec_conclude(old(self).spec_state(), done, raw),
            final(self).spec_channel() == old(self).spec_channel(),
            final(self).spec_fresh() == old(self).spec_fresh(),
            final(self).spec_found() == old(self).spec_found(),
    {
        let before = ConversionState::from_slot(load(&self.guard));
        let (after, sample) = conclude(before, done, raw);
        if done {
            store(&mut self.guard, after.slot());
        }
        sample
    }
}

} // verus!
