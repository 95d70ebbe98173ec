//! The read protocol of a unit as a transition system, and what holds of
//! every run of it.
//!
//! One read is one transition. It is taken from the unit's state and from
//! what the read meets on its way: whether the guard is to be had and what
//! the hardware says when polled. A run is a sequence of reads on one unit,
//! in the order in which they hold the guard.

use vstd::prelude::*;
use crate::adc::{spec_conclude, spec_entry, AdcError, ConversionState, Entry, ReadError};
use crate::config::Config;

verus! {

/// What one read asks for and what it meets.
pub struct ReadEvent {
    /// The channel asked for.
    pub channel: u8,
    /// Whether the guard was to be had.
    pub acquired: bool,
    /// Whether the hardware says that the conversion is done.
    pub done: bool,
    /// The data field of the hardware.
    pub raw: u16,
}

/// What one read does.
pub struct ReadEffect {
    /// The state the unit is left in.
    pub state: ConversionState,
    /// Whether the read started a conversion, pulsing the start bit.
    pub started: bool,
    /// What the caller gets.
    pub result: Result<u16, ReadError>,
}

/// One read on a unit in `state`.
///
/// A read that is let in polls the hardware with a conversion of its channel
/// under way, whether it started that conversion itself or found it.
pub open spec fn spec_read(settings: Config, state: ConversionState, event: ReadEvent)
    -> ReadEffect {
    let observed = if event.acquired {
        Some(state)
    } else {
        None
    };
    match spec_entry(settings, observed, event.channel) {
        Err(error) => ReadEffect { state, started: false, result: Err(error) },
        Ok(entry) => {
            let (after, result) = spec_conclude(
                ConversionState::Pending(event.channel),
                event.done,
                event.raw,
            );
            ReadEffect { state: after, started: entry == Entry::Start, result }
        },
    }
}

/// Whether a read gets as far as the hardware: it does unless it is refused
/// or would block on entry.
pub open spec fn spec_polled(settings: Config, state: ConversionState, event: ReadEvent) -> bool {
    spec_entry(
        settings,
        if event.acquired {
            Some(state)
        } else {
            None
        },
        event.channel,
    ) is Ok
}

/// The state of a unit that started in `state`, after the reads of `events`.
pub open spec fn spec_run(settings: Config, state: ConversionState, events: Seq<ReadEvent>)
    -> ConversionState
    decreases events.len(),
{
    if events.len() == 0 {
        state
    } else {
        spec_read(settings, spec_run(settings, state, events.drop_last()), events.last()).state
    }
}

/// What the read at index `at` of a run does.
pub open spec fn spec_effect(
    settings: Config,
    state: ConversionState,
    events: Seq<ReadEvent>,
    at: int,
) -> ReadEffect {
    spec_read(settings, spec_run(settings, state, events.take(at)), events[at])
}

/// Number of reads of a run that started a conversion.
pub open spec fn spec_starts(settings: Config, state: ConversionState, events: Seq<ReadEvent>)
    -> nat
    decreases events.len(),
{
    if events.len() == 0 {
        0
    } else {
        let before = spec_starts(settings, state, events.drop_last());
        if spec_effect(settings, state, events, events.len() - 1).started {
            before + 1
        } else {
            before
        }
    }
}

/// Number of reads of a run that returned a sample.
pub open spec fn spec_samples(settings: Config, state: ConversionState, events: Seq<ReadEvent>)
    -> nat
    decreases events.len(),
{
    if events.len() == 0 {
        0
    } else {
        let before = spec_samples(settings, state, events.drop_last());
        if spec_effect(settings, state, events, events.len() - 1).result is Ok {
            before + 1
        } else {
            before
        }
    }
}

/// Number of conversions under way in a state: one or none.
pub open spec fn spec_pending(state: ConversionState) -> nat {
    match state {
        ConversionState::Idle => 0,
        ConversionState::Pending(_) => 1,
    }
}

/// While a conversion of one channel is under way, a read of another channel
/// would block, or is refused if its channel is not configured; it starts
/// nothing and leaves the unit as it is.
pub proof fn lemma_other_channel_is_kept_out(settings: Config, active: u8, event: ReadEvent)
    requires
        event.channel != active,
    ensures
        ({
            let effect = spec_read(settings, ConversionState::Pending(active), event);
            &&& effect.result == Err::<u16, _>(
                if settings.spec_is_enabled(event.channel) {
                    ReadError::WouldBlock
                } else {
                    ReadError::Other(AdcError::UnconfiguredChannel)
                },
            )
            &&& !effect.started
            &&& effect.state == ConversionState::Pending(active)
        }),
{
}

/// While a conversion is under way no read starts another, whatever channel
/// it asks for: the start bit is not pulsed again.
pub proof fn lemma_pending_is_not_restarted(settings: Config, active: u8, event: ReadEvent)
    ensures
        !spec_read(settings, ConversionState::Pending(active), event).started,
{
}

/// A conversion that is under way ends in one way only: a read hands out its
/// sample and the unit is idle. Until then the unit stays with that channel.
pub proof fn lemma_pending_ends_with_its_sample(settings: Config, active: u8, event: ReadEvent)
    ensures
        ({
            let effect = spec_read(settings, ConversionState::Pending(active), event);
            if effect.result is Ok {
                event.channel == active && effect.state == ConversionState::Idle
            } else {
                effect.state == ConversionState::Pending(active)
            }
        }),
{
}

/// A read starts a conversion only on an idle unit, and only for the channel
/// it asks for.
pub proof fn lemma_start_needs_idle(settings: Config, state: ConversionState, event: ReadEvent)
    requires
        spec_read(settings, state, event).started,
    ensures
        state == ConversionState::Idle,
        event.acquired,
        settings.spec_is_enabled(event.channel),
        ({
            let effect = spec_read(settings, state, event);
            effect.state == ConversionState::Idle && effect.result is Ok || effect.state
                == ConversionState::Pending(event.channel) && effect.result is Err
        }),
{
}

/// The run up to index `at + 1` is the run up to `at` followed by the read at
/// `at`.
pub proof fn lemma_run_step(
    settings: Config,
    state: ConversionState,
    events: Seq<ReadEvent>,
    at: int,
)
    requires
        0 <= at < events.len(),
    ensures
        spec_run(settings, state, events.take(at + 1)) == spec_effect(
            settings,
            state,
            events,
            at,
        ).state,
{
    assert(events.take(at + 1).drop_last() =~= events.take(at));
}

/// In every run, each conversion is started once and hands out one sample:
/// the conversions under way at the start plus those started are the samples
/// handed out plus the conversions under way at the end.
pub proof fn lemma_one_start_per_sample(
    settings: Config,
    state: ConversionState,
    events: Seq<ReadEvent>,
)
    ensures
        spec_pending(state) + spec_starts(settings, state, events) == spec_samples(
            settings,
            state,
            events,
        ) + spec_pending(spec_run(settings, state, events)),
    decreases events.len(),
{
    if events.len() > 0 {
        lemma_one_start_per_sample(settings, state, events.drop_last());
        assert(events.take(events.len() - 1) =~= events.drop_last());
    }
}

/// In every run, from the read that starts a conversion until a read hands
/// out a sample, the unit stays with the channel of that conversion.
pub proof fn lemma_started_channel_holds_the_unit(
    settings: Config,
    state: ConversionState,
    events: Seq<ReadEvent>,
    first: int,
    later: int,
)
    requires
        0 <= first < later <= events.len(),
        spec_effect(settings, state, events, first).started,
        forall|k: int| first <= k < later ==> (#[trigger] spec_effect(
            settings,
            state,
            events,
            k,
        )).result is Err,
    ensures
        spec_run(settings, state, events.take(later)) == ConversionState::Pending(
            events[first].channel,
        ),
    decreases later - first,
{
    lemma_run_step(settings, state, events, later - 1);
    if later - 1 > first {
        lemma_started_channel_holds_the_unit(settings, state, events, first, later - 1);
    }
    assert(spec_effect(settings, state, events, later - 1).result is Err);
}

/// In every run, between the read that starts a conversion and the read that
/// hands out its sample, no read of another channel gets anywhere: it would
/// block, or is refused if its channel is not configured, starts nothing and
/// leaves the unit as it is.
pub proof fn lemma_mutual_exclusion(
    settings: Config,
    state: ConversionState,
    events: Seq<ReadEvent>,
    first: int,
    later: int,
)
    requires
        0 <= first < later < events.len(),
        spec_effect(settings, state, events, first).started,
        forall|k: int| first <= k < later ==> (#[trigger] spec_effect(
            settings,
            state,
            events,
            k,
        )).result is Err,
        events[later].channel != events[first].channel,
    ensures
        ({
            let effect = spec_effect(settings, state, events, later);
            &&& effect.result == Err::<u16, _>(
                if settings.spec_is_enabled(events[later].channel) {
                    ReadError::WouldBlock
                } else {
                    ReadError::Other(AdcError::UnconfiguredChannel)
                },
            )
            &&& !effect.started
            &&& effect.state == ConversionState::Pending(events[first].channel)
        }),
{
    lemma_started_channel_holds_the_unit(settings, state, events, first, later);
    lemma_other_channel_is_kept_out(settings, events[first].channel, events[later]);
}

/// The reads of a channel that is polled until its sample is out: every read
/// asks for `channel` with the guard in hand, and the hardware is done at the
/// last read and not before.
pub open spec fn spec_polls_until_done(events: Seq<ReadEvent>, channel: u8) -> bool {
    &&& events.len() > 0
    &&& forall|at: int|
        0 <= at < events.len() ==> {
            &&& (#[trigger] events[at]).channel == channel
            &&& events[at].acquired
            &&& events[at].done == (at == events.len() - 1)
        }
}

proof fn lemma_polled_channel_stays_pending(
    settings: Config,
    events: Seq<ReadEvent>,
    channel: u8,
    upto: int,
)
    requires
        settings.spec_is_enabled(channel),
        spec_polls_until_done(events, channel),
        0 < upto < events.len(),
    ensures
        spec_run(settings, ConversionState::Idle, events.take(upto)) == ConversionState::Pending(
            channel,
        ),
    decreases upto,
{
    lemma_run_step(settings, ConversionState::Idle, events, upto - 1);
    if upto > 1 {
        lemma_polled_channel_stays_pending(settings, events, channel, upto - 1);
    } else {
        assert(events.take(0) =~= Seq::<ReadEvent>::empty());
    }
}

/// On an idle unit, a configured channel that is read until the hardware is
/// done would block at every read but the last, which hands out the data
/// field as it came and leaves the unit idle; the first read, and no other,
/// starts the conversion.
pub proof fn lemma_poll_until_done(settings: Config, events: Seq<ReadEvent>, channel: u8, at: int)
    requires
        settings.spec_is_enabled(channel),
        spec_polls_until_done(events, channel),
        0 <= at < events.len(),
    ensures
        ({
            let effect = spec_effect(settings, ConversionState::Idle, events, at);
            &&& effect.started == (at == 0)
            &&& effect.result == if at == events.len() - 1 {
                Ok::<u16, ReadError>(events[at].raw)
            } else {
                Err::<u16, ReadError>(ReadError::WouldBlock)
            }
        }),
        spec_run(settings, ConversionState::Idle, events) == ConversionState::Idle,
{
    let last = events.len() - 1;
    if at > 0 {
        lemma_polled_channel_stays_pending(settings, events, channel, at);
    } else {
        assert(events.take(0) =~= Seq::<ReadEvent>::empty());
    }
    if last > 0 {
        lemma_polled_channel_stays_pending(settings, events, channel, last);
    } else {
        assert(events.take(0) =~= Seq::<ReadEvent>::empty());
    }
    assert(events.take(last) =~= events.drop_last());
    assert(events[last] == events.last());
}

} // verus!
