//! Thermal profiles and the engine that times them.
//!
//! A profile is an ordered list of phases. Phase `i` begins once the durations
//! of all phases before it have elapsed. At every tick the engine answers one
//! question: does a phase begin exactly now?

use vstd::prelude::*;
use crate::device_logic::rolling_sum::{
    rolling_sum_as_slice, rolling_sum_new, rolling_sum_push, rolling_sum_truncate, stored,
    ROLLING_SUM_SLOTS,
};

verus! {

/// Ramp phase: reach `target_temperature` in `expected_duration_s` seconds,
/// along a straight line from the temperature at which the phase began.
#[derive(Clone, Copy, Debug, PartialEq, Eq, Structural)]
pub struct Heating {
    pub target_temperature: u16,
    pub expected_duration_s: u32,
}

/// Soak phase: stay within `hysteresis` degrees of `target_temperature` for
/// `expected_duration_s` seconds.
#[derive(Clone, Copy, Debug, PartialEq, Eq, Structural)]
pub struct KeepTemperature {
    pub target_temperature: u16,
    pub hysteresis: u16,
    pub expected_duration_s: u32,
}

/// One phase of a profile.
#[derive(Clone, Copy, Debug, PartialEq, Eq, Structural)]
pub enum Event {
    Off,
    Heating(Heating),
    KeepTemperature(KeepTemperature),
}

/// Largest number of phases the engine accepts in a profile.
pub const MAX_PROFILE_PHASES: usize = 3;

/// Seconds that a phase lasts. `Off` takes no time.
pub open spec fn phase_duration(event: Event) -> nat {
    match event {
        Event::Off => 0,
        Event::Heating(ramp) => ramp.expected_duration_s as nat,
        Event::KeepTemperature(soak) => soak.expected_duration_s as nat,
    }
}

/// Elapsed time at which phase `index` begins: the durations of the phases
/// before it, added up. With `index == events.len()` it is the length of the
/// whole profile.
pub open spec fn phase_start(events: Seq<Event>, index: int) -> nat
    decreases index,
{
    if index <= 0 {
        0
    } else {
        phase_start(events, index - 1) + phase_duration(events[index - 1])
    }
}

/// Phase `index` is the earliest phase of `events` that begins exactly at
/// `elapsed`.
pub open spec fn begins_at(events: Seq<Event>, index: int, elapsed: nat) -> bool {
    &&& 0 <= index < events.len()
    &&& phase_start(events, index) == elapsed
    &&& forall|earlier: int| 0 <= earlier < index ==> phase_start(events, earlier) != elapsed
}

/// A profile the engine can time: at least one phase, and no more than
/// `MAX_PROFILE_PHASES`.
pub open spec fn profile_fits(events: Seq<Event>) -> bool {
    0 < events.len() <= MAX_PROFILE_PHASES
}

/// What the engine reports at `elapsed`.
///
/// * A profile that is empty or too long is never run: the answer is `Off`.
/// * If a phase begins exactly at `elapsed`, the earliest such phase.
/// * Past the end of the profile, `Off`.
/// * Otherwise nothing is due.
pub open spec fn transition_due(events: Seq<Event>, elapsed: nat) -> Option<Event> {
    if !profile_fits(events) {
        Some(Event::Off)
    } else if exists|index: int| begins_at(events, index, elapsed) {
        Some(events[choose|index: int| begins_at(events, index, elapsed)])
    } else if phase_start(events, events.len() as int) < elapsed {
        Some(Event::Off)
    } else {
        None
    }
}

/// The reflow curve: ramp to 100 degrees in a minute, hold there within 5
/// degrees for a minute, then switch off.
pub open spec fn jedec_events() -> Seq<Event> {
    seq![
        Event::Heating(Heating { target_temperature: 100, expected_duration_s: 60 }),
        Event::KeepTemperature(
            KeepTemperature { target_temperature: 100, hysteresis: 5, expected_duration_s: 60 },
        ),
        Event::Off,
    ]
}

/// No phase begins later than `index` full-length phases would allow.
proof fn lemma_phase_start_bound(events: Seq<Event>, index: int)
    requires
        0 <= index,
    ensures
        phase_start(events, index) <= index * 0xffff_ffff,
    decreases index,
{
    if index > 0 {
        lemma_phase_start_bound(events, index - 1);
    }
}

/// At most one phase is the earliest to begin at a given time.
proof fn lemma_begins_at_unique(events: Seq<Event>, first: int, second: int, elapsed: nat)
    requires
        begins_at(events, first, elapsed),
        begins_at(events, second, elapsed),
    ensures
        first == second,
{
    if first < second {
        assert(phase_start(events, first) != elapsed);
    } else if second < first {
        assert(phase_start(events, second) != elapsed);
    }
}

impl Event {
    /// Seconds that this phase lasts.
    pub fn expected_duration_s(&self) -> (seconds: u32)
        ensures
            seconds == phase_duration(*self),
    {
        match self {
            Event::Off => 0,
            Event::Heating(ramp) => ramp.expected_duration_s,
            Event::KeepTemperature(soak) => soak.expected_duration_s,
        }
    }
}

/// The profile engine. Returns the phase to enter at `elapsed`, if any.
///
/// The start times are collected in a buffer of `ROLLING_SUM_SLOTS` slots. A
/// profile with more phases than the buffer can time is refused as a whole, and
/// so is an empty one: both give `Off`, whatever `elapsed` is.
pub fn event_due(events_list: &[Event], elapsed: u32) -> (due: Option<Event>)
    ensures
        due == transition_due(events_list@, elapsed as nat),
{
    let count: usize = events_list.len();
    if count == 0 {
        return Some(Event::Off);
    }
    let mut rolling_sum = rolling_sum_new();
    match rolling_sum_push(&mut rolling_sum, 0) {
        Ok(_) => (),
        Err(_) => {
            return Some(Event::Off);
        },
    }
    let mut total: u64 = 0;
    let mut index: usize = 0;
    while index < count
        invariant
            count == events_list@.len(),
            0 <= index <= count,
            index < ROLLING_SUM_SLOTS,
            total == phase_start(events_list@, index as int),
            stored(rolling_sum).len() == index + 1,
            forall|k: int|
                0 <= k <= index ==> #[trigger] stored(rolling_sum)[k] == phase_start(
                    events_list@,
                    k,
                ),
        decreases count - index,
    {
        proof {
            lemma_phase_start_bound(events_list@, index as int);
        }
        total = total + events_list[index].expected_duration_s() as u64;
        let ghost before = stored(rolling_sum);
        match rolling_sum_push(&mut rolling_sum, total) {
            Ok(_) => (),
            Err(_) => {
                return Some(Event::Off);
            },
        }
        index = index + 1;
        assert forall|k: int| 0 <= k <= index implies #[trigger] stored(rolling_sum)[k]
            == phase_start(events_list@, k) by {
            if k < index {
                assert(stored(rolling_sum)[k] == before[k]);
            }
        }
    }
    rolling_sum_truncate(&mut rolling_sum, count);
    let starts = rolling_sum_as_slice(&rolling_sum);
    let mut phase: usize = 0;
    while phase < starts.len()
        invariant
            count == events_list@.len(),
            profile_fits(events_list@),
            starts@.len() == count,
            0 <= phase <= count,
            forall|k: int|
                0 <= k < count ==> #[trigger] starts@[k] == phase_start(events_list@, k),
            forall|k: int| 0 <= k < phase ==> phase_start(events_list@, k) != elapsed,
        decreases count - phase,
    {
        if starts[phase] == elapsed as u64 {
            proof {
                assert(begins_at(events_list@, phase as int, elapsed as nat));
                let chosen = choose|i: int| begins_at(events_list@, i, elapsed as nat);
                lemma_begins_at_unique(events_list@, phase as int, chosen, elapsed as nat);
            }
            return Some(events_list[phase]);
        }
        phase = phase + 1;
    }
    if total < elapsed as u64 {
        return Some(Event::Off);
    }
    None
}

/// The one profile that is wired in: `jedec_events`.
pub fn jedec_profile() -> (profile: [Event; 3])
    ensures
        profile@ == jedec_events(),
{
    [
        Event::Heating(Heating { target_temperature: 100, expected_duration_s: 60 }),
        Event::KeepTemperature(
            KeepTemperature { target_temperature: 100, hysteresis: 5, expected_duration_s: 60 },
        ),
        Event::Off,
    ]
}

} // verus!
