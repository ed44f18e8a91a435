//! The shared telemetry cell: the latest temperature sample, and a single slot
//! through which each new sample is handed to a listener.
//!
//! The control loop is the only writer. Everyone else gets a shared reference,
//! through which the cell cannot be changed.

use vstd::prelude::*;

verus! {

/// What the cell holds before the first sample: zero degrees.
pub const TEMPERATURE_SENTINEL: u16 = 0;

/// What a telemetry cell holds.
pub struct Telemetry {
    /// The most recent sample.
    pub latest: u16,
    /// The sample that waits for the listener, until it is taken.
    pub update: Option<u16>,
}

impl Telemetry {
    /// Before the first sample.
    pub open spec fn initial() -> Telemetry {
        Telemetry { latest: TEMPERATURE_SENTINEL, update: None }
    }

    /// After `value` was published. Nothing of an earlier sample is left.
    pub open spec fn published(self, value: u16) -> Telemetry {
        Telemetry { latest: value, update: Some(value) }
    }

    /// After the listener took the waiting sample.
    pub open spec fn taken(self) -> Telemetry {
        Telemetry { latest: self.latest, update: None }
    }
}

pub struct TelemetryCell {
    latest: u16,
    update: Option<u16>,
}

impl View for TelemetryCell {
    type V = Telemetry;

    closed spec fn view(&self) -> Telemetry {
        Telemetry { latest: self.latest, update: self.update }
    }
}

impl TelemetryCell {
    /// A cell that holds the sentinel and has nothing for the listener.
    pub fn new() -> (cell: Self)
        ensures
            cell@ == Telemetry::initial(),
    {
        TelemetryCell { latest: TEMPERATURE_SENTINEL, update: None }
    }

    /// Stores `value` as the latest sample and offers it to the listener. A
    /// sample that the listener has not taken yet is overwritten, not queued.
    pub fn publish(&mut self, value: u16)
        ensures
            final(self)@ == old(self)@.published(value),
    {
        self.latest = value;
        self.update = Some(value);
    }

    /// The most recent sample; the sentinel until the first `publish`.
    pub fn read(&self) -> (temperature: u16)
        ensures
            temperature == self@.latest,
    {
        self.latest
    }

    /// Hands the waiting sample to the listener and empties the slot. The
    /// latest sample stays readable.
    pub fn take_update(&mut self) -> (sample: Option<u16>)
        ensures
            sample == old(self)@.update,
            final(self)@ == old(self)@.taken(),
    {
        let sample = self.update;
        self.update = None;
        sample
    }
}

/// Of two samples published one after the other, only the later one is left:
/// the cell reads as the later sample, and that is what the listener is
/// handed. Once it has been taken, nothing waits.
pub proof fn law_latest_sample_wins(cell: Telemetry, earlier: u16, later: u16)
    ensures
        cell.published(earlier).published(later) == cell.published(later),
        cell.published(earlier).published(later).latest == later,
        cell.published(earlier).published(later).update == Some(later),
        cell.published(earlier).published(later).taken().update is None,
{
}

/// Taking the waiting sample does not disturb readers.
pub proof fn law_take_keeps_latest(cell: Telemetry)
    ensures
        cell.taken().latest == cell.latest,
{
}

} // verus!
