//! The heater state machine, its two control laws, and the decisions of the
//! control loop that drives it.
//!
//! One tick is: take a sample, count the tick, command the heater. The machine
//! never touches hardware. It is handed the outcome of each bus transfer and
//! says what the heater switch is to be told.

use vstd::prelude::*;
use crate::device_logic::command_channel::{
    requested_mode_of, CommandChannel, ReflowMode, RequestedMode,
};
use crate::device_logic::profile::{
    event_due, jedec_events, jedec_profile, transition_due, Event, Heating, KeepTemperature,
};
use crate::device_logic::telemetry::TelemetryCell;
use crate::hardware_concierge::thermo_control::{decoded, SensorError, ThermoControl};

verus! {

/// What the machine is doing. `Failure` is left only by a reset.
#[derive(Clone, Copy, Debug, PartialEq, Eq, Structural)]
pub enum State {
    Off,
    Heating(Heating),
    KeepTemperature(KeepTemperature),
    Failure,
}

/// The pairs of state and event that the transition table lists.
pub open spec fn is_listed_transition(state: State, event: Event) -> bool {
    ||| state is Off && event is Off
    ||| state is Off && event is Heating
    ||| state is Heating && event is KeepTemperature
    ||| state is KeepTemperature && event is Heating
    ||| state is Heating && event is Off
    ||| state is KeepTemperature && event is Off
}

/// The state that an event enters.
pub open spec fn entered_state(event: Event) -> State {
    match event {
        Event::Off => State::Off,
        Event::Heating(ramp) => State::Heating(ramp),
        Event::KeepTemperature(soak) => State::KeepTemperature(soak),
    }
}

/// The transition table, row by row. What no row names is a protocol
/// violation and ends in `Failure`.
pub open spec fn next_state(state: State, event: Event) -> State {
    match (state, event) {
        (State::Off, Event::Off) => State::Off,
        (State::Off, Event::Heating(ramp)) => State::Heating(ramp),
        (State::Heating(_), Event::KeepTemperature(soak)) => State::KeepTemperature(soak),
        (State::KeepTemperature(_), Event::Heating(ramp)) => State::Heating(ramp),
        (State::Heating(_), Event::Off) => State::Off,
        (State::KeepTemperature(_), Event::Off) => State::Off,
        (_, _) => State::Failure,
    }
}

/// The tick counter one tick later. It stops at the largest value it can hold.
pub open spec fn next_tick(elapsed: u32) -> u32 {
    if elapsed < u32::MAX {
        (elapsed + 1) as u32
    } else {
        elapsed
    }
}

impl KeepTemperature {
    /// The deadband law: off at or above the band, on below it, and no command
    /// inside it.
    pub open spec fn heater_change(self, actual_temperature: u16) -> Option<bool> {
        if actual_temperature >= self.target_temperature + self.hysteresis {
            Some(false)
        } else if actual_temperature < self.target_temperature - self.hysteresis {
            Some(true)
        } else {
            None
        }
    }

    /// What the heater is to be told while holding, if anything.
    pub fn decide_heater_state_change(&self, actual_temperature: u16) -> (change: Option<bool>)
        ensures
            change == self.heater_change(actual_temperature),
    {
        let actual: u32 = actual_temperature as u32;
        let target: u32 = self.target_temperature as u32;
        let band: u32 = self.hysteresis as u32;
        if actual >= target + band {
            Some(false)
        } else if actual + band < target {
            Some(true)
        } else {
            None
        }
    }
}

impl Heating {
    /// The ramp law. The expected temperature lies on the straight line from
    /// `start_temperature` to the target, `seconds_in_phase` along a phase of
    /// `expected_duration_s`. The heater is on while `actual_temperature` is at
    /// or below that line. The line is compared exactly: nothing is rounded.
    ///
    /// A phase without duration has no line; the heater stays off.
    pub open spec fn behind_schedule(
        self,
        start_temperature: int,
        seconds_in_phase: int,
        actual_temperature: int,
    ) -> bool {
        &&& self.expected_duration_s > 0
        &&& (actual_temperature - start_temperature) * self.expected_duration_s
            <= (self.target_temperature - start_temperature) * seconds_in_phase
    }

    /// Whether the heater is to be on while ramping.
    pub fn decide_heater_state(
        &self,
        shared_data: &StateMachineSharedData,
        actual_temperature: u16,
    ) -> (on: bool)
        ensures
            on == self.behind_schedule(
                shared_data.temperature_when_actual_state_start as int,
                shared_data.actual_time - shared_data.time_when_actual_state_start,
                actual_temperature as int,
            ),
    {
        if self.expected_duration_s == 0 {
            return false;
        }
        let start: i64 = shared_data.temperature_when_actual_state_start as i64;
        let d_temp: i64 = self.target_temperature as i64 - start;
        let duration_of_state_time: i64 = shared_data.actual_time as i64
            - shared_data.time_when_actual_state_start as i64;
        let lead: i64 = actual_temperature as i64 - start;
        let duration: i64 = self.expected_duration_s as i64;
        assert(-0x1_0000_0000_0000 < lead * duration < 0x1_0000_0000_0000) by (nonlinear_arith)
            requires
                -0x1_0000 < lead < 0x1_0000,
                0 < duration < 0x1_0000_0000,
        ;
        assert(-0x1_0000_0000_0000 < d_temp * duration_of_state_time < 0x1_0000_0000_0000)
            by (nonlinear_arith)
            requires
                -0x1_0000 < d_temp < 0x1_0000,
                -0x1_0000_0000 < duration_of_state_time < 0x1_0000_0000,
        ;
        lead * duration <= d_temp * duration_of_state_time
    }
}

/// The bookkeeping that all states share.
pub struct StateMachineSharedData {
    /// The heater switch.
    pub thermo: ThermoControl,
    /// The sample that was current when the state was entered.
    pub temperature_when_actual_state_start: u16,
    /// The tick at which the state was entered.
    pub time_when_actual_state_start: u32,
    /// Ticks since the last reset.
    pub actual_time: u32,
}

impl StateMachineSharedData {
    /// Takes one sample. A good sample is published; a failed one is
    /// discarded, and the cell keeps what it had.
    pub fn set_current_temperature(
        &self,
        cell: &mut TelemetryCell,
        transfer: Option<[u8; 2]>,
    ) -> (reading: Result<u16, SensorError>)
        ensures
            reading == decoded(transfer),
            final(cell)@ == match decoded(transfer) {
                Ok(temperature) => old(cell)@.published(temperature),
                Err(_) => old(cell)@,
            },
    {
        let reading = self.thermo.read_temperature(transfer);
        match reading {
            Ok(actual_temperature) => {
                cell.publish(actual_temperature);
            },
            Err(_) => {},
        }
        reading
    }

    /// Counts one tick.
    pub fn update_time(&mut self)
        ensures
            final(self).actual_time == next_tick(old(self).actual_time),
            final(self).thermo == old(self).thermo,
            final(self).temperature_when_actual_state_start == old(
                self,
            ).temperature_when_actual_state_start,
            final(self).time_when_actual_state_start == old(self).time_when_actual_state_start,
    {
        if self.actual_time < u32::MAX {
            self.actual_time = self.actual_time + 1;
        }
    }

    /// Makes the present the baseline of the state that is being entered.
    pub fn set_state_start_temperature_and_time(&mut self, cell: &TelemetryCell)
        ensures
            final(self).temperature_when_actual_state_start == cell@.latest,
            final(self).time_when_actual_state_start == old(self).actual_time,
            final(self).actual_time == old(self).actual_time,
            final(self).thermo == old(self).thermo,
    {
        self.temperature_when_actual_state_start = cell.read();
        self.time_when_actual_state_start = self.actual_time;
    }
}

/// What a heater state machine holds.
pub struct Machine {
    pub state: State,
    /// Whether the heater is switched on.
    pub heater_on: bool,
    /// The sample that was current when `state` was entered.
    pub state_start_temperature: u16,
    /// The tick at which `state` was entered.
    pub state_start_time: u32,
    /// Ticks since the last reset.
    pub elapsed: u32,
}

impl Machine {
    /// After `event` was processed while the cell read `observed`. Every
    /// transition, the one to `Failure` too, starts a new baseline.
    pub open spec fn after_event(self, event: Event, observed: u16) -> Machine {
        Machine {
            state: next_state(self.state, event),
            heater_on: self.heater_on,
            state_start_temperature: observed,
            state_start_time: self.elapsed,
            elapsed: self.elapsed,
        }
    }

    /// After a reset while the cell read `observed`.
    pub open spec fn after_reset(self, observed: u16) -> Machine {
        Machine {
            state: State::Off,
            heater_on: false,
            state_start_temperature: observed,
            state_start_time: 0,
            elapsed: 0,
        }
    }

    /// A ramp that cannot be followed, because its phase has no duration.
    pub open spec fn ramp_is_misconfigured(self) -> bool {
        self.state matches State::Heating(ramp) && ramp.expected_duration_s == 0
    }

    /// What one tick tells the heater switch. `self` has the tick counted
    /// already, `faulted` says that the sample of this tick could not be had,
    /// and `observed` is what the cell reads.
    ///
    /// Without a sample the heater is switched off, whatever the state.
    pub open spec fn command(self, faulted: bool, observed: u16) -> Option<bool> {
        if faulted {
            Some(false)
        } else {
            match self.state {
                State::Off => Some(false),
                State::Failure => Some(false),
                State::Heating(ramp) => Some(
                    ramp.behind_schedule(
                        self.state_start_temperature as int,
                        self.elapsed - self.state_start_time,
                        observed as int,
                    ),
                ),
                State::KeepTemperature(soak) => soak.heater_change(observed),
            }
        }
    }

    /// With the tick counted.
    pub open spec fn ticked(self) -> Machine {
        Machine {
            state: self.state,
            heater_on: self.heater_on,
            state_start_temperature: self.state_start_temperature,
            state_start_time: self.state_start_time,
            elapsed: next_tick(self.elapsed),
        }
    }

    /// With the heater switched as `command` says.
    pub open spec fn commanded(self, command: Option<bool>) -> Machine {
        Machine {
            state: self.state,
            heater_on: match command {
                Some(on) => on,
                None => self.heater_on,
            },
            state_start_temperature: self.state_start_temperature,
            state_start_time: self.state_start_time,
            elapsed: self.elapsed,
        }
    }

    /// After one tick. A ramp without duration is a configuration error: on
    /// the first tick that has a sample the machine takes the `Off` event in
    /// its place.
    pub open spec fn after_run(self, faulted: bool, observed: u16) -> Machine {
        let switched = self.ticked().commanded(self.ticked().command(faulted, observed));
        if !faulted && self.ramp_is_misconfigured() {
            switched.after_event(Event::Off, observed)
        } else {
            switched
        }
    }

    /// After the phase of `events` that is due at the present tick, if any,
    /// was entered while the cell read `observed`.
    pub open spec fn after_due(self, events: Seq<Event>, observed: u16) -> Machine {
        match transition_due(events, self.elapsed as nat) {
            Some(event) => self.after_event(event, observed),
            None => self,
        }
    }

    /// After one iteration of the active control loop over `events`: the
    /// phase that is due is entered against the sample of the tick before
    /// (`observed_before`), then the tick is run.
    pub open spec fn after_iteration(
        self,
        events: Seq<Event>,
        faulted: bool,
        observed_before: u16,
        observed: u16,
    ) -> Machine {
        self.after_due(events, observed_before).after_run(faulted, observed)
    }

    /// What that iteration tells the heater switch.
    pub open spec fn iteration_command(
        self,
        events: Seq<Event>,
        faulted: bool,
        observed_before: u16,
        observed: u16,
    ) -> Option<bool> {
        self.after_due(events, observed_before).ticked().command(faulted, observed)
    }

    /// The heater is off whenever the machine is `Off` or in `Failure`.
    pub open spec fn is_safe(self) -> bool {
        self.state is Off || self.state is Failure ==> !self.heater_on
    }

    /// The baseline does not lie in the future.
    pub open spec fn baseline_is_past(self) -> bool {
        self.state_start_time <= self.elapsed
    }
}

pub struct HeaterStateMachine {
    shared_data: StateMachineSharedData,
    state: State,
}

impl View for HeaterStateMachine {
    type V = Machine;

    closed spec fn view(&self) -> Machine {
        Machine {
            state: self.state,
            heater_on: self.shared_data.thermo.heater_on(),
            state_start_temperature: self.shared_data.temperature_when_actual_state_start,
            state_start_time: self.shared_data.time_when_actual_state_start,
            elapsed: self.shared_data.actual_time,
        }
    }
}

impl HeaterStateMachine {
    /// A machine that is `Off` at tick zero. It takes a first sample, and the
    /// baseline is what the cell reads after it. The heater switch is taken as
    /// it is.
    pub fn new(
        thermo: ThermoControl,
        cell: &mut TelemetryCell,
        transfer: Option<[u8; 2]>,
    ) -> (machine: Self)
        ensures
            final(cell)@ == match decoded(transfer) {
                Ok(temperature) => old(cell)@.published(temperature),
                Err(_) => old(cell)@,
            },
            machine@ == (Machine {
                state: State::Off,
                heater_on: thermo.heater_on(),
                state_start_temperature: final(cell)@.latest,
                state_start_time: 0,
                elapsed: 0,
            }),
    {
        let mut state_machine = HeaterStateMachine {
            shared_data: StateMachineSharedData {
                temperature_when_actual_state_start: 0,
                thermo: thermo,
                actual_time: 0,
                time_when_actual_state_start: 0,
            },
            state: State::Off,
        };
        let _ = state_machine.shared_data.set_current_temperature(cell, transfer);
        state_machine.shared_data.set_state_start_temperature_and_time(cell);
        state_machine
    }

    /// Applies the transition table to `event` and starts a new baseline from
    /// what the cell reads. The heater switch and the tick counter are left
    /// alone.
    pub fn process_state_change(&mut self, cell: &TelemetryCell, event: Event)
        ensures
            final(self)@ == old(self)@.after_event(event, cell@.latest),
    {
        match (self.state, event) {
            (State::Off, Event::Off) => {
                self.state = State::Off;
            },
            (State::Off, Event::Heating(heating_parameters)) => {
                self.state = State::Heating(heating_parameters);
            },
            (State::Heating(_), Event::KeepTemperature(keep_temp_parameters)) => {
                self.state = State::KeepTemperature(keep_temp_parameters);
            },
            (State::KeepTemperature(_), Event::Heating(heating_parameters)) => {
                self.state = State::Heating(heating_parameters);
            },
            (State::Heating(_), Event::Off) => {
                self.state = State::Off;
            },
            (State::KeepTemperature(_), Event::Off) => {
                self.state = State::Off;
            },
            (_, _) => {
                self.state = State::Failure;
            },
        }
        self.shared_data.set_state_start_temperature_and_time(cell);
    }

    /// One tick: takes a sample, counts the tick and commands the heater.
    /// Returns what the heater switch is to be told; `None` leaves it as it is.
    ///
    /// The heater is told to switch off whenever the sample could not be had
    /// and whenever the machine is `Off` or in `Failure`.
    pub fn run(
        &mut self,
        cell: &mut TelemetryCell,
        transfer: Option<[u8; 2]>,
    ) -> (command: Option<bool>)
        ensures
            final(cell)@ == match decoded(transfer) {
                Ok(temperature) => old(cell)@.published(temperature),
                Err(_) => old(cell)@,
            },
            command == old(self)@.ticked().command(decoded(transfer) is Err, final(cell)@.latest),
            final(self)@ == old(self)@.after_run(decoded(transfer) is Err, final(cell)@.latest),
            decoded(transfer) is Err || old(self)@.state is Off || old(self)@.state is Failure
                ==> command == Some(false) && !final(self)@.heater_on,
            final(self)@.elapsed >= old(self)@.elapsed,
    {
        let reading = self.shared_data.set_current_temperature(cell, transfer);
        self.shared_data.update_time();
        let actual_temperature: u16 = cell.read();
        let command: Option<bool> = match reading {
            Err(_) => Some(false),
            Ok(_) => match self.state {
                State::Off => Some(false),
                State::Heating(heating_parameters) => Some(
                    heating_parameters.decide_heater_state(&self.shared_data, actual_temperature),
                ),
                State::KeepTemperature(keep_temp_params) => {
                    keep_temp_params.decide_heater_state_change(actual_temperature)
                },
                State::Failure => Some(false),
            },
        };
        match command {
            Some(state_to) => {
                self.shared_data.thermo.set_heater_state(state_to);
            },
            None => {},
        }
        let misconfigured: bool = match (reading, self.state) {
            (Ok(_), State::Heating(heating_parameters)) => {
                heating_parameters.expected_duration_s == 0
            },
            (_, _) => false,
        };
        if misconfigured {
            self.process_state_change(cell, Event::Off);
        }
        command
    }

    /// Back to `Off` at tick zero, with the heater switched off and a new
    /// baseline from what the cell reads.
    pub fn reset(&mut self, cell: &TelemetryCell)
        ensures
            final(self)@ == old(self)@.after_reset(cell@.latest),
    {
        self.state = State::Off;
        self.shared_data.thermo.set_heater_state(false);
        self.shared_data.actual_time = 0;
        self.shared_data.set_state_start_temperature_and_time(cell);
    }

    /// Asks the profile engine whether a phase of `events_list` begins at the
    /// present tick.
    pub fn is_time_for_state_transition(&self, events_list: &[Event]) -> (due: Option<Event>)
        ensures
            due == transition_due(events_list@, self@.elapsed as nat),
    {
        event_due(events_list, self.shared_data.actual_time)
    }
}

impl HeaterStateMachine {
    /// The present state.
    pub fn state(&self) -> (state: State)
        ensures
            state == self@.state,
    {
        self.state
    }

    /// Whether the heater is switched on.
    pub fn heater_state(&self) -> (on: bool)
        ensures
            on == self@.heater_on,
    {
        self.shared_data.thermo.heater_state()
    }

    /// Ticks since the last reset.
    pub fn elapsed_time(&self) -> (ticks: u32)
        ensures
            ticks == self@.elapsed,
    {
        self.shared_data.actual_time
    }

    /// The sample that was current when the present state was entered.
    pub fn state_start_temperature(&self) -> (temperature: u16)
        ensures
            temperature == self@.state_start_temperature,
    {
        self.shared_data.temperature_when_actual_state_start
    }

    /// The tick at which the present state was entered.
    pub fn state_start_time(&self) -> (ticks: u32)
        ensures
            ticks == self@.state_start_time,
    {
        self.shared_data.time_when_actual_state_start
    }
}

/// Leaves the mode that `request_mode_from_ble` stands for on the command
/// channel. A code that is not assigned asks for `Off`.
pub fn set_heating_profile(channel: &mut CommandChannel, request_mode_from_ble: u8)
    ensures
        final(channel)@ == old(channel)@.requested(requested_mode_of(request_mode_from_ble)),
{
    let state = match request_mode_from_ble {
        0 => RequestedMode::Off,
        1 => RequestedMode::On(ReflowMode::JEDEC),
        _ => RequestedMode::Off,
    };
    channel.request(state);
}

/// The latest temperature sample, without waiting.
pub fn read_temperature(cell: &TelemetryCell) -> (temperature: u16)
    ensures
        temperature == cell@.latest,
{
    cell.read()
}

/// What the control loop does after a decision.
#[derive(Clone, Copy, Debug, PartialEq, Eq, Structural)]
pub enum NextStep {
    /// Suspend until a request arrives, then `accept_request`.
    AwaitRequest,
    /// Take a sample and `run_tick` at once.
    TickNow,
    /// Suspend for one tick period, then take a sample and `run_tick`.
    TickAfterPeriod,
}

/// A decision of the control loop.
#[derive(Clone, Copy, Debug, PartialEq, Eq, Structural)]
pub struct LoopAction {
    /// What the heater switch is to be told; `None` leaves it as it is.
    pub heater: Option<bool>,
    pub next: NextStep,
}

/// The idle phase of the control loop, once a request has been consumed.
/// `Off` resets the machine and keeps the loop idle. Any other request starts
/// ticking, on the machine as it is: the one wired profile, whichever was
/// asked for.
pub fn accept_request(
    machine: &mut HeaterStateMachine,
    cell: &TelemetryCell,
    requested_state: RequestedMode,
) -> (action: LoopAction)
    ensures
        requested_state is Off ==> final(machine)@ == old(machine)@.after_reset(cell@.latest)
            && action == (LoopAction { heater: Some(false), next: NextStep::AwaitRequest }),
        requested_state is On ==> final(machine)@ == old(machine)@ && action == (LoopAction {
            heater: None,
            next: NextStep::TickNow,
        }),
{
    match requested_state {
        RequestedMode::Off => {
            machine.reset(cell);
            LoopAction { heater: Some(false), next: NextStep::AwaitRequest }
        },
        RequestedMode::On(_) => LoopAction { heater: None, next: NextStep::TickNow },
    }
}

/// One iteration of the active phase of the control loop: enters the phase of
/// the JEDEC profile that is due, runs one tick on the outcome of this tick's
/// bus transfer, and goes back to idle if a request has arrived meanwhile.
///
/// Afterwards the heater is off if the sample could not be had, and if the
/// machine is `Off` or in `Failure`.
pub fn run_tick(
    machine: &mut HeaterStateMachine,
    cell: &mut TelemetryCell,
    channel: &CommandChannel,
    transfer: Option<[u8; 2]>,
) -> (action: LoopAction)
    ensures
        final(cell)@ == match decoded(transfer) {
            Ok(temperature) => old(cell)@.published(temperature),
            Err(_) => old(cell)@,
        },
        final(machine)@ == old(machine)@.after_iteration(
            jedec_events(),
            decoded(transfer) is Err,
            old(cell)@.latest,
            final(cell)@.latest,
        ),
        action.heater == old(machine)@.iteration_command(
            jedec_events(),
            decoded(transfer) is Err,
            old(cell)@.latest,
            final(cell)@.latest,
        ),
        action.next == if channel@.pending is Some {
            NextStep::AwaitRequest
        } else {
            NextStep::TickAfterPeriod
        },
        decoded(transfer) is Err ==> !final(machine)@.heater_on,
        final(machine)@.is_safe(),
{
    let jedec_events = jedec_profile();
    match machine.is_time_for_state_transition(jedec_events.as_slice()) {
        Some(event) => {
            machine.process_state_change(cell, event);
        },
        None => {},
    }
    let heater = machine.run(cell, transfer);
    proof {
        law_tick_leaves_heater_safe(
            old(machine)@.after_due(jedec_events@, old(cell)@.latest),
            decoded(transfer) is Err,
            cell@.latest,
        );
    }
    let next = if channel.has_pending() {
        NextStep::AwaitRequest
    } else {
        NextStep::TickAfterPeriod
    };
    LoopAction { heater, next }
}

/// Safety of a tick, from any state: with no sample the heater is told to
/// switch off and is off afterwards; so it is when the tick begins in `Off` or
/// in `Failure`; and a machine that is `Off` or in `Failure` after the tick
/// has its heater off.
pub proof fn law_tick_leaves_heater_safe(machine: Machine, faulted: bool, observed: u16)
    ensures
        faulted || machine.state is Off || machine.state is Failure ==> machine.ticked().command(
            faulted,
            observed,
        ) == Some(false) && !machine.after_run(faulted, observed).heater_on,
        machine.after_run(faulted, observed).is_safe(),
{
}

/// Safety of the control loop, from any state: after a reset and after every
/// iteration over any profile, a machine that is `Off` or in `Failure` has its
/// heater off, and an iteration without a sample leaves the heater off.
pub proof fn law_control_loop_is_safe(
    machine: Machine,
    events: Seq<Event>,
    faulted: bool,
    observed_before: u16,
    observed: u16,
)
    ensures
        machine.after_reset(observed).is_safe(),
        machine.after_iteration(events, faulted, observed_before, observed).is_safe(),
        faulted ==> !machine.after_iteration(events, faulted, observed_before, observed).heater_on
            && machine.iteration_command(events, faulted, observed_before, observed) == Some(
            false,
        ),
{
    law_tick_leaves_heater_safe(machine.after_due(events, observed_before), faulted, observed);
}

/// The transition table is complete: a pair that it lists enters the state of
/// its event, and every pair that it does not list ends in `Failure`. From
/// `Failure` every event is unlisted, so only a reset leaves it.
pub proof fn law_transition_table_is_complete(state: State, event: Event)
    ensures
        is_listed_transition(state, event) ==> next_state(state, event) == entered_state(event),
        !is_listed_transition(state, event) ==> next_state(state, event) == State::Failure,
        state is Failure ==> next_state(state, event) == State::Failure,
{
}

/// A reset forgets the run before it: the machine is `Off` at tick zero with
/// the heater off, whatever it was doing. A ramp entered from there starts its
/// line at tick zero and at the sample that is current then.
pub proof fn law_reset_restarts_the_ramp(
    machine: Machine,
    observed_at_reset: u16,
    ramp: Heating,
    observed_at_entry: u16,
)
    ensures
        machine.after_reset(observed_at_reset).state == State::Off,
        machine.after_reset(observed_at_reset).elapsed == 0,
        !machine.after_reset(observed_at_reset).heater_on,
        machine.after_reset(observed_at_reset).after_event(
            Event::Heating(ramp),
            observed_at_entry,
        ) == (Machine {
            state: State::Heating(ramp),
            heater_on: false,
            state_start_temperature: observed_at_entry,
            state_start_time: 0,
            elapsed: 0,
        }),
{
}

/// The tick counter never runs backwards: a tick does not lower it, a
/// transition leaves it alone, and only a reset sets it to zero. The baseline
/// of a state never lies ahead of it.
pub proof fn law_elapsed_time_only_grows(
    machine: Machine,
    event: Event,
    faulted: bool,
    observed: u16,
)
    ensures
        machine.after_run(faulted, observed).elapsed >= machine.elapsed,
        machine.after_event(event, observed).elapsed == machine.elapsed,
        machine.after_reset(observed).elapsed == 0,
        machine.after_event(event, observed).baseline_is_past(),
        machine.after_reset(observed).baseline_is_past(),
        machine.baseline_is_past() ==> machine.after_run(faulted, observed).baseline_is_past(),
{
}

} // verus!
