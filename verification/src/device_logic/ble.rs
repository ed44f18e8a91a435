//! What the wireless transport exchanges with the controller: the temperature
//! as a two-byte payload going out, a one-byte profile selection coming in.

use vstd::prelude::*;
use crate::device_logic::command_channel::{requested_mode_of, CommandChannel};
use crate::device_logic::heater_controller::{read_temperature, set_heating_profile};
use crate::device_logic::telemetry::TelemetryCell;

verus! {

/// Bytes in a temperature payload.
pub const TEMPERATURE_PAYLOAD_LEN: usize = 2;

/// The handlers that serve the temperature characteristic (`temp_read`) and
/// the profile characteristic (`profile_setup`). Each is called with the
/// offset of the access and the buffer of the transport.
pub struct BluetoothCallbacks<R, W> {
    pub temp_read: R,
    pub profile_setup: W,
}

impl<R: Fn(usize, &mut [u8]) -> usize, W: Fn(usize, &[u8])> BluetoothCallbacks<R, W> {
    pub fn new(temp_read: R, profile_setup: W) -> (callbacks: Self)
        ensures
            callbacks.temp_read == temp_read,
            callbacks.profile_setup == profile_setup,
    {
        BluetoothCallbacks { temp_read, profile_setup }
    }
}

/// A temperature on the air: low byte first.
pub open spec fn payload_of(temperature: u16) -> Seq<u8> {
    seq![(temperature % 256) as u8, (temperature / 256) as u8]
}

/// Encodes a temperature for the transport.
pub fn temperature_payload(temperature: u16) -> (payload: [u8; 2])
    ensures
        payload@ == payload_of(temperature),
{
    let low: u8 = (temperature % 256) as u8;
    let high: u8 = (temperature / 256) as u8;
    let payload: [u8; 2] = [low, high];
    assert(payload@ =~= payload_of(temperature));
    payload
}

/// Serves a read of the temperature characteristic: puts the payload of the
/// latest sample at the front of `data` and returns its length. The rest of
/// `data` is left as it was.
pub fn temp_read(cell: &TelemetryCell, offset: usize, data: &mut [u8]) -> (written: usize)
    requires
        old(data)@.len() >= TEMPERATURE_PAYLOAD_LEN,
    ensures
        written == TEMPERATURE_PAYLOAD_LEN,
        final(data)@ == payload_of(cell@.latest) + old(data)@.skip(
            TEMPERATURE_PAYLOAD_LEN as int,
        ),
{
    let payload = temperature_payload(read_temperature(cell));
    data[0] = payload[0];
    data[1] = payload[1];
    assert(data@ =~= payload_of(cell@.latest) + old(data)@.skip(TEMPERATURE_PAYLOAD_LEN as int));
    TEMPERATURE_PAYLOAD_LEN
}

/// Serves a write to the profile characteristic: the first byte of `data` is
/// the selection code.
pub fn profile_setup(channel: &mut CommandChannel, offset: usize, data: &[u8])
    requires
        data@.len() >= 1,
    ensures
        final(channel)@ == old(channel)@.requested(requested_mode_of(data@[0])),
{
    set_heating_profile(channel, data[0]);
}

/// The notification that is due: the payload of the sample that waits for the
/// listener, which is taken from the cell. `None` when no sample waits.
pub fn next_notification(cell: &mut TelemetryCell) -> (notification: Option<[u8; 2]>)
    ensures
        final(cell)@ == old(cell)@.taken(),
        match old(cell)@.update {
            Some(temperature) => notification is Some && notification->Some_0@ == payload_of(
                temperature,
            ),
            None => notification is None,
        },
{
    match cell.take_update() {
        Some(temperature) => Some(temperature_payload(temperature)),
        None => None,
    }
}

} // verus!
