//! The thermocouple converter and the heater switch.
//!
//! The converter answers each bus transfer with a 16-bit frame, high byte
//! first. Bit 2 is set when the thermocouple is not connected. Bits 3 to 14
//! hold the temperature in quarter degrees.

use vstd::prelude::*;

verus! {

/// Why a sample could not be had.
#[derive(Clone, Copy, Debug, PartialEq, Eq, Structural)]
pub enum SensorError {
    /// The bus transfer failed; there is no frame.
    Bus,
    /// The frame has its fault bit set.
    Fault,
}

/// Quarter degrees per degree.
pub const READING_DIVISOR: u16 = 4;

/// The frame as one number, high byte first.
pub open spec fn frame_word(frame: [u8; 2]) -> nat {
    (frame[0] as nat) * 256 + (frame[1] as nat)
}

/// Bit 2 of the frame is set.
pub open spec fn frame_reports_fault(frame: [u8; 2]) -> bool {
    (frame_word(frame) / 4) % 2 == 1
}

/// Bits 3 to 14 of the frame, in whole degrees.
pub open spec fn frame_temperature(frame: [u8; 2]) -> nat {
    ((frame_word(frame) / 8) % 4096) / (READING_DIVISOR as nat)
}

/// The sample that one bus transfer gives. `None` is a transfer that failed.
pub open spec fn decoded(transfer: Option<[u8; 2]>) -> Result<u16, SensorError> {
    match transfer {
        None => Err(SensorError::Bus),
        Some(frame) => if frame_reports_fault(frame) {
            Err(SensorError::Fault)
        } else {
            Ok(frame_temperature(frame) as u16)
        },
    }
}

/// The heater switch as it was last commanded.
pub struct ThermoControl {
    heater_on: bool,
}

impl ThermoControl {
    /// Whether the heater is switched on.
    pub closed spec fn heater_on(&self) -> bool {
        self.heater_on
    }

    /// The hardware after start-up: the heater is off.
    pub fn new() -> (thermo: Self)
        ensures
            !thermo.heater_on(),
    {
        ThermoControl { heater_on: false }
    }

    /// Decodes the outcome of one bus transfer. No sample reaches above 1023
    /// degrees.
    pub fn read_temperature(&self, transfer: Option<[u8; 2]>) -> (reading: Result<u16, SensorError>)
        ensures
            reading == decoded(transfer),
            reading matches Ok(temperature) ==> temperature <= 1023,
    {
        match transfer {
            None => Err(SensorError::Bus),
            Some(frame) => {
                let high: u16 = frame[0] as u16;
                let low: u16 = frame[1] as u16;
                let casted_temp: u16 = (high << 8) | low;
                assert(casted_temp == high * 256 + low) by (bit_vector)
                    requires
                        casted_temp == (high << 8) | low,
                        high < 256,
                        low < 256,
                ;
                assert(((casted_temp & 0x4) >> 2 == 1) == ((casted_temp / 4) % 2 == 1))
                    by (bit_vector);
                assert(((casted_temp & 0x7FF8) >> 3) / 4 == ((casted_temp / 8) % 4096) / 4)
                    by (bit_vector);
                assert(((casted_temp / 8) % 4096) / 4 <= 1023) by (bit_vector);
                if ((casted_temp & 0x4) >> 2) == 1 {
                    Err(SensorError::Fault)
                } else {
                    Ok(((casted_temp & 0x7FF8) >> 3) / READING_DIVISOR)
                }
            },
        }
    }

    /// Switches the heater.
    pub fn set_heater_state(&mut self, state: bool)
        ensures
            final(self).heater_on() == state,
    {
        self.heater_on = state;
    }

    /// Whether the heater is switched on.
    pub fn heater_state(&self) -> (on: bool)
        ensures
            on == self.heater_on(),
    {
        self.heater_on
    }
}

} // verus!
