use thermo_esp::hardware_concierge::thermo_control::{SensorError, ThermoControl, READING_DIVISOR};

fn frame_for(quarter_degrees: u16) -> [u8; 2] {
    (quarter_degrees << 3).to_be_bytes()
}

#[test]
fn heater_is_off_after_start_up() {
    let thermo = ThermoControl::new();
    assert!(!thermo.heater_state());
}

#[test]
fn heater_follows_the_last_command() {
    let mut thermo = ThermoControl::new();
    thermo.set_heater_state(true);
    assert!(thermo.heater_state());
    thermo.set_heater_state(true);
    assert!(thermo.heater_state());
    thermo.set_heater_state(false);
    assert!(!thermo.heater_state());
}

#[test]
fn frame_is_read_high_byte_first() {
    let thermo = ThermoControl::new();
    assert_eq!(READING_DIVISOR, 4);
    // 100 degrees are 400 quarter degrees: 400 << 3 == 0x0C80.
    assert_eq!(thermo.read_temperature(Some([0x0C, 0x80])), Ok(100));
    // The same bytes the other way round: 0x800C has its fault bit set.
    assert_eq!(thermo.read_temperature(Some([0x80, 0x0C])), Err(SensorError::Fault));
    assert_eq!(thermo.read_temperature(Some([0x01, 0x00])), Ok(8));
    assert_eq!(thermo.read_temperature(Some([0x00, 0x80])), Ok(4));
}

#[test]
fn quarter_degrees_are_dropped() {
    let thermo = ThermoControl::new();
    assert_eq!(thermo.read_temperature(Some(frame_for(0))), Ok(0));
    assert_eq!(thermo.read_temperature(Some(frame_for(3))), Ok(0));
    assert_eq!(thermo.read_temperature(Some(frame_for(4))), Ok(1));
    assert_eq!(thermo.read_temperature(Some(frame_for(403))), Ok(100));
    assert_eq!(thermo.read_temperature(Some(frame_for(4095))), Ok(1023));
}

#[test]
fn bits_outside_the_reading_are_ignored() {
    let thermo = ThermoControl::new();
    assert_eq!(thermo.read_temperature(Some([0x8C, 0x80])), Ok(100));
    assert_eq!(thermo.read_temperature(Some([0x0C, 0x83])), Ok(100));
    assert_eq!(thermo.read_temperature(Some([0xFF, 0xFB])), Ok(1023));
}

#[test]
fn fault_bit_gives_a_fault() {
    let thermo = ThermoControl::new();
    assert_eq!(thermo.read_temperature(Some([0x00, 0x04])), Err(SensorError::Fault));
    assert_eq!(thermo.read_temperature(Some([0x0C, 0x84])), Err(SensorError::Fault));
    assert_eq!(thermo.read_temperature(Some([0xFF, 0xFF])), Err(SensorError::Fault));
}

#[test]
fn failed_transfer_gives_a_bus_error() {
    let thermo = ThermoControl::new();
    assert_eq!(thermo.read_temperature(None), Err(SensorError::Bus));
}

#[test]
fn every_frame_decodes_within_range() {
    let thermo = ThermoControl::new();
    let mut word: u16 = 0;
    loop {
        let expected = if word & 0x4 != 0 {
            Err(SensorError::Fault)
        } else {
            Ok(((word >> 3) & 0x0FFF) / 4)
        };
        let reading = thermo.read_temperature(Some(word.to_be_bytes()));
        assert_eq!(reading, expected);
        if let Ok(temperature) = reading {
            assert!(temperature <= 1023);
        }
        if word == u16::MAX {
            break;
        }
        word += 1;
    }
}
