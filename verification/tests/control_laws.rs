use thermo_esp::device_logic::heater_controller::StateMachineSharedData;
use thermo_esp::device_logic::profile::{Heating, KeepTemperature};
use thermo_esp::hardware_concierge::thermo_control::ThermoControl;

fn baseline(start_temperature: u16, start_time: u32, now: u32) -> StateMachineSharedData {
    StateMachineSharedData {
        thermo: ThermoControl::new(),
        temperature_when_actual_state_start: start_temperature,
        time_when_actual_state_start: start_time,
        actual_time: now,
    }
}

#[test]
fn deadband_switches_on_below_the_band() {
    let soak = KeepTemperature { target_temperature: 100, hysteresis: 5, expected_duration_s: 60 };
    assert_eq!(soak.decide_heater_state_change(94), Some(true));
    assert_eq!(soak.decide_heater_state_change(0), Some(true));
}

#[test]
fn deadband_switches_off_above_the_band() {
    let soak = KeepTemperature { target_temperature: 100, hysteresis: 5, expected_duration_s: 60 };
    assert_eq!(soak.decide_heater_state_change(106), Some(false));
    assert_eq!(soak.decide_heater_state_change(105), Some(false));
    assert_eq!(soak.decide_heater_state_change(u16::MAX), Some(false));
}

#[test]
fn deadband_leaves_the_heater_alone_inside_the_band() {
    let soak = KeepTemperature { target_temperature: 100, hysteresis: 5, expected_duration_s: 60 };
    assert_eq!(soak.decide_heater_state_change(100), None);
    assert_eq!(soak.decide_heater_state_change(95), None);
    assert_eq!(soak.decide_heater_state_change(104), None);
}

#[test]
fn deadband_wider_than_the_target_never_switches_on() {
    let soak = KeepTemperature { target_temperature: 3, hysteresis: 5, expected_duration_s: 60 };
    assert_eq!(soak.decide_heater_state_change(0), None);
    assert_eq!(soak.decide_heater_state_change(7), None);
    assert_eq!(soak.decide_heater_state_change(8), Some(false));
}

#[test]
fn deadband_above_the_temperature_range_never_switches_off() {
    let soak =
        KeepTemperature { target_temperature: 65000, hysteresis: 1000, expected_duration_s: 60 };
    assert_eq!(soak.decide_heater_state_change(u16::MAX), None);
    assert_eq!(soak.decide_heater_state_change(64000), None);
    assert_eq!(soak.decide_heater_state_change(63999), Some(true));
}

#[test]
fn ramp_heats_when_behind_schedule() {
    let ramp = Heating { target_temperature: 100, expected_duration_s: 60 };
    assert!(ramp.decide_heater_state(&baseline(20, 0, 30), 50));
}

#[test]
fn ramp_rests_when_ahead_of_schedule() {
    let ramp = Heating { target_temperature: 100, expected_duration_s: 60 };
    assert!(!ramp.decide_heater_state(&baseline(20, 0, 30), 70));
}

#[test]
fn ramp_expects_sixty_degrees_half_way() {
    let ramp = Heating { target_temperature: 100, expected_duration_s: 60 };
    assert!(ramp.decide_heater_state(&baseline(20, 0, 30), 60));
    assert!(!ramp.decide_heater_state(&baseline(20, 0, 30), 61));
}

#[test]
fn ramp_is_measured_from_the_start_of_the_phase() {
    let ramp = Heating { target_temperature: 100, expected_duration_s: 60 };
    assert!(ramp.decide_heater_state(&baseline(20, 100, 130), 60));
    assert!(!ramp.decide_heater_state(&baseline(20, 100, 130), 61));
    assert!(ramp.decide_heater_state(&baseline(20, 100, 100), 20));
    assert!(!ramp.decide_heater_state(&baseline(20, 100, 100), 21));
}

#[test]
fn ramp_line_is_not_rounded() {
    // 20 degrees in 60 seconds: a third of a degree per second.
    let ramp = Heating { target_temperature: 40, expected_duration_s: 60 };
    assert!(ramp.decide_heater_state(&baseline(20, 0, 2), 20));
    assert!(!ramp.decide_heater_state(&baseline(20, 0, 2), 21));
    assert!(ramp.decide_heater_state(&baseline(20, 0, 3), 21));
    assert!(!ramp.decide_heater_state(&baseline(20, 0, 3), 22));
    assert!(ramp.decide_heater_state(&baseline(20, 0, 59), 39));
    assert!(!ramp.decide_heater_state(&baseline(20, 0, 59), 40));
}

#[test]
fn ramp_continues_past_its_expected_duration() {
    let ramp = Heating { target_temperature: 100, expected_duration_s: 60 };
    assert!(ramp.decide_heater_state(&baseline(20, 0, 90), 140));
    assert!(!ramp.decide_heater_state(&baseline(20, 0, 90), 141));
}

#[test]
fn ramp_towards_a_lower_target_slopes_down() {
    let ramp = Heating { target_temperature: 40, expected_duration_s: 60 };
    assert!(ramp.decide_heater_state(&baseline(100, 0, 30), 70));
    assert!(!ramp.decide_heater_state(&baseline(100, 0, 30), 71));
    assert!(!ramp.decide_heater_state(&baseline(100, 0, 100), 1));
    assert!(ramp.decide_heater_state(&baseline(100, 0, 100), 0));
}

#[test]
fn ramp_without_duration_keeps_the_heater_off() {
    let ramp = Heating { target_temperature: 100, expected_duration_s: 0 };
    assert!(!ramp.decide_heater_state(&baseline(20, 0, 0), 0));
    assert!(!ramp.decide_heater_state(&baseline(20, 0, 30), 20));
}

#[test]
fn ramp_with_extreme_values_does_not_overflow() {
    let ramp = Heating { target_temperature: u16::MAX, expected_duration_s: u32::MAX };
    assert!(ramp.decide_heater_state(&baseline(0, 0, u32::MAX), u16::MAX));
    assert!(!ramp.decide_heater_state(&baseline(0, 0, u32::MAX - 1), u16::MAX));
    assert!(ramp.decide_heater_state(&baseline(u16::MAX, 0, u32::MAX), 0));
    let back = Heating { target_temperature: 0, expected_duration_s: u32::MAX };
    assert!(!back.decide_heater_state(&baseline(u16::MAX, 0, u32::MAX), 1));
    assert!(back.decide_heater_state(&baseline(u16::MAX, 0, u32::MAX), 0));
}

#[test]
fn tick_counter_stops_at_its_largest_value() {
    let mut shared = baseline(0, 0, u32::MAX - 1);
    shared.update_time();
    assert_eq!(shared.actual_time, u32::MAX);
    shared.update_time();
    assert_eq!(shared.actual_time, u32::MAX);
    let mut fresh = baseline(0, 0, 0);
    fresh.update_time();
    assert_eq!(fresh.actual_time, 1);
}
