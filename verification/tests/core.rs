use midi2vol::actuator::VolumeActuator;
use midi2vol::connection::{ConnectionError, HardwareConnection, MidiPacket, PortHandle};
use midi2vol::level::convert;
use midi2vol::settings::{attempt_restart, get_error, get_settings, set_settings};
use midi2vol::text::{describe, device_label, u64_to_string};

fn active_connection() -> HardwareConnection {
    let actuator = VolumeActuator::new(50, 100, 0);
    HardwareConnection::new(0, actuator, Ok(PortHandle { source_index: 0 }))
}

#[test]
fn convert_endpoints_and_midpoint() {
    assert_eq!(convert(0), 0);
    assert_eq!(convert(127), 70);
    // round(64 / 127 * 7.0 * 10) / 10 = 3.5, carried as 35 tenths
    assert_eq!(convert(64), 35);
}

#[test]
fn convert_matches_rounded_float_formula() {
    for v in 0u8..=127 {
        let expected = (v as f64 / 127.0 * 7.0 * 10.0).round() as u32;
        assert_eq!(convert(v), expected, "value {}", v);
    }
}

#[test]
fn convert_monotone_over_all_values() {
    for v in 1u8..=127 {
        assert!(convert(v - 1) <= convert(v));
    }
}

#[test]
fn actuator_new_holds_initial_state() {
    let a = VolumeActuator::new(50, 100, 7);
    assert_eq!(a.current_level, 50);
    assert_eq!(a.get_sleep_time(), 100);
    assert_eq!(a.last_write_time_ms, 7);
}

#[test]
fn debounce_window_scenario() {
    // 100 ms interval; the window opened by the creation write-clock closes
    // at t = 100.
    let mut a = VolumeActuator::new(50, 100, 0);
    let w1 = a.set(10, 100);
    assert_eq!(w1, Some(10));
    assert_eq!(a.last_write_time_ms, 100);
    // 50 ms later: recorded, not written.
    let w2 = a.set(20, 150);
    assert_eq!(w2, None);
    assert_eq!(a.current_level, 20);
    assert_eq!(a.last_write_time_ms, 100);
    // After the window: the call's own level is written; 20 is lost for good.
    let w3 = a.set(30, 220);
    assert_eq!(w3, Some(30));
    assert_eq!(a.last_write_time_ms, 220);
}

#[test]
fn burst_in_one_window_writes_nothing_and_keeps_latest() {
    let mut a = VolumeActuator::new(0, 100, 1000);
    assert_eq!(a.set(11, 1010), None);
    assert_eq!(a.set(22, 1020), None);
    assert_eq!(a.set(22, 1030), None);
    assert_eq!(a.set(33, 1099), None);
    assert_eq!(a.current_level, 33);
    assert_eq!(a.last_write_time_ms, 1000);
    // The first call once the window has elapsed writes its own level.
    assert_eq!(a.set(44, 1100), Some(44));
}

#[test]
fn window_boundary_is_inclusive() {
    // A call exactly one interval after the last write is due.
    let mut a = VolumeActuator::new(0, 100, 500);
    assert_eq!(a.set(10, 599), None);
    assert_eq!(a.set(10, 600), Some(10));
}

#[test]
fn faulted_connection_drops_matching_packets() {
    let mut c = active_connection();
    c.set_port(Err(ConnectionError::BindFailed));
    let w = c.on_packet(MidiPacket { channel: 1, controller: 7, value: 127 }, 500);
    assert_eq!(w, None);
    assert_eq!(c.actuator.current_level, 50);
}

#[test]
fn set_sleep_time_replaces_interval_only() {
    let mut a = VolumeActuator::new(50, 100, 0);
    a.set_sleep_time(250);
    assert_eq!(a.get_sleep_time(), 250);
    assert_eq!(a.current_level, 50);
    assert_eq!(a.last_write_time_ms, 0);
}

#[test]
fn new_connection_defaults_and_fields() {
    let c = active_connection();
    assert_eq!(c.get_source_index(), 0);
    assert_eq!(c.get_channel(), 1);
    assert_eq!(c.get_cc(), 7);
    assert_eq!(c.get_error(), None);
}

#[test]
fn matching_packet_reaches_actuator() {
    let mut c = active_connection();
    let w = c.on_packet(MidiPacket { channel: 1, controller: 7, value: 64 }, 200);
    assert_eq!(w, Some(35));
    assert_eq!(c.actuator.current_level, 35);
}

#[test]
fn mismatched_packet_is_dropped() {
    let mut c = active_connection();
    let w = c.on_packet(MidiPacket { channel: 2, controller: 7, value: 64 }, 200);
    assert_eq!(w, None);
    assert_eq!(c.actuator.current_level, 50);
    let w2 = c.on_packet(MidiPacket { channel: 1, controller: 8, value: 64 }, 300);
    assert_eq!(w2, None);
    assert_eq!(c.actuator.current_level, 50);
}

#[test]
fn user_stop_blocks_next_matching_packet() {
    let mut c = active_connection();
    c.set_port(Err(ConnectionError::UserStopped));
    let w = c.on_packet(MidiPacket { channel: 1, controller: 7, value: 64 }, 200);
    assert_eq!(w, None);
    assert_eq!(c.actuator.current_level, 50);
    assert_eq!(c.get_error(), Some(ConnectionError::UserStopped));
    assert_eq!(get_error(&c), "UserStopped");
}

#[test]
fn settings_scenario_with_device_list() {
    let mut c = active_connection();
    c.set_channel(1);
    c.set_cc(7);
    let names = vec![Some("Knob Controller".to_string()), None];
    let s = get_settings(&c, names);
    assert_eq!(s.midi_devices, vec!["Knob Controller".to_string(), "Unnamed source: 1".to_string()]);
    assert_eq!(s.channel, 1);
    assert_eq!(s.cc_num, 7);
    assert_eq!(s.vol_sample_time, 100);
    assert!(s.enabled);
    let w = c.on_packet(MidiPacket { channel: 1, controller: 7, value: 64 }, 200);
    assert_eq!(w, Some(35));
    let w2 = c.on_packet(MidiPacket { channel: 2, controller: 7, value: 64 }, 400);
    assert_eq!(w2, None);
}

#[test]
fn get_settings_reports_stopped_as_disabled() {
    let mut c = active_connection();
    c.set_port(Err(ConnectionError::UserStopped));
    let s = get_settings(&c, Vec::new());
    assert!(!s.enabled);
    assert_eq!(s.midi_devices.len(), 0);
    // A genuine fault is not "disabled": the connection is still enabled,
    // merely broken.
    c.set_port(Err(ConnectionError::BindFailed));
    let s2 = get_settings(&c, Vec::new());
    assert!(s2.enabled);
}

#[test]
fn set_settings_applies_fields_and_installs_binding() {
    let mut c = active_connection();
    let err = set_settings(&mut c, 3, 250, 2, 11, Ok(PortHandle { source_index: 3 }));
    assert_eq!(err, "");
    assert_eq!(c.get_source_index(), 3);
    assert_eq!(c.get_channel(), 2);
    assert_eq!(c.get_cc(), 11);
    assert_eq!(c.actuator.get_sleep_time(), 250);
    assert_eq!(c.actuator.current_level, 50);
    assert_eq!(c.get_error(), None);
}

#[test]
fn set_settings_with_unavailable_device_reports_fault() {
    let mut c = active_connection();
    let err = set_settings(&mut c, 9, 100, 1, 7, Err(ConnectionError::BindFailed));
    assert_eq!(err, "BindFailed");
    assert!(!err.is_empty());
    assert_eq!(c.get_error(), Some(ConnectionError::BindFailed));
    // The replaced binding is inert: a matching packet no longer reaches
    // the actuator.
    let w = c.on_packet(MidiPacket { channel: 1, controller: 7, value: 64 }, 200);
    assert_eq!(w, None);
    assert_eq!(c.actuator.current_level, 50);
}

#[test]
fn attempt_restart_recovers_when_device_returns() {
    let mut c = active_connection();
    c.set_port(Err(ConnectionError::Driver(42)));
    assert_eq!(get_error(&c), "Driver(42)");
    let err = attempt_restart(&mut c, Ok(PortHandle { source_index: 0 }));
    assert_eq!(err, "");
    assert_eq!(c.get_error(), None);
    assert_eq!(get_error(&c), "");
}

#[test]
fn attempt_restart_records_new_fault_when_device_still_missing() {
    let mut c = active_connection();
    c.set_port(Err(ConnectionError::BindFailed));
    let err = attempt_restart(&mut c, Err(ConnectionError::Driver(5)));
    assert_eq!(err, "Driver(5)");
    assert_eq!(c.get_error(), Some(ConnectionError::Driver(5)));
    // Filters survived both faults.
    assert_eq!(c.get_channel(), 1);
    assert_eq!(c.get_cc(), 7);
}

#[test]
fn decimal_rendering() {
    assert_eq!(u64_to_string(0), "0");
    assert_eq!(u64_to_string(7), "7");
    assert_eq!(u64_to_string(42), "42");
    assert_eq!(u64_to_string(1234567890), "1234567890");
    assert_eq!(u64_to_string(u64::MAX), "18446744073709551615");
}

#[test]
fn device_labels() {
    assert_eq!(device_label(Some("Knob Controller".to_string()), 0), "Knob Controller");
    assert_eq!(device_label(None, 1), "Unnamed source: 1");
    assert_eq!(device_label(None, 12), "Unnamed source: 12");
}

#[test]
fn error_descriptions() {
    assert_eq!(describe(ConnectionError::BindFailed), "BindFailed");
    assert_eq!(describe(ConnectionError::UserStopped), "UserStopped");
    assert_eq!(describe(ConnectionError::Driver(3)), "Driver(3)");
}
