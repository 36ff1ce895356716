//! The settings surface: the request/response operations the user
//! interface issues against the connection.
//!
//! Each operation is synchronous and works on plain values. Binding to a
//! device is the driver's work, so the operations that rebind take the
//! driver's outcome — a `Result<PortHandle, ConnectionError>` — as an
//! argument supplied by the caller, and install it.

use vstd::prelude::*;

use crate::connection::{ConnectionError, HardwareConnection, PortHandle};
use crate::level::MAX_CC_VALUE;
use crate::text::{describe, describe_spec, device_label, device_label_spec};

verus! {

/// What the settings window shows: the current configuration and the list
/// of available devices.
pub struct Settings {
    /// Debounce interval of the volume path, in milliseconds.
    pub vol_sample_time: u64,
    /// Labels of the available MIDI sources, in enumeration order.
    pub midi_devices: Vec<String>,
    /// MIDI channel currently accepted.
    pub channel: u8,
    /// Controller number currently accepted.
    pub cc_num: u8,
    /// Whether processing is enabled, i.e. not stopped by the user.
    pub enabled: bool,
}

/// The view of one enumerated display name.
pub open spec fn name_view(name: Option<String>) -> Option<Seq<char>> {
    match name {
        Some(n) => Some(n@),
        None => None,
    }
}

/// Reads the current configuration. `device_names` is the driver's
/// enumeration of available sources — the display name of each, in order —
/// and is turned into one label per device.
pub fn get_settings(conn: &HardwareConnection, device_names: Vec<Option<String>>) -> (s: Settings)
    ensures
        s.vol_sample_time == conn.actuator.sample_interval_ms,
        s.channel == conn.channel,
        s.cc_num == conn.cc_number,
        s.enabled == !conn.is_stopped(),
        s.midi_devices@.len() == device_names@.len(),
        forall|i: int|
            0 <= i < device_names@.len() ==> (#[trigger] s.midi_devices@[i])@
                == device_label_spec(name_view(device_names@[i]), i),
{
    let ghost all_names: Seq<Option<String>> = device_names@;
    let mut rest = device_names;
    let n: usize = rest.len();
    let mut labels: Vec<String> = Vec::new();
    let mut i: usize = 0;
    while rest.len() > 0
        invariant
            n == all_names.len(),
            i + rest.len() == n,
            rest@ =~= all_names.subrange(i as int, all_names.len() as int),
            labels@.len() == i,
            forall|j: int|
                0 <= j < i ==> (#[trigger] labels@[j])@
                    == device_label_spec(name_view(all_names[j]), j),
        decreases rest.len(),
    {
        let name = rest.remove(0);
        proof {
            assert(name == all_names[i as int]);
        }
        labels.push(device_label(name, i));
        i = i + 1;
    }
    Settings {
        vol_sample_time: conn.actuator.get_sleep_time(),
        midi_devices: labels,
        channel: conn.get_channel(),
        cc_num: conn.get_cc(),
        enabled: !matches!(conn.get_error(), Some(ConnectionError::UserStopped)),
    }
}

/// Applies a whole new configuration — device, debounce interval, channel
/// and controller number — then installs the outcome of the caller's fresh
/// bind attempt for the new device. Returns the empty string when the new
/// binding is live, the fault's description otherwise; either way the
/// actuator's level and write clock survive the change.
pub fn set_settings(
    conn: &mut HardwareConnection,
    device_index: usize,
    sample_time: u64,
    channel: u8,
    cc_num: u8,
    binding: Result<PortHandle, ConnectionError>,
) -> (err: String)
    requires
        old(conn).wf(),
        sample_time >= 1,
        1 <= channel <= 16,
        cc_num <= MAX_CC_VALUE,
    ensures
        final(conn).wf(),
        final(conn).source_index == device_index,
        final(conn).channel == channel,
        final(conn).cc_number == cc_num,
        final(conn).actuator.sample_interval_ms == sample_time,
        final(conn).actuator.current_level == old(conn).actuator.current_level,
        final(conn).actuator.last_write_time_ms == old(conn).actuator.last_write_time_ms,
        final(conn).port == binding,
        binding is Ok ==> err@.len() == 0,
        binding matches Err(e) ==> err@ == describe_spec(e) && err@.len() > 0,
{
    conn.set_source_index(device_index);
    conn.actuator.set_sleep_time(sample_time);
    conn.set_cc(cc_num);
    conn.set_channel(channel);
    conn.set_port(binding);
    error_string(conn)
}

/// Reads the health of the connection: the empty string while a binding is
/// live, the recorded fault's description — `UserStopped` included —
/// otherwise.
pub fn get_error(conn: &HardwareConnection) -> (err: String)
    ensures
        conn.port is Ok ==> err@.len() == 0,
        conn.port matches Err(e) ==> err@ == describe_spec(e) && err@.len() > 0,
{
    error_string(conn)
}

/// Re-issues the binding without changing any filter: installs the outcome
/// of the caller's fresh bind attempt and reports the resulting health, as
/// [`get_error`] would. Recovers a faulted connection when the device is
/// available again; records the new fault when it is not.
pub fn attempt_restart(
    conn: &mut HardwareConnection,
    binding: Result<PortHandle, ConnectionError>,
) -> (err: String)
    requires
        old(conn).wf(),
    ensures
        final(conn).wf(),
        *final(conn) == old(conn).set_port_spec(binding),
        final(conn).port == binding,
        binding is Ok ==> err@.len() == 0 && final(conn).is_active(),
        binding matches Err(e) ==> err@ == describe_spec(e) && err@.len() > 0,
{
    conn.set_port(binding);
    error_string(conn)
}

/// The error report shared by the operations above.
fn error_string(conn: &HardwareConnection) -> (err: String)
    ensures
        conn.port is Ok ==> err@.len() == 0,
        conn.port matches Err(e) ==> err@ == describe_spec(e) && err@.len() > 0,
{
    match conn.get_error() {
        Some(e) => describe(e),
        None => String::new(),
    }
}

} // verus!
