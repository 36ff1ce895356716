//! The hardware connection: one MIDI input binding, its filter, and the
//! actuator it drives.
//!
//! A [`HardwareConnection`] owns the filter (device index, channel,
//! controller number), the current binding state, and the
//! [`VolumeActuator`]. The driver itself lives outside the library: it
//! reports the outcome of a binding attempt as a
//! `Result<PortHandle, ConnectionError>`, and delivers each parsed packet
//! to [`HardwareConnection::on_packet`], which filters it, converts its
//! value and forwards the level to the actuator.

use vstd::prelude::*;

use crate::actuator::VolumeActuator;
use crate::level::{convert, convert_spec, MAX_CC_VALUE};

verus! {

/// MIDI channel accepted until one is configured: channel 1.
pub const DEFAULT_CHANNEL: u8 = 1;

/// Controller number accepted until one is configured: 7, the MIDI channel
/// volume controller.
pub const DEFAULT_CC_NUMBER: u8 = 7;

/// Why no packets are being forwarded.
#[derive(Clone, Copy, PartialEq, Eq, Structural, Debug)]
pub enum ConnectionError {
    /// The driver could not open the selected device: missing, already in
    /// use, or rejected by the driver.
    BindFailed,
    /// The user disabled processing; a sentinel, not a device fault.
    UserStopped,
    /// Any other fault the driver reported, carried as its opaque code.
    Driver(u32),
}

/// A live registration with the driver, delivering packets of the device it
/// was opened on.
#[derive(Clone, Copy, PartialEq, Eq, Structural, Debug)]
pub struct PortHandle {
    /// Index of the device the binding was opened on.
    pub source_index: usize,
}

/// One received Control Change event, as the driver parsed it.
#[derive(Clone, Copy, PartialEq, Eq, Structural, Debug)]
pub struct MidiPacket {
    /// MIDI channel the event arrived on, `1..=16`.
    pub channel: u8,
    /// Controller number of the event, `0..=127`.
    pub controller: u8,
    /// Controller value, `0..=127`.
    pub value: u8,
}

/// Where a connection stands in its lifecycle, derived from its binding
/// slot: forwarding packets, stopped on purpose, or broken by a fault.
#[derive(Clone, Copy, PartialEq, Eq, Structural, Debug)]
pub enum BindingPhase {
    /// A binding is live and matching packets are forwarded.
    Active,
    /// The user disabled processing; not a fault.
    Stopped,
    /// A fault is recorded; recoverable by a fresh bind.
    Faulted,
}

/// The connection: filter fields, binding state, and the owned actuator.
pub struct HardwareConnection {
    /// Index of the currently selected hardware input device.
    pub source_index: usize,
    /// MIDI channel to accept, `1..=16`.
    pub channel: u8,
    /// Controller number to accept, `0..=127`.
    pub cc_number: u8,
    /// The current binding, or the reason there is none.
    pub port: Result<PortHandle, ConnectionError>,
    /// The actuator fed by accepted packets.
    pub actuator: VolumeActuator,
}

impl HardwareConnection {
    /// Well-formedness: the filter fields are in range and the actuator is
    /// well formed.
    pub open spec fn wf(self) -> bool {
        &&& 1 <= self.channel <= 16
        &&& self.cc_number <= MAX_CC_VALUE
        &&& self.actuator.wf()
    }

    /// Whether packets are being forwarded: the binding is live.
    pub open spec fn is_active(self) -> bool {
        self.port is Ok
    }

    /// Whether the user stopped processing on purpose.
    pub open spec fn is_stopped(self) -> bool {
        self.port == Err::<PortHandle, ConnectionError>(ConnectionError::UserStopped)
    }

    /// The lifecycle phase the binding slot puts the connection in.
    pub open spec fn phase(self) -> BindingPhase {
        match self.port {
            Ok(_) => BindingPhase::Active,
            Err(ConnectionError::UserStopped) => BindingPhase::Stopped,
            Err(_) => BindingPhase::Faulted,
        }
    }

    /// Whether a packet passes the current filter and a live binding.
    pub open spec fn accepts(self, packet: MidiPacket) -> bool {
        &&& self.is_active()
        &&& packet.channel == self.channel
        &&& packet.controller == self.cc_number
    }

    /// What replacing the binding does: only `port` changes.
    pub open spec fn set_port_spec(self, binding: Result<PortHandle, ConnectionError>) -> HardwareConnection {
        HardwareConnection { port: binding, ..self }
    }

    /// What one delivered packet does: a packet that fails the filter, or
    /// arrives while no binding is live, changes nothing and triggers no
    /// write; an accepted packet is converted and handed to the actuator.
    pub open spec fn on_packet_spec(self, packet: MidiPacket, now_ms: u64) -> (HardwareConnection, Option<u32>) {
        if self.accepts(packet) {
            let (a2, write) = self.actuator.set_spec(convert_spec(packet.value as int) as u32, now_ms);
            (HardwareConnection { actuator: a2, ..self }, write)
        } else {
            (self, None)
        }
    }

    /// Creates a connection for the device at `source_index`, owning
    /// `actuator`, with the default filter. `binding` is the outcome of the
    /// driver's initial binding attempt: the connection is returned whether
    /// or not that attempt succeeded, and a failure stays inspectable
    /// through [`HardwareConnection::get_error`].
    pub fn new(
        source_index: usize,
        actuator: VolumeActuator,
        binding: Result<PortHandle, ConnectionError>,
    ) -> (c: HardwareConnection)
        requires
            actuator.wf(),
        ensures
            c.wf(),
            c.source_index == source_index,
            c.channel == DEFAULT_CHANNEL,
            c.cc_number == DEFAULT_CC_NUMBER,
            c.port == binding,
            c.actuator == actuator,
    {
        HardwareConnection {
            source_index,
            channel: DEFAULT_CHANNEL,
            cc_number: DEFAULT_CC_NUMBER,
            port: binding,
            actuator,
        }
    }

    /// The error currently recorded in the binding slot, or `None` while a
    /// binding is live.
    pub fn get_error(&self) -> (e: Option<ConnectionError>)
        ensures
            e == (match self.port {
                Ok(_) => None::<ConnectionError>,
                Err(err) => Some(err),
            }),
    {
        match &self.port {
            Ok(_) => None,
            Err(err) => Some(*err),
        }
    }

    /// Atomically replaces the binding with the supplied outcome, dropping
    /// any previously held one. Passing `Err(ConnectionError::UserStopped)`
    /// disables processing without a bind attempt; passing a fresh driver
    /// outcome installs it. Filters and actuator are untouched.
    pub fn set_port(&mut self, binding: Result<PortHandle, ConnectionError>)
        ensures
            *final(self) == old(self).set_port_spec(binding),
            final(self).port == binding,
    {
        self.port = binding;
    }

    /// Updates the selected device index; the binding is not touched until
    /// the caller rebinds.
    pub fn set_source_index(&mut self, source_index: usize)
        ensures
            *final(self) == (HardwareConnection { source_index, ..*old(self) }),
    {
        self.source_index = source_index;
    }

    /// Updates the accepted channel; the binding is not touched.
    pub fn set_channel(&mut self, channel: u8)
        requires
            1 <= channel <= 16,
        ensures
            *final(self) == (HardwareConnection { channel, ..*old(self) }),
    {
        self.channel = channel;
    }

    /// Updates the accepted controller number; the binding is not touched.
    pub fn set_cc(&mut self, cc_number: u8)
        requires
            cc_number <= MAX_CC_VALUE,
        ensures
            *final(self) == (HardwareConnection { cc_number, ..*old(self) }),
    {
        self.cc_number = cc_number;
    }

    /// Reads the accepted channel.
    pub fn get_channel(&self) -> (c: u8)
        ensures
            c == self.channel,
    {
        self.channel
    }

    /// Reads the accepted controller number.
    pub fn get_cc(&self) -> (n: u8)
        ensures
            n == self.cc_number,
    {
        self.cc_number
    }

    /// Reads the selected device index.
    pub fn get_source_index(&self) -> (i: usize)
        ensures
            i == self.source_index,
    {
        self.source_index
    }

    /// Delivery of one packet, called for every event the driver parses.
    /// Returns the volume level, in tenths, that the caller must now write
    /// to the operating system, or `None` when nothing is to be written —
    /// because the packet was filtered out, no binding is live, or the
    /// actuator's debounce window is still open.
    pub fn on_packet(&mut self, packet: MidiPacket, now_ms: u64) -> (write: Option<u32>)
        requires
            old(self).wf(),
            packet.value <= MAX_CC_VALUE,
            now_ms >= old(self).actuator.last_write_time_ms,
        ensures
            final(self).wf(),
            (*final(self), write) == old(self).on_packet_spec(packet, now_ms),
            final(self).source_index == old(self).source_index,
            final(self).channel == old(self).channel,
            final(self).cc_number == old(self).cc_number,
            final(self).port == old(self).port,
            !old(self).accepts(packet) ==> *final(self) == *old(self) && write is None,
    {
        let live = match &self.port {
            Ok(_) => true,
            Err(_) => false,
        };
        if live && packet.channel == self.channel && packet.controller == self.cc_number {
            proof {
                crate::level::lemma_convert_range(packet.value as int);
            }
            let level = convert(packet.value);
            self.actuator.set(level, now_ms)
        } else {
            None
        }
    }
}

/// Law: no phase is terminal — from any prior phase, installing a binding
/// outcome moves the connection to `Active` on success, to `Stopped` on the
/// user's sentinel, and to `Faulted` on any other error, while the filter
/// fields and the actuator's whole state are untouched.
pub proof fn lemma_set_port_transitions(c: HardwareConnection, binding: Result<PortHandle, ConnectionError>)
    ensures
        ({
            let c2 = c.set_port_spec(binding);
            &&& (binding is Ok <==> c2.phase() == BindingPhase::Active)
            &&& (binding == Err::<PortHandle, ConnectionError>(ConnectionError::UserStopped)
                <==> c2.phase() == BindingPhase::Stopped)
            &&& c2.source_index == c.source_index
            &&& c2.channel == c.channel
            &&& c2.cc_number == c.cc_number
            &&& c2.actuator == c.actuator
        }),
{
}

/// Law: a packet whose channel or controller number does not match the
/// current filter never reaches the actuator — the connection is unchanged
/// and no write is requested.
pub proof fn lemma_filter_mismatch_ignored(c: HardwareConnection, packet: MidiPacket, now_ms: u64)
    requires
        packet.channel != c.channel || packet.controller != c.cc_number,
    ensures
        c.on_packet_spec(packet, now_ms) == (c, None::<u32>),
{
}

/// Law: disabling happens before the next delivery — once the binding is
/// replaced with the user-stop sentinel, a packet, even one matching the
/// filter, changes nothing and requests no write.
pub proof fn lemma_disable_blocks_next_packet(c: HardwareConnection, packet: MidiPacket, now_ms: u64)
    ensures
        ({
            let stopped = c.set_port_spec(Err(ConnectionError::UserStopped));
            stopped.on_packet_spec(packet, now_ms) == (stopped, None::<u32>)
        }),
{
}

} // verus!
