//! Serial telemetry bridge (radio link only).
//!
//! The bridge owns a stream-oriented connection to a fixed well-known port
//! on the radio device. It transmits a low-rate keep-alive message on a
//! fixed period, decodes inbound telemetry frames into updates (at minimum
//! a normalized battery percentage), and services a run command by framing
//! the command text into a fixed-width zero-padded payload. Failure to set
//! up the connection is fatal to the bridge: it exits and its supervisor
//! restarts it with a fresh command channel.

use vstd::prelude::*;
use vstd::utf8::encode_utf8;

use crate::battery::{battery_percentage, spec_battery_percentage};
use crate::types::{TerminalAction, Update};

verus! {

/// Well-known port of the serial communication service on the device.
pub const SERIAL_PORT: u16 = 9750;

/// Deadline in milliseconds for setting up the connection.
pub const SERIAL_CONNECT_TIMEOUT_MS: u64 = 1000;

/// Period in milliseconds of the keep-alive message.
pub const KEEP_ALIVE_INTERVAL_MS: u64 = 500;

/// Fixed width in bytes of a framed command payload.
pub const SERIAL_COMMAND_WIDTH: usize = 70;

/// Baud rate the telemetry console runs at.
pub const SERIAL_BAUD_RATE: u32 = 115200;

/// The fixed-width payload for a command: the command's bytes, truncated to
/// the width, then zero-padded up to it.
pub open spec fn spec_padded_command(bytes: Seq<u8>) -> Seq<u8> {
    Seq::new(
        SERIAL_COMMAND_WIDTH as nat,
        |i: int| if i < bytes.len() { bytes[i] } else { 0u8 },
    )
}

/// Frames a command as a fixed-width zero-padded payload.
pub fn pad_command(cmd: &str) -> (frame: Vec<u8>)
    ensures
        frame@ == spec_padded_command(encode_utf8(cmd@)),
        frame@.len() == SERIAL_COMMAND_WIDTH,
{
    let bytes = cmd.as_bytes();
    let mut frame: Vec<u8> = Vec::new();
    let mut i: usize = 0;
    while i < SERIAL_COMMAND_WIDTH
        invariant
            i <= SERIAL_COMMAND_WIDTH,
            bytes@ == encode_utf8(cmd@),
            frame@.len() == i,
            forall|j: int|
                0 <= j < i ==> frame@[j] == (if j < bytes@.len() {
                    bytes@[j]
                } else {
                    0u8
                }),
        decreases SERIAL_COMMAND_WIDTH - i,
    {
        if i < bytes.len() {
            frame.push(bytes[i]);
        } else {
            frame.push(0u8);
        }
        i = i + 1;
    }
    assert(frame@ =~= spec_padded_command(encode_utf8(cmd@)));
    frame
}

/// An event the serial bridge reacts to.
#[derive(Debug, PartialEq)]
pub enum SerialEvent {
    /// The keep-alive period elapsed.
    KeepAliveDue,
    /// A command arrived on the bridge's command channel.
    Command(TerminalAction),
    /// An inbound telemetry frame carried a battery status; the value is
    /// the pack voltage in millivolts.
    FrameBattery(u16),
    /// An inbound telemetry frame was a keep-alive from the device.
    FrameHeartbeat,
    /// An inbound telemetry frame carried console data.
    FrameSerialData(Vec<u8>),
}

/// What the caller must do after one step of the serial bridge.
#[derive(Debug, PartialEq)]
pub enum SerialEffect {
    /// Transmit the keep-alive message.
    SendKeepAlive,
    /// Transmit this fixed-width framed command payload.
    Transmit(Vec<u8>),
    /// Push this update to the broadcaster.
    Emit(Update),
    /// Nothing to do.
    Nothing,
}

/// The state of the serial bridge: the running sequence number of
/// transmitted command frames.
#[derive(Clone, Copy, Debug, PartialEq, Eq, Structural)]
pub struct SerialBridge {
    /// Wrapping count of command frames transmitted so far.
    pub sequence: u8,
}

impl SerialBridge {
    /// A fresh bridge with the sequence count at zero.
    pub fn new() -> (b: SerialBridge)
        ensures
            b.sequence == 0,
    {
        SerialBridge { sequence: 0 }
    }

    /// Reacts to one event. A run command is framed into the fixed-width
    /// payload and counts up the wrapping sequence number; start and stop
    /// have no meaning on this bridge and are ignored; an inbound battery
    /// frame becomes a battery-percentage update; other inbound frames
    /// produce nothing.
    pub fn step(&mut self, event: SerialEvent) -> (eff: SerialEffect)
        ensures
            match event {
                SerialEvent::KeepAliveDue => eff == SerialEffect::SendKeepAlive && *final(self)
                    == *old(self),
                SerialEvent::Command(TerminalAction::Run(cmd)) => {
                    &&& eff matches SerialEffect::Transmit(frame)
                    &&& frame@ == spec_padded_command(encode_utf8(cmd@))
                    &&& final(self).sequence == (if old(self).sequence == 255 {
                        0int
                    } else {
                        old(self).sequence + 1
                    })
                },
                SerialEvent::Command(TerminalAction::Start) => eff == SerialEffect::Nothing
                    && *final(self) == *old(self),
                SerialEvent::Command(TerminalAction::Stop) => eff == SerialEffect::Nothing
                    && *final(self) == *old(self),
                SerialEvent::FrameBattery(pack_mv) => {
                    &&& eff matches SerialEffect::Emit(u)
                    &&& u == Update::Battery(spec_battery_percentage(pack_mv as int) as i32)
                    &&& *final(self) == *old(self)
                },
                SerialEvent::FrameHeartbeat => eff == SerialEffect::Nothing && *final(self)
                    == *old(self),
                SerialEvent::FrameSerialData(_) => eff == SerialEffect::Nothing && *final(self)
                    == *old(self),
            },
    {
        match event {
            SerialEvent::KeepAliveDue => SerialEffect::SendKeepAlive,
            SerialEvent::Command(action) => match action {
                TerminalAction::Run(cmd) => {
                    let frame = pad_command(cmd.as_str());
                    self.sequence = self.sequence.wrapping_add(1);
                    SerialEffect::Transmit(frame)
                },
                TerminalAction::Start => SerialEffect::Nothing,
                TerminalAction::Stop => SerialEffect::Nothing,
            },
            SerialEvent::FrameBattery(pack_mv) => SerialEffect::Emit(
                Update::Battery(battery_percentage(pack_mv)),
            ),
            SerialEvent::FrameHeartbeat => SerialEffect::Nothing,
            SerialEvent::FrameSerialData(_) => SerialEffect::Nothing,
        }
    }
}

} // verus!
