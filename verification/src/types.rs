//! Shared data model of the supervision core.
//!
//! Network addresses are carried as plain IPv4 words and hardware addresses
//! as plain integers, so that every field of the model is a value the
//! contracts can speak about directly. The layer that talks to the network
//! converts to and from its own address types at the boundary.

use vstd::prelude::*;

verus! {

/// Which of the two hardware link types an association or command pertains
/// to: the low-power radio module or the general-purpose companion computer.
#[derive(Clone, Copy, Debug, PartialEq, Eq, Structural)]
pub enum LinkKind {
    Radio,
    Companion,
}

/// Immutable per-robot static metadata, set at actor creation and read-only
/// thereafter.
#[derive(Clone, Debug, PartialEq)]
pub struct Descriptor {
    /// Robot identifier.
    pub id: String,
    /// Configured hardware address of the radio module, if the robot has one.
    pub radio_macaddr: Option<u64>,
    /// Configured hardware address of the companion computer, if the robot
    /// has one.
    pub companion_macaddr: Option<u64>,
    /// Identifier of the robot in the tracking system, if tracked.
    pub tracking_id: Option<i32>,
}

impl Descriptor {
    /// A field-by-field copy, for query replies.
    pub fn duplicate(&self) -> (d: Descriptor)
        ensures
            d.id@ == self.id@,
            d.radio_macaddr == self.radio_macaddr,
            d.companion_macaddr == self.companion_macaddr,
            d.tracking_id == self.tracking_id,
    {
        Descriptor {
            id: self.id.clone(),
            radio_macaddr: self.radio_macaddr,
            companion_macaddr: self.companion_macaddr,
            tracking_id: self.tracking_id,
        }
    }
}

/// Control software staged for upload: a list of named files.
#[derive(Clone, Debug, PartialEq)]
pub struct Software(pub Vec<(String, Vec<u8>)>);

/// A command for an interactive terminal bridge: open the remote session,
/// run a line of input in it, or close it.
#[derive(Clone, Debug, PartialEq)]
pub enum TerminalAction {
    Start,
    Run(String),
    Stop,
}

/// A command serviced by the radio link supervisor.
#[derive(Clone, Debug, PartialEq)]
pub enum XbeeAction {
    /// Switch power to the companion computer on or off.
    SetUpCorePower(bool),
    /// Switch power to the flight controller on or off.
    SetPixhawkPower(bool),
    /// Forward a terminal command to the serial telemetry bridge.
    Mavlink(TerminalAction),
}

/// A command serviced by the companion link supervisor.
#[derive(Clone, Debug, PartialEq)]
pub enum FernbedienungAction {
    /// Replace the active set of camera streams: start the configured set,
    /// or clear it.
    SetCameraStream(bool),
    /// Power the companion computer down.
    Halt,
    /// Reboot the companion computer.
    Reboot,
    /// Forward a terminal command to the interactive shell bridge.
    Bash(TerminalAction),
    /// Upload staged software to a temporary directory on the device.
    UploadToTemporaryPath(Vec<(String, Vec<u8>)>),
    /// Fetch the kernel log of the device.
    GetKernelMessages,
    /// Make the robot identify itself.
    Identify,
}

/// An observable state-change event, fanned out to every subscriber.
#[derive(Debug, PartialEq)]
pub enum Update {
    /// The radio link was associated with the device at this address.
    XbeeConnected(u32),
    /// The radio link supervisor terminated; the link is down.
    XbeeDisconnected,
    /// The companion link was associated with the device at this address.
    FernbedienungConnected(u32),
    /// The companion link supervisor terminated; the link is down.
    FernbedienungDisconnected,
    /// A link-margin reading from the radio module.
    XbeeSignal(i32),
    /// A signal-strength reading from the companion computer.
    FernbedienungSignal(i32),
    /// A battery percentage derived from a telemetry frame.
    Battery(i32),
    /// The power state derived from the radio module's digital pins.
    PowerState { upcore: bool, pixhawk: bool },
    /// A chunk of shell output or error output, converted to text.
    Bash(String),
    /// A camera frame, or the error that fetching one produced.
    Camera { camera: String, result: Result<Vec<u8>, String> },
}

/// The error taxonomy of the supervision core.
#[derive(Clone, Copy, Debug, PartialEq, Eq, Structural)]
pub enum Error {
    /// One-time link setup failed: fatal to that association attempt, the
    /// link remains unassociated.
    Configuration,
    /// A single probe or bridge operation failed; recovered locally by
    /// bounded retry or restart.
    Transport,
    /// A command targeted a link kind with no active association; reported
    /// immediately, never retried.
    NotAssociated,
    /// The target task terminated before servicing the request.
    NoResponse,
    /// The operation is not offered by this supervisor.
    NotSupported,
}

impl Error {
    /// A short description of the error, for logs and replies.
    pub fn message(&self) -> (m: &'static str)
        ensures
            m@ == spec_error_message(*self),
    {
        match self {
            Error::Configuration => "one-time link configuration failed",
            Error::Transport => "could not communicate with the device",
            Error::NotAssociated => "link is not associated",
            Error::NoResponse => "did not receive a response",
            Error::NotSupported => "operation is not supported",
        }
    }
}

/// The text that [`Error::message`] returns for each variant.
pub open spec fn spec_error_message(e: Error) -> Seq<char> {
    match e {
        Error::Configuration => "one-time link configuration failed"@,
        Error::Transport => "could not communicate with the device"@,
        Error::NotAssociated => "link is not associated"@,
        Error::NoResponse => "did not receive a response"@,
        Error::NotSupported => "operation is not supported"@,
    }
}

} // verus!
