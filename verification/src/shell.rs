//! Interactive shell bridge (companion link only).
//!
//! The bridge owns one interactive shell session on the remote device. A
//! start command opens the remote process with fresh input, output and error
//! channels and a termination handle; run commands write a line to the input
//! channel; a stop command signals termination through the handle. Output
//! and error chunks are converted to text updates. If the remote process
//! exits on its own, the bridge resets to an idle state instead of
//! terminating itself, so its supervisor never observes an error from it.

use vstd::prelude::*;
use vstd::string::StringExecFns;

use crate::types::{TerminalAction, Update};

verus! {

/// The text that converting a byte chunk with replacement of invalid UTF-8
/// sequences yields. A function of the bytes alone.
pub uninterp spec fn lossy_text_of(bytes: Seq<u8>) -> Seq<char>;

/// Relies on String::from_utf8_lossy: the result is a function of the bytes
/// alone; a chunk of valid UTF-8 is converted unchanged, so ASCII bytes map
/// one-to-one to their characters.
#[verifier::external_body]
fn lossy_text(bytes: &Vec<u8>) -> (r: String)
    ensures
        r@ == lossy_text_of(bytes@),
        (forall|i: int| 0 <= i < bytes@.len() ==> bytes@[i] < 128) ==> r@ == bytes@.map_values(
            |b: u8| b as char,
        ),
{
    String::from_utf8_lossy(bytes).into_owned()
}

/// An event the shell bridge reacts to.
#[derive(Debug, PartialEq)]
pub enum ShellEvent {
    /// A command arrived on the bridge's command channel.
    Command(TerminalAction),
    /// The remote shell process exited on its own.
    ProcessExited,
    /// A chunk arrived on the output channel of the running process.
    Output(Vec<u8>),
    /// A chunk arrived on the error channel of the running process.
    ErrorOutput(Vec<u8>),
}

/// What the caller must do after one step of the shell bridge.
#[derive(Debug, PartialEq)]
pub enum ShellEffect {
    /// Open the remote shell process with fresh input, output and error
    /// channels and a fresh termination handle.
    SpawnShell,
    /// Write this text to the input channel of the running process.
    SendInput(String),
    /// Signal termination through the handle; the handle is spent.
    SignalStop,
    /// Push this update to the broadcaster.
    Emit(Update),
    /// Nothing to do.
    Nothing,
}

/// The state of the shell bridge: which session resources are live.
#[derive(Clone, Copy, Debug, PartialEq, Eq, Structural)]
pub struct ShellBridge {
    /// An input channel to a running remote process exists.
    pub stdin_open: bool,
    /// A termination handle for the running process exists; spent by a stop
    /// command.
    pub stop_handle: bool,
}

/// The bridge state after reacting to an event. A start command opens a
/// session (replacing any running one), a stop command spends the
/// termination handle, and the process exiting resets the bridge to idle.
pub open spec fn spec_shell_next(b: ShellBridge, e: ShellEvent) -> ShellBridge {
    match e {
        ShellEvent::Command(TerminalAction::Start) => ShellBridge {
            stdin_open: true,
            stop_handle: true,
        },
        ShellEvent::Command(TerminalAction::Run(_)) => b,
        ShellEvent::Command(TerminalAction::Stop) => ShellBridge {
            stdin_open: b.stdin_open,
            stop_handle: false,
        },
        ShellEvent::ProcessExited => ShellBridge { stdin_open: false, stop_handle: false },
        ShellEvent::Output(_) => b,
        ShellEvent::ErrorOutput(_) => b,
    }
}

impl ShellBridge {
    /// No session resources are live.
    pub open spec fn idle(self) -> bool {
        !self.stdin_open && !self.stop_handle
    }

    /// A fresh bridge, idle.
    pub fn new() -> (b: ShellBridge)
        ensures
            b.idle(),
    {
        ShellBridge { stdin_open: false, stop_handle: false }
    }

    /// Reacts to one event. Run commands are appended a carriage return and
    /// written to the open input channel, and are dropped while no session
    /// is open; output and error chunks become text updates; the process
    /// exiting resets the bridge to idle with no other effect, so the
    /// bridge itself never terminates.
    pub fn step(&mut self, event: ShellEvent) -> (eff: ShellEffect)
        ensures
            *final(self) == spec_shell_next(*old(self), event),
            match event {
                ShellEvent::Command(TerminalAction::Start) => eff == ShellEffect::SpawnShell,
                ShellEvent::Command(TerminalAction::Run(cmd)) => if old(self).stdin_open {
                    &&& eff matches ShellEffect::SendInput(line)
                    &&& line@ == cmd@ + "\r"@
                } else {
                    eff == ShellEffect::Nothing
                },
                ShellEvent::Command(TerminalAction::Stop) => eff == if old(self).stop_handle {
                    ShellEffect::SignalStop
                } else {
                    ShellEffect::Nothing
                },
                ShellEvent::ProcessExited => eff == ShellEffect::Nothing,
                ShellEvent::Output(bytes) => {
                    &&& eff matches ShellEffect::Emit(u)
                    &&& u matches Update::Bash(text)
                    &&& text@ == lossy_text_of(bytes@)
                },
                ShellEvent::ErrorOutput(bytes) => {
                    &&& eff matches ShellEffect::Emit(u)
                    &&& u matches Update::Bash(text)
                    &&& text@ == lossy_text_of(bytes@)
                },
            },
    {
        match event {
            ShellEvent::Command(action) => match action {
                TerminalAction::Start => {
                    self.stdin_open = true;
                    self.stop_handle = true;
                    ShellEffect::SpawnShell
                },
                TerminalAction::Run(cmd) => {
                    if self.stdin_open {
                        ShellEffect::SendInput(cmd.concat("\r"))
                    } else {
                        ShellEffect::Nothing
                    }
                },
                TerminalAction::Stop => {
                    if self.stop_handle {
                        self.stop_handle = false;
                        ShellEffect::SignalStop
                    } else {
                        ShellEffect::Nothing
                    }
                },
            },
            ShellEvent::ProcessExited => {
                self.stdin_open = false;
                self.stop_handle = false;
                ShellEffect::Nothing
            },
            ShellEvent::Output(bytes) => ShellEffect::Emit(Update::Bash(lossy_text(&bytes))),
            ShellEvent::ErrorOutput(bytes) => ShellEffect::Emit(Update::Bash(lossy_text(&bytes))),
        }
    }
}

} // verus!
