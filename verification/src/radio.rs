//! Radio link supervisor.
//!
//! One instance per robot radio link. On association the caller performs the
//! one-time link configuration given by [`radio_pin_config`] (pin modes,
//! enabling the serial communication service, fixing the baud rate); failure
//! of that setup is fatal and reported to whoever requested the association.
//! The main loop then multiplexes the link-margin probe, the pin-state
//! probe, the command channel and the serial bridge's completion; this
//! module holds the decisions of that loop.

use vstd::prelude::*;

use crate::probe::{Probe, ProbeStep, probe_wf};
use crate::types::{TerminalAction, Update, XbeeAction};

verus! {

/// A digital pin of the radio module.
#[derive(Clone, Copy, Debug, PartialEq, Eq, Structural)]
pub enum Pin {
    Dout,
    Din,
    Dio0,
    Dio1,
    Dio2,
    Dio3,
    Dio4,
    Dio6,
    Dio7,
    Dio11,
    Dio12,
}

/// The mode a digital pin is programmed to.
#[derive(Clone, Copy, Debug, PartialEq, Eq, Structural)]
pub enum PinMode {
    Disable,
    Alternate,
    Input,
    OutputDefaultLow,
}

/// Pin that switches power to the companion computer.
pub const UPCORE_POWER_PIN: Pin = Pin::Dio11;

/// Pin that switches power to the flight controller.
pub const PIXHAWK_POWER_PIN: Pin = Pin::Dio12;

/// The one-time pin configuration of the radio module: serial console pins
/// without hardware flow control, identifier pins as inputs, and power and
/// multiplexer control pins as outputs that default to off.
pub open spec fn spec_radio_pin_config() -> Seq<(Pin, PinMode)> {
    seq![
        (Pin::Dout, PinMode::Alternate),
        (Pin::Dio6, PinMode::Disable),
        (Pin::Dio7, PinMode::Disable),
        (Pin::Din, PinMode::Alternate),
        (Pin::Dio0, PinMode::Input),
        (Pin::Dio1, PinMode::Input),
        (Pin::Dio2, PinMode::Input),
        (Pin::Dio3, PinMode::Input),
        (Pin::Dio4, PinMode::OutputDefaultLow),
        (Pin::Dio11, PinMode::OutputDefaultLow),
        (Pin::Dio12, PinMode::OutputDefaultLow),
    ]
}

/// The one-time pin configuration, as a list the caller can program onto
/// the device.
pub fn radio_pin_config() -> (cfg: Vec<(Pin, PinMode)>)
    ensures
        cfg@ == spec_radio_pin_config(),
{
    let mut cfg: Vec<(Pin, PinMode)> = Vec::new();
    cfg.push((Pin::Dout, PinMode::Alternate));
    cfg.push((Pin::Dio6, PinMode::Disable));
    cfg.push((Pin::Dio7, PinMode::Disable));
    cfg.push((Pin::Din, PinMode::Alternate));
    cfg.push((Pin::Dio0, PinMode::Input));
    cfg.push((Pin::Dio1, PinMode::Input));
    cfg.push((Pin::Dio2, PinMode::Input));
    cfg.push((Pin::Dio3, PinMode::Input));
    cfg.push((Pin::Dio4, PinMode::OutputDefaultLow));
    cfg.push((Pin::Dio11, PinMode::OutputDefaultLow));
    cfg.push((Pin::Dio12, PinMode::OutputDefaultLow));
    assert(cfg@ =~= spec_radio_pin_config());
    cfg
}

/// The value of the first reading of `pin` in a pin-state report, if any.
pub open spec fn spec_pin_lookup(pins: Seq<(Pin, bool)>, pin: Pin) -> Option<bool>
    decreases pins.len(),
{
    if pins.len() == 0 {
        None
    } else if pins[0].0 == pin {
        Some(pins[0].1)
    } else {
        spec_pin_lookup(pins.drop_first(), pin)
    }
}

/// Derives the power-state update from a pin-state report: the companion
/// computer's power pin and the flight controller's power pin must both be
/// present, else no update can be made.
pub fn power_state_update(pins: &Vec<(Pin, bool)>) -> (u: Option<Update>)
    ensures
        match (spec_pin_lookup(pins@, UPCORE_POWER_PIN), spec_pin_lookup(
            pins@,
            PIXHAWK_POWER_PIN,
        )) {
            (Some(upcore), Some(pixhawk)) => u == Some(Update::PowerState { upcore, pixhawk }),
            _ => u is None,
        },
{
    let upcore = pin_lookup(pins, UPCORE_POWER_PIN);
    let pixhawk = pin_lookup(pins, PIXHAWK_POWER_PIN);
    match (upcore, pixhawk) {
        (Some(upcore), Some(pixhawk)) => Some(Update::PowerState { upcore, pixhawk }),
        _ => None,
    }
}

/// Finds the first reading of `pin` in a pin-state report.
fn pin_lookup(pins: &Vec<(Pin, bool)>, pin: Pin) -> (r: Option<bool>)
    ensures
        r == spec_pin_lookup(pins@, pin),
{
    let mut i: usize = 0;
    proof {
        assert(pins@.skip(0) =~= pins@);
    }
    while i < pins.len()
        invariant
            i <= pins@.len(),
            spec_pin_lookup(pins@, pin) == spec_pin_lookup(pins@.skip(i as int), pin),
        decreases pins@.len() - i,
    {
        proof {
            assert(pins@.skip(i as int).drop_first() =~= pins@.skip(i as int + 1));
        }
        if pins[i].0 == pin {
            return Some(pins[i].1);
        }
        i = i + 1;
    }
    None
}

/// An event the radio link supervisor reacts to.
#[derive(Debug, PartialEq)]
pub enum RadioEvent {
    /// The link-margin probe polled: a reading, or a failed poll.
    MarginPoll(Option<i32>),
    /// The pin-state probe polled: a report, or a failed poll.
    PinsPoll(Option<Vec<(Pin, bool)>>),
    /// A command arrived on the supervisor's channel.
    Command(XbeeAction),
    /// The command channel is closed: every sender is gone.
    MailboxClosed,
    /// The serial bridge task completed.
    BridgeExited,
}

/// What the caller must do after one step of the radio link supervisor.
#[derive(Debug, PartialEq)]
pub enum RadioEffect {
    /// Push this update to the broadcaster.
    Emit(Update),
    /// Write this output pin on the device and answer the command's reply
    /// slot with the outcome of the write.
    WriteOutput(Pin, bool),
    /// Forward this command, with its reply slot, to the serial bridge; if
    /// the bridge's channel is gone, answer the reply slot with
    /// [`crate::types::Error::NoResponse`].
    ForwardToBridge(TerminalAction),
    /// Start a new serial bridge with a freshly created command channel.
    RestartBridge,
    /// Leave the main loop; the link is down for the robot actor.
    Exit,
    /// Nothing to do.
    Nothing,
}

/// Why the supervisor left its main loop.
#[derive(Clone, Copy, Debug, PartialEq, Eq, Structural)]
pub enum ExitReason {
    /// The command channel closed: a normal shutdown.
    MailboxClosed,
    /// A probe exhausted its failure budget: the link is down.
    LinkDown,
}

/// The state of one radio link supervisor.
#[derive(Clone, Debug, PartialEq)]
pub struct RadioSupervisor {
    /// Whether the main loop is still running.
    pub live: bool,
    /// Why the loop was left, once it has been.
    pub exit_reason: Option<ExitReason>,
    /// Retry state of the link-margin probe.
    pub margin_probe: Probe,
    /// Retry state of the pin-state probe.
    pub pins_probe: Probe,
    /// How many serial bridges have been started, counting the first; each
    /// restart hands out a fresh command channel.
    pub bridge_generation: u64,
}

impl RadioSupervisor {
    /// The supervisor's invariant: its probes are well formed, and it has
    /// an exit reason exactly when it has left the loop.
    pub open spec fn wf(self) -> bool {
        &&& probe_wf(self.margin_probe)
        &&& probe_wf(self.pins_probe)
        &&& self.live ==> self.margin_probe.live && self.pins_probe.live
        &&& self.live <==> self.exit_reason is None
    }

    /// A fresh supervisor, entered after one-time link configuration
    /// succeeded: live, fresh probes, and the first serial bridge started.
    pub fn new() -> (s: RadioSupervisor)
        ensures
            s.wf(),
            s.live,
            s.margin_probe == (Probe { failures: 0, live: true }),
            s.pins_probe == (Probe { failures: 0, live: true }),
            s.bridge_generation == 1,
    {
        RadioSupervisor {
            live: true,
            exit_reason: None,
            margin_probe: Probe::new(),
            pins_probe: Probe::new(),
            bridge_generation: 1,
        }
    }

    /// Reacts to one event of the main loop. Probe readings become updates;
    /// a probe that exhausts its failure budget takes the link down; power
    /// commands are serviced directly and terminal commands forwarded to
    /// the serial bridge; a bridge exit is answered by an immediate restart
    /// with a fresh channel, and never by the supervisor exiting.
    pub fn step(&mut self, event: RadioEvent) -> (eff: RadioEffect)
        requires
            old(self).wf(),
            old(self).live,
            old(self).bridge_generation < u64::MAX,
        ensures
            final(self).wf(),
            match event {
                RadioEvent::MarginPoll(reading) => {
                    &&& final(self).pins_probe == old(self).pins_probe
                    &&& final(self).bridge_generation == old(self).bridge_generation
                    &&& match reading {
                        Some(margin) => {
                            &&& final(self).margin_probe == (Probe { failures: 0, live: true })
                            &&& final(self).live
                            &&& eff == RadioEffect::Emit(Update::XbeeSignal(margin))
                        },
                        None => {
                            if old(self).margin_probe.failures + 1
                                < crate::probe::PROBE_FAILURE_LIMIT {
                                &&& final(self).live
                                &&& final(self).margin_probe.failures == old(
                                    self,
                                ).margin_probe.failures + 1
                                &&& eff == RadioEffect::Nothing
                            } else {
                                &&& !final(self).live
                                &&& final(self).exit_reason == Some(ExitReason::LinkDown)
                                &&& eff == RadioEffect::Exit
                            }
                        },
                    }
                },
                RadioEvent::PinsPoll(report) => {
                    &&& final(self).margin_probe == old(self).margin_probe
                    &&& final(self).bridge_generation == old(self).bridge_generation
                    &&& match report {
                        Some(pins) => {
                            &&& final(self).pins_probe == (Probe { failures: 0, live: true })
                            &&& final(self).live
                            &&& match (spec_pin_lookup(pins@, UPCORE_POWER_PIN), spec_pin_lookup(
                                pins@,
                                PIXHAWK_POWER_PIN,
                            )) {
                                (Some(upcore), Some(pixhawk)) => eff == RadioEffect::Emit(
                                    Update::PowerState { upcore, pixhawk },
                                ),
                                _ => eff == RadioEffect::Nothing,
                            }
                        },
                        None => {
                            if old(self).pins_probe.failures + 1
                                < crate::probe::PROBE_FAILURE_LIMIT {
                                &&& final(self).live
                                &&& final(self).pins_probe.failures == old(
                                    self,
                                ).pins_probe.failures + 1
                                &&& eff == RadioEffect::Nothing
                            } else {
                                &&& !final(self).live
                                &&& final(self).exit_reason == Some(ExitReason::LinkDown)
                                &&& eff == RadioEffect::Exit
                            }
                        },
                    }
                },
                RadioEvent::Command(action) => {
                    &&& *final(self) == *old(self)
                    &&& match action {
                        XbeeAction::SetUpCorePower(enable) => eff == RadioEffect::WriteOutput(
                            UPCORE_POWER_PIN,
                            enable,
                        ),
                        XbeeAction::SetPixhawkPower(enable) => eff == RadioEffect::WriteOutput(
                            PIXHAWK_POWER_PIN,
                            enable,
                        ),
                        XbeeAction::Mavlink(term) => eff == RadioEffect::ForwardToBridge(term),
                    }
                },
                RadioEvent::MailboxClosed => {
                    &&& !final(self).live
                    &&& final(self).exit_reason == Some(ExitReason::MailboxClosed)
                    &&& eff == RadioEffect::Exit
                },
                RadioEvent::BridgeExited => {
                    &&& final(self).live
                    &&& final(self).bridge_generation == old(self).bridge_generation + 1
                    &&& final(self).margin_probe == old(self).margin_probe
                    &&& final(self).pins_probe == old(self).pins_probe
                    &&& eff == RadioEffect::RestartBridge
                },
            },
    {
        match event {
            RadioEvent::MarginPoll(reading) => match reading {
                Some(margin) => {
                    let out = self.margin_probe.step(true);
                    RadioEffect::Emit(Update::XbeeSignal(margin))
                },
                None => {
                    let out = self.margin_probe.step(false);
                    if out == ProbeStep::Fail {
                        self.live = false;
                        self.exit_reason = Some(ExitReason::LinkDown);
                        RadioEffect::Exit
                    } else {
                        RadioEffect::Nothing
                    }
                },
            },
            RadioEvent::PinsPoll(report) => match report {
                Some(pins) => {
                    let out = self.pins_probe.step(true);
                    match power_state_update(&pins) {
                        Some(u) => RadioEffect::Emit(u),
                        None => RadioEffect::Nothing,
                    }
                },
                None => {
                    let out = self.pins_probe.step(false);
                    if out == ProbeStep::Fail {
                        self.live = false;
                        self.exit_reason = Some(ExitReason::LinkDown);
                        RadioEffect::Exit
                    } else {
                        RadioEffect::Nothing
                    }
                },
            },
            RadioEvent::Command(action) => match action {
                XbeeAction::SetUpCorePower(enable) => RadioEffect::WriteOutput(
                    UPCORE_POWER_PIN,
                    enable,
                ),
                XbeeAction::SetPixhawkPower(enable) => RadioEffect::WriteOutput(
                    PIXHAWK_POWER_PIN,
                    enable,
                ),
                XbeeAction::Mavlink(term) => RadioEffect::ForwardToBridge(term),
            },
            RadioEvent::MailboxClosed => {
                self.live = false;
                self.exit_reason = Some(ExitReason::MailboxClosed);
                RadioEffect::Exit
            },
            RadioEvent::BridgeExited => {
                self.bridge_generation = self.bridge_generation + 1;
                RadioEffect::RestartBridge
            },
        }
    }
}

} // verus!
