//! Companion link supervisor.
//!
//! One instance per robot companion-computer link. The main loop multiplexes
//! the signal-strength probe, the active camera streams, the command channel
//! and the shell bridge's completion; this module holds the decisions of
//! that loop. A camera-stream command replaces the active set of per-camera
//! streams wholesale: any previously running streams are cleared before the
//! newly requested set starts, and each stream is independently
//! rate-limited.

use vstd::prelude::*;

use crate::probe::{Probe, ProbeStep, probe_wf};
use crate::types::{Error, FernbedienungAction, TerminalAction, Update};

verus! {

/// Interval in milliseconds between two frames of one camera stream.
pub const CAMERA_FRAME_INTERVAL_MS: u64 = 200;

/// One camera stream to run on the device.
#[derive(Clone, Debug, PartialEq)]
pub struct CameraConfig {
    /// Device path of the camera.
    pub camera: String,
    /// Frame width in pixels.
    pub width: u16,
    /// Frame height in pixels.
    pub height: u16,
    /// Port the stream is served on.
    pub port: u16,
}

/// The views of the camera streams a supervisor runs when streaming is
/// enabled: the device paths and ports, in order.
pub open spec fn spec_camera_set(cfg: Seq<CameraConfig>) -> Seq<(Seq<char>, u16)> {
    cfg.map_values(|c: CameraConfig| (c.camera@, c.port))
}

/// The fixed camera set of the drone's companion computer.
pub fn drone_camera_config() -> (cfg: Vec<CameraConfig>)
    ensures
        spec_camera_set(cfg@) == seq![
            ("/dev/camera0"@, 8000u16),
            ("/dev/camera1"@, 8001u16),
            ("/dev/camera2"@, 8002u16),
            ("/dev/camera3"@, 8003u16),
        ],
        forall|i: int| 0 <= i < cfg@.len() ==> cfg@[i].width == 1024 && cfg@[i].height == 768,
{
    let mut cfg: Vec<CameraConfig> = Vec::new();
    cfg.push(
        CameraConfig { camera: "/dev/camera0".to_owned(), width: 1024, height: 768, port: 8000 },
    );
    cfg.push(
        CameraConfig { camera: "/dev/camera1".to_owned(), width: 1024, height: 768, port: 8001 },
    );
    cfg.push(
        CameraConfig { camera: "/dev/camera2".to_owned(), width: 1024, height: 768, port: 8002 },
    );
    cfg.push(
        CameraConfig { camera: "/dev/camera3".to_owned(), width: 1024, height: 768, port: 8003 },
    );
    assert(spec_camera_set(cfg@) =~= seq![
        ("/dev/camera0"@, 8000u16),
        ("/dev/camera1"@, 8001u16),
        ("/dev/camera2"@, 8002u16),
        ("/dev/camera3"@, 8003u16),
    ]);
    cfg
}

/// The camera set of the ground robot's companion computer: none are
/// configured.
pub fn pipuck_camera_config() -> (cfg: Vec<CameraConfig>)
    ensures
        cfg@ == Seq::<CameraConfig>::empty(),
{
    let cfg: Vec<CameraConfig> = Vec::new();
    assert(cfg@ =~= Seq::<CameraConfig>::empty());
    cfg
}

/// An event the companion link supervisor reacts to.
#[derive(Debug, PartialEq)]
pub enum CompanionEvent {
    /// The signal-strength probe polled: a reading, or a failed poll.
    StrengthPoll(Option<i32>),
    /// One active camera stream produced a frame or a fetch error.
    CameraFrame { camera: String, result: Result<Vec<u8>, String> },
    /// A command arrived on the supervisor's channel.
    Command(FernbedienungAction),
    /// The command channel is closed: every sender is gone.
    MailboxClosed,
    /// The shell bridge task completed.
    BridgeExited,
}

/// What the caller must do after one step of the companion link supervisor.
#[derive(Debug, PartialEq)]
pub enum CompanionEffect {
    /// Push this update to the broadcaster.
    Emit(Update),
    /// Clear every running camera stream, then start one rate-limited
    /// stream per entry of the supervisor's camera set; answer the
    /// command's reply slot with success.
    ReplaceCameraStreams,
    /// Power the device down and answer the command's reply slot with the
    /// outcome.
    Halt,
    /// Reboot the device and answer the command's reply slot with the
    /// outcome.
    Reboot,
    /// Forward this command, with its reply slot, to the shell bridge; if
    /// the bridge's channel is gone, answer the reply slot with
    /// [`Error::NoResponse`].
    ForwardToBridge(TerminalAction),
    /// Answer the command's reply slot with this error.
    ReplyError(Error),
    /// Start a new shell bridge with a freshly created command channel.
    RestartBridge,
    /// Leave the main loop; the link is down for the robot actor.
    Exit,
    /// Nothing to do.
    Nothing,
}

/// Why the supervisor left its main loop.
#[derive(Clone, Copy, Debug, PartialEq, Eq, Structural)]
pub enum CompanionExit {
    /// The command channel closed: a normal shutdown.
    MailboxClosed,
    /// The probe exhausted its failure budget: the link is down.
    LinkDown,
}

/// The state of one companion link supervisor.
#[derive(Clone, Debug, PartialEq)]
pub struct CompanionSupervisor {
    /// Whether the main loop is still running.
    pub live: bool,
    /// Why the loop was left, once it has been.
    pub exit_reason: Option<CompanionExit>,
    /// Retry state of the signal-strength probe.
    pub strength_probe: Probe,
    /// How many shell bridges have been started, counting the first; each
    /// restart hands out a fresh command channel.
    pub bridge_generation: u64,
    /// The camera set this robot kind runs when streaming is enabled.
    pub config: Vec<CameraConfig>,
    /// The camera streams requested to run.
    pub cameras: Vec<CameraConfig>,
}

impl CompanionSupervisor {
    /// The supervisor's invariant: the probe is well formed and live while
    /// the loop runs, and an exit reason exists exactly once it has left.
    pub open spec fn wf(self) -> bool {
        &&& probe_wf(self.strength_probe)
        &&& self.live ==> self.strength_probe.live
        &&& self.live <==> self.exit_reason is None
    }

    /// A fresh supervisor for a robot kind with the given camera set:
    /// live, a fresh probe, the first shell bridge started, and no camera
    /// streams running.
    pub fn new(config: Vec<CameraConfig>) -> (s: CompanionSupervisor)
        ensures
            s.wf(),
            s.live,
            s.strength_probe == (Probe { failures: 0, live: true }),
            s.bridge_generation == 1,
            s.config == config,
            s.cameras@ == Seq::<CameraConfig>::empty(),
    {
        let s = CompanionSupervisor {
            live: true,
            exit_reason: None,
            strength_probe: Probe::new(),
            bridge_generation: 1,
            config,
            cameras: Vec::new(),
        };
        assert(s.cameras@ =~= Seq::<CameraConfig>::empty());
        s
    }

    /// Reacts to one event of the main loop. Probe readings become signal
    /// updates and an exhausted failure budget takes the link down; camera
    /// frames are passed through to the broadcaster; a camera-stream
    /// command replaces the whole active set; terminal commands are
    /// forwarded to the shell bridge; an upload command is answered with an
    /// explicit error, this supervisor not offering it; a bridge exit is
    /// answered by an immediate restart with a fresh channel, never by the
    /// supervisor exiting.
    pub fn step(&mut self, event: CompanionEvent) -> (eff: CompanionEffect)
        requires
            old(self).wf(),
            old(self).live,
            old(self).bridge_generation < u64::MAX,
        ensures
            final(self).wf(),
            match event {
                CompanionEvent::StrengthPoll(reading) => {
                    &&& final(self).bridge_generation == old(self).bridge_generation
                    &&& final(self).config == old(self).config
                    &&& final(self).cameras == old(self).cameras
                    &&& match reading {
                        Some(strength) => {
                            &&& final(self).strength_probe == (Probe { failures: 0, live: true })
                            &&& final(self).live
                            &&& eff == CompanionEffect::Emit(Update::FernbedienungSignal(strength))
                        },
                        None => {
                            if old(self).strength_probe.failures + 1
                                < crate::probe::PROBE_FAILURE_LIMIT {
                                &&& final(self).live
                                &&& final(self).strength_probe.failures == old(
                                    self,
                                ).strength_probe.failures + 1
                                &&& eff == CompanionEffect::Nothing
                            } else {
                                &&& !final(self).live
                                &&& final(self).exit_reason == Some(CompanionExit::LinkDown)
                                &&& eff == CompanionEffect::Exit
                            }
                        },
                    }
                },
                CompanionEvent::CameraFrame { camera, result } => {
                    &&& *final(self) == *old(self)
                    &&& eff == CompanionEffect::Emit(Update::Camera { camera, result })
                },
                CompanionEvent::Command(action) => {
                    &&& final(self).live
                    &&& final(self).strength_probe == old(self).strength_probe
                    &&& final(self).bridge_generation == old(self).bridge_generation
                    &&& final(self).config == old(self).config
                    &&& match action {
                        FernbedienungAction::SetCameraStream(enable) => {
                            &&& eff == CompanionEffect::ReplaceCameraStreams
                            &&& enable ==> spec_camera_set(final(self).cameras@)
                                == spec_camera_set(old(self).config@)
                            &&& !enable ==> final(self).cameras@ == Seq::<CameraConfig>::empty()
                        },
                        FernbedienungAction::Halt => eff == CompanionEffect::Halt
                            && final(self).cameras == old(self).cameras,
                        FernbedienungAction::Reboot => eff == CompanionEffect::Reboot
                            && final(self).cameras == old(self).cameras,
                        FernbedienungAction::Bash(term) => eff
                            == CompanionEffect::ForwardToBridge(term)
                            && final(self).cameras == old(self).cameras,
                        FernbedienungAction::UploadToTemporaryPath(_) => eff
                            == CompanionEffect::ReplyError(Error::NotSupported)
                            && final(self).cameras == old(self).cameras,
                        FernbedienungAction::GetKernelMessages => eff == CompanionEffect::Nothing
                            && final(self).cameras == old(self).cameras,
                        FernbedienungAction::Identify => eff == CompanionEffect::Nothing
                            && final(self).cameras == old(self).cameras,
                    }
                },
                CompanionEvent::MailboxClosed => {
                    &&& !final(self).live
                    &&& final(self).exit_reason == Some(CompanionExit::MailboxClosed)
                    &&& eff == CompanionEffect::Exit
                },
                CompanionEvent::BridgeExited => {
                    &&& final(self).live
                    &&& final(self).bridge_generation == old(self).bridge_generation + 1
                    &&& final(self).strength_probe == old(self).strength_probe
                    &&& final(self).config == old(self).config
                    &&& final(self).cameras == old(self).cameras
                    &&& eff == CompanionEffect::RestartBridge
                },
            },
    {
        match event {
            CompanionEvent::StrengthPoll(reading) => match reading {
                Some(strength) => {
                    let out = self.strength_probe.step(true);
                    CompanionEffect::Emit(Update::FernbedienungSignal(strength))
                },
                None => {
                    let out = self.strength_probe.step(false);
                    if out == ProbeStep::Fail {
                        self.live = false;
                        self.exit_reason = Some(CompanionExit::LinkDown);
                        CompanionEffect::Exit
                    } else {
                        CompanionEffect::Nothing
                    }
                },
            },
            CompanionEvent::CameraFrame { camera, result } => CompanionEffect::Emit(
                Update::Camera { camera, result },
            ),
            CompanionEvent::Command(action) => match action {
                FernbedienungAction::SetCameraStream(enable) => {
                    if enable {
                        self.cameras = clone_camera_config(&self.config);
                    } else {
                        self.cameras = Vec::new();
                        assert(self.cameras@ =~= Seq::<CameraConfig>::empty());
                    }
                    CompanionEffect::ReplaceCameraStreams
                },
                FernbedienungAction::Halt => CompanionEffect::Halt,
                FernbedienungAction::Reboot => CompanionEffect::Reboot,
                FernbedienungAction::Bash(term) => CompanionEffect::ForwardToBridge(term),
                FernbedienungAction::UploadToTemporaryPath(_) => CompanionEffect::ReplyError(
                    Error::NotSupported,
                ),
                FernbedienungAction::GetKernelMessages => CompanionEffect::Nothing,
                FernbedienungAction::Identify => CompanionEffect::Nothing,
            },
            CompanionEvent::MailboxClosed => {
                self.live = false;
                self.exit_reason = Some(CompanionExit::MailboxClosed);
                CompanionEffect::Exit
            },
            CompanionEvent::BridgeExited => {
                self.bridge_generation = self.bridge_generation + 1;
                CompanionEffect::RestartBridge
            },
        }
    }
}

/// A copy of a camera set with the same device paths, sizes and ports.
fn clone_camera_config(config: &Vec<CameraConfig>) -> (r: Vec<CameraConfig>)
    ensures
        spec_camera_set(r@) == spec_camera_set(config@),
        r@.len() == config@.len(),
        forall|i: int|
            0 <= i < r@.len() ==> r@[i].camera@ == config@[i].camera@ && r@[i].width
                == config@[i].width && r@[i].height == config@[i].height && r@[i].port
                == config@[i].port,
{
    let mut r: Vec<CameraConfig> = Vec::new();
    let mut i: usize = 0;
    while i < config.len()
        invariant
            i <= config@.len(),
            r@.len() == i,
            forall|j: int|
                0 <= j < i ==> r@[j].camera@ == config@[j].camera@ && r@[j].width
                    == config@[j].width && r@[j].height == config@[j].height && r@[j].port
                    == config@[j].port,
        decreases config@.len() - i,
    {
        let c = CameraConfig {
            camera: config[i].camera.clone(),
            width: config[i].width,
            height: config[i].height,
            port: config[i].port,
        };
        r.push(c);
        i = i + 1;
    }
    proof {
        assert(spec_camera_set(r@) =~= spec_camera_set(config@));
    }
    r
}

} // verus!
