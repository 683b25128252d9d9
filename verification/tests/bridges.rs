use supervisor::serial::{SerialBridge, SerialEffect, SerialEvent, SERIAL_COMMAND_WIDTH};
use supervisor::shell::{ShellBridge, ShellEffect, ShellEvent};
use supervisor::types::{TerminalAction, Update};

#[test]
fn shell_scenario_run_command_and_independent_exit() {
    // Start the shell bridge, run a command, observe its output as a text
    // update, then let the remote process exit on its own: the bridge
    // returns to idle by itself, with no error surfacing anywhere.
    let mut bridge = ShellBridge::new();
    assert!(!bridge.stdin_open && !bridge.stop_handle);

    let eff = bridge.step(ShellEvent::Command(TerminalAction::Start));
    assert_eq!(eff, ShellEffect::SpawnShell);
    assert!(bridge.stdin_open && bridge.stop_handle);

    let eff = bridge.step(ShellEvent::Command(TerminalAction::Run(String::from("echo hi"))));
    assert_eq!(eff, ShellEffect::SendInput(String::from("echo hi\r")));

    let eff = bridge.step(ShellEvent::Output(b"hi\n".to_vec()));
    match eff {
        ShellEffect::Emit(Update::Bash(text)) => assert!(text.contains("hi")),
        other => panic!("expected a text update, got {:?}", other),
    }

    let eff = bridge.step(ShellEvent::ProcessExited);
    assert_eq!(eff, ShellEffect::Nothing);
    assert!(!bridge.stdin_open && !bridge.stop_handle);
}

#[test]
fn shell_run_without_session_is_dropped() {
    let mut bridge = ShellBridge::new();
    let eff = bridge.step(ShellEvent::Command(TerminalAction::Run(String::from("ls"))));
    assert_eq!(eff, ShellEffect::Nothing);
}

#[test]
fn shell_stop_spends_the_termination_handle() {
    let mut bridge = ShellBridge::new();
    bridge.step(ShellEvent::Command(TerminalAction::Start));
    let eff = bridge.step(ShellEvent::Command(TerminalAction::Stop));
    assert_eq!(eff, ShellEffect::SignalStop);
    // The handle is spent; a second stop does nothing.
    let eff = bridge.step(ShellEvent::Command(TerminalAction::Stop));
    assert_eq!(eff, ShellEffect::Nothing);
}

#[test]
fn shell_error_output_becomes_text_update() {
    let mut bridge = ShellBridge::new();
    bridge.step(ShellEvent::Command(TerminalAction::Start));
    let eff = bridge.step(ShellEvent::ErrorOutput(b"oops".to_vec()));
    assert_eq!(eff, ShellEffect::Emit(Update::Bash(String::from("oops"))));
}

#[test]
fn shell_output_with_invalid_utf8_is_replaced_not_dropped() {
    let mut bridge = ShellBridge::new();
    bridge.step(ShellEvent::Command(TerminalAction::Start));
    let eff = bridge.step(ShellEvent::Output(vec![0x68, 0x69, 0xFF]));
    match eff {
        ShellEffect::Emit(Update::Bash(text)) => {
            assert!(text.starts_with("hi"));
            assert!(!text.is_empty());
        },
        other => panic!("expected a text update, got {:?}", other),
    }
}

#[test]
fn serial_run_command_is_framed_fixed_width() {
    let mut bridge = SerialBridge::new();
    let eff = bridge.step(SerialEvent::Command(TerminalAction::Run(String::from("reboot"))));
    match eff {
        SerialEffect::Transmit(frame) => {
            assert_eq!(frame.len(), SERIAL_COMMAND_WIDTH);
            assert_eq!(&frame[..6], b"reboot");
            assert!(frame[6..].iter().all(|&b| b == 0));
        },
        other => panic!("expected a framed command, got {:?}", other),
    }
    assert_eq!(bridge.sequence, 1);
}

#[test]
fn serial_long_command_is_truncated_to_width() {
    let mut bridge = SerialBridge::new();
    let long = "x".repeat(100);
    let eff = bridge.step(SerialEvent::Command(TerminalAction::Run(long)));
    match eff {
        SerialEffect::Transmit(frame) => {
            assert_eq!(frame.len(), SERIAL_COMMAND_WIDTH);
            assert!(frame.iter().all(|&b| b == b'x'));
        },
        other => panic!("expected a framed command, got {:?}", other),
    }
}

#[test]
fn serial_sequence_number_wraps() {
    let mut bridge = SerialBridge::new();
    for _ in 0..256 {
        bridge.step(SerialEvent::Command(TerminalAction::Run(String::from("x"))));
    }
    assert_eq!(bridge.sequence, 0);
}

#[test]
fn serial_battery_frame_becomes_percentage_update() {
    let mut bridge = SerialBridge::new();
    // Three cells at 3775 mV: halfway between empty and full.
    let eff = bridge.step(SerialEvent::FrameBattery(3 * 3775));
    assert_eq!(eff, SerialEffect::Emit(Update::Battery(50)));
}

#[test]
fn serial_keep_alive_and_inbound_noise() {
    let mut bridge = SerialBridge::new();
    assert_eq!(bridge.step(SerialEvent::KeepAliveDue), SerialEffect::SendKeepAlive);
    assert_eq!(bridge.step(SerialEvent::FrameHeartbeat), SerialEffect::Nothing);
    assert_eq!(
        bridge.step(SerialEvent::FrameSerialData(b"$ ".to_vec())),
        SerialEffect::Nothing
    );
    assert_eq!(
        bridge.step(SerialEvent::Command(TerminalAction::Start)),
        SerialEffect::Nothing
    );
    assert_eq!(bridge.sequence, 0);
}
