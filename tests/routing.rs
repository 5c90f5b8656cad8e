use pwcca_auto::device::{Device, DeviceClass, DeviceType};
use pwcca_auto::error::{AudioDeviceError, ErrorEnum};
use pwcca_auto::routing::{RoutingState, Stage, TickAction, TickEvent, TickOutcome};
use pwcca_auto::session::{active_capturing_processes, is_capturing, AudioSession, SessionState};

fn output(id: &str, description: &str) -> Device {
    Device::new(
        DeviceType::Output,
        id.to_string(),
        description.to_string(),
        format!("{} device", description),
    )
}

fn names(v: &[&str]) -> Vec<String> {
    v.iter().map(|s| s.to_string()).collect()
}

/// Runs one tick against fixed observations; returns the switch commands
/// issued and the outcome, which is applied to `state`.
fn run_tick(
    state: &mut RoutingState,
    enabled: bool,
    monitored: &[&str],
    devices: &[Device],
    default_id: &str,
    capturing: &[&str],
    switch_ok: bool,
) -> (Vec<String>, TickOutcome) {
    let (mut tick, mut action) = state.start_tick(enabled, names(monitored));
    let mut switches = Vec::new();
    loop {
        let event = match action {
            TickAction::EnumerateRender => TickEvent::RenderDevices(devices.to_vec()),
            TickAction::GetDefaultRender => {
                let d = devices.iter().find(|d| d.device_id == default_id).unwrap().clone();
                TickEvent::DefaultRender(d)
            }
            TickAction::ListCapturingProcesses => TickEvent::CapturingProcesses(names(capturing)),
            TickAction::SetDefaultOutput(id) => {
                switches.push(id);
                if switch_ok {
                    TickEvent::SwitchDone
                } else {
                    TickEvent::Failed(AudioDeviceError::switch_failure(0x8007_0490, "gone".to_string()))
                }
            }
            TickAction::Finish(outcome) => {
                state.finish_tick(&outcome);
                assert_eq!(tick.stage, Stage::Done);
                return (switches, outcome);
            }
        };
        assert!(tick.accepts(&event));
        action = tick.advance(event);
    }
}

fn speakers_and_headset() -> Vec<Device> {
    vec![output("A", "Speakers"), output("B", "Headphones")]
}

#[test]
fn capture_start_switches_to_communication_device() {
    let devices = speakers_and_headset();
    assert_eq!(devices[0].class, DeviceClass::General);
    assert_eq!(devices[1].class, DeviceClass::Communication);
    let sessions = vec![AudioSession {
        owning_process_id: 100,
        state: SessionState::Active,
        is_system_sounds: false,
    }];
    let active = active_capturing_processes(&sessions, &names(&["chat.exe"]));
    let active_refs: Vec<&str> = active.iter().map(|s| s.as_str()).collect();
    let mut state = RoutingState::new();
    let (switches, outcome) = run_tick(&mut state, true, &["chat.exe"], &devices, "A", &active_refs, true);
    assert_eq!(switches, vec!["B".to_string()]);
    assert!(matches!(outcome, TickOutcome::Completed { capturing: true, switched_to: Some(ref id) } if id == "B"));
    assert!(state.is_communication_active());
}

#[test]
fn capture_stop_switches_back_to_general_device() {
    let devices = speakers_and_headset();
    let mut state = RoutingState::new();
    run_tick(&mut state, true, &["chat.exe"], &devices, "A", &["chat.exe"], true);
    assert!(state.is_communication_active);
    let active = active_capturing_processes(&Vec::new(), &Vec::new());
    assert!(active.is_empty());
    let (switches, outcome) = run_tick(&mut state, true, &["chat.exe"], &devices, "B", &[], true);
    assert_eq!(switches, vec!["A".to_string()]);
    assert!(matches!(outcome, TickOutcome::Completed { capturing: false, switched_to: Some(ref id) } if id == "A"));
    assert!(!state.is_communication_active);
}

#[test]
fn identical_polls_issue_no_second_switch() {
    let devices = speakers_and_headset();
    let mut state = RoutingState::new();
    let (first, _) = run_tick(&mut state, true, &["chat.exe"], &devices, "A", &["chat.exe"], true);
    assert_eq!(first.len(), 1);
    let (second, outcome) = run_tick(&mut state, true, &["chat.exe"], &devices, "A", &["chat.exe"], true);
    assert!(second.is_empty());
    assert!(matches!(outcome, TickOutcome::Completed { capturing: true, switched_to: None }));
    let mut idle = RoutingState::new();
    for _ in 0..2 {
        let (s, _) = run_tick(&mut idle, true, &["chat.exe"], &devices, "A", &[], true);
        assert!(s.is_empty());
    }
}

#[test]
fn fewer_than_two_devices_skip_the_tick() {
    let devices = vec![output("A", "Speakers")];
    let mut state = RoutingState::new();
    let (switches, outcome) = run_tick(&mut state, true, &["chat.exe"], &devices, "A", &["chat.exe"], true);
    assert!(switches.is_empty());
    assert!(matches!(outcome, TickOutcome::Skipped));
    assert!(!state.is_communication_active);
    let mut active = RoutingState { is_communication_active: true };
    let (_, outcome) = run_tick(&mut active, true, &["chat.exe"], &[], "A", &[], true);
    assert!(matches!(outcome, TickOutcome::Skipped));
    assert!(active.is_communication_active);
}

#[test]
fn disabled_routing_looks_nothing_up() {
    let state = RoutingState::new();
    let (tick, action) = state.start_tick(false, names(&["chat.exe"]));
    assert_eq!(tick.stage, Stage::Done);
    assert!(matches!(action, TickAction::Finish(TickOutcome::Skipped)));
}

#[test]
fn failed_switch_leaves_state_and_retries() {
    let devices = speakers_and_headset();
    let mut state = RoutingState::new();
    let (switches, outcome) = run_tick(&mut state, true, &["chat.exe"], &devices, "A", &["chat.exe"], false);
    assert_eq!(switches, vec!["B".to_string()]);
    match outcome {
        TickOutcome::Aborted(e) => assert_eq!(e.kind(), ErrorEnum::DeviceNotFound),
        _ => panic!("expected an aborted tick"),
    }
    assert!(!state.is_communication_active);
    let (again, _) = run_tick(&mut state, true, &["chat.exe"], &devices, "A", &["chat.exe"], true);
    assert_eq!(again, vec!["B".to_string()]);
    assert!(state.is_communication_active);
}

#[test]
fn state_follows_last_completed_tick() {
    let devices = speakers_and_headset();
    let mut state = RoutingState::new();
    let observations: [(&[&str], bool, bool); 5] = [
        (&["chat.exe"], true, true),
        (&[], true, true),
        (&["chat.exe"], false, false),
        (&["chat.exe"], true, true),
        (&[], true, false),
    ];
    let expected = [true, false, false, true, true];
    for (i, (capturing, devices_ok, switch_ok)) in observations.iter().enumerate() {
        let used: &[Device] = if *devices_ok { &devices } else { &devices[..1] };
        let default = if state.is_communication_active { "B" } else { "A" };
        run_tick(&mut state, true, &["chat.exe"], used, default, capturing, *switch_ok);
        assert_eq!(state.is_communication_active, expected[i], "after tick {}", i);
    }
}

#[test]
fn no_switch_without_a_device_of_the_target_class() {
    let devices = vec![output("A", "Speakers"), output("C", "Digital Output")];
    let mut state = RoutingState::new();
    let (switches, outcome) = run_tick(&mut state, true, &["chat.exe"], &devices, "A", &["chat.exe"], true);
    assert!(switches.is_empty());
    assert!(matches!(outcome, TickOutcome::Completed { capturing: true, switched_to: None }));
    assert!(state.is_communication_active);
}

#[test]
fn first_enumerated_communication_device_is_chosen() {
    let devices = vec![output("A", "Speakers"), output("B", "Headphones"), output("D", "Headphone Jack")];
    let mut state = RoutingState::new();
    let (switches, _) = run_tick(&mut state, true, &["chat"], &devices, "A", &["CHAT"], true);
    assert_eq!(switches, vec!["B".to_string()]);
}

#[test]
fn failed_lookup_aborts_tick() {
    let mut state = RoutingState { is_communication_active: true };
    let (mut tick, action) = state.start_tick(true, names(&["chat.exe"]));
    assert!(matches!(action, TickAction::EnumerateRender));
    let err = AudioDeviceError::with_code(ErrorEnum::GetDeviceCollectionFailed, 5, "denied".to_string());
    let action = tick.advance(TickEvent::Failed(err));
    match action {
        TickAction::Finish(outcome) => {
            assert!(matches!(outcome, TickOutcome::Aborted(ref e) if e.code == 5));
            state.finish_tick(&outcome);
        }
        _ => panic!("expected the tick to finish"),
    }
    assert!(state.is_communication_active);
    assert!(!tick.accepts(&TickEvent::SwitchDone));
}

#[test]
fn partial_resolution_failure_does_not_capture() {
    let sessions = vec![
        AudioSession { owning_process_id: 7, state: SessionState::Active, is_system_sounds: false },
        AudioSession { owning_process_id: 8, state: SessionState::Active, is_system_sounds: false },
    ];
    let resolved = names(&["", "music"]);
    let active = active_capturing_processes(&sessions, &resolved);
    assert_eq!(active, names(&["music"]));
    assert!(!is_capturing(&active, &names(&["chat.exe"])));
}

#[test]
fn sessions_that_do_not_count_are_skipped() {
    let sessions = vec![
        AudioSession { owning_process_id: 1, state: SessionState::Active, is_system_sounds: true },
        AudioSession { owning_process_id: 2, state: SessionState::Inactive, is_system_sounds: false },
        AudioSession { owning_process_id: 3, state: SessionState::Expired, is_system_sounds: false },
        AudioSession { owning_process_id: 4, state: SessionState::Active, is_system_sounds: false },
        AudioSession { owning_process_id: 5, state: SessionState::Active, is_system_sounds: false },
    ];
    assert!(!sessions[0].is_candidate());
    assert!(sessions[3].is_candidate());
    let resolved = names(&["system", "idle", "gone", "chat", "chat"]);
    assert_eq!(active_capturing_processes(&sessions, &resolved), names(&["chat"]));
}

#[test]
fn capture_match_ignores_case() {
    assert!(is_capturing(&names(&["chat.exe"]), &names(&["CHAT.EXE"])));
    assert!(!is_capturing(&names(&["chat.exe"]), &names(&["chat"])));
    assert!(!is_capturing(&Vec::new(), &names(&["chat"])));
    assert!(!is_capturing(&names(&["chat"]), &Vec::new()));
}

#[test]
fn switch_failure_codes() {
    let gone = AudioDeviceError::switch_failure(0x8007_0490, "x".to_string());
    assert_eq!(gone.kind, ErrorEnum::DeviceNotFound);
    let invalidated = AudioDeviceError::switch_failure(0x8889_0004, "x".to_string());
    assert_eq!(invalidated.kind, ErrorEnum::DeviceNotFound);
    let other = AudioDeviceError::switch_failure(0x8000_4005, "x".to_string());
    assert_eq!(other.kind, ErrorEnum::SetDefaultEndpointFailed);
    assert_eq!(other.code, 0x8000_4005);
    let plain = AudioDeviceError::new_with_message(ErrorEnum::NotInitialized, "Audio device not initialized.".to_string());
    assert_eq!(plain.kind(), ErrorEnum::NotInitialized);
    assert_eq!(plain.code, 0);
    assert_eq!(plain.error, "Audio device not initialized.");
}
