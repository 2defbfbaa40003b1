use audetic::audio::ducking::{
    clamp_duck_level, duck_default_sink, parse_wpctl_volume, restore_default_sink,
    AudioDuckingController, DuckState, SinkStep,
};
use audetic::audio::input_device::{
    arecord_input_device_names, available_input_device_names, best_available_input_device_name,
    best_available_input_device_name_with_preference, host_priority, hosts_in_priority_order,
    is_monitor_input_name, is_routing_input_name, is_virtual_input_name, normalize_name,
    preferred_input_device_name, select_input_device, select_input_device_any_host,
    select_input_device_any_host_with_preference, select_input_device_on_host,
    selected_input_device_name, DeviceInfo, HostInputs, SelectError, SelectedDevice,
};
use audetic::audio::level_monitor::{idle_level_published, input_gain_percent, latest_level};
use audetic::audio::recording::RecordingPhase;
use audetic::audio::stream_manager::{AudioStreamManager, RecorderError, RecordingState};

fn volume(output: &str) -> Option<(f32, bool)> {
    let report = parse_wpctl_volume(output);
    report
        .candidates
        .iter()
        .find_map(|c| c.parse::<f32>().ok())
        .map(|v| (v, report.muted))
}

#[test]
fn parse_wpctl_volume_unmuted() {
    let parsed = volume("Volume: 0.81");
    assert_eq!(parsed, Some((0.81, false)));
}

#[test]
fn parse_wpctl_volume_muted() {
    let parsed = volume("Volume: 0.33 [MUTED]");
    assert_eq!(parsed, Some((0.33, true)));
}

#[test]
fn parse_wpctl_volume_invalid() {
    let parsed = volume("no-number");
    assert!(parsed.is_none());
}

#[test]
fn volume_texts_are_freed_from_other_characters() {
    let report = parse_wpctl_volume("Volume: ~0.5% .. x1.2.3");
    assert_eq!(report.candidates, vec!["0.5", "..", "1.2.3"]);
    assert_eq!(volume("Volume: ~0.5% .. x1.2.3"), Some((0.5, false)));
}

#[test]
fn ducking_percentage_is_bounded() {
    assert_eq!(clamp_duck_level(0), 5);
    assert_eq!(clamp_duck_level(35), 35);
    assert_eq!(clamp_duck_level(255), 95);
}

#[test]
fn ducking_is_restored_once() {
    let mut ducking = AudioDuckingController::new(true, 200);
    assert_eq!(ducking.activate(), Some(95));
    ducking.ducked(7, true);
    assert_eq!(ducking.activate(), None);
    let state = ducking.restore().unwrap();
    assert_eq!(state.previous_volume_bits, 7);
    assert!(state.previous_muted);
    assert!(ducking.restore().is_none());
    assert_eq!(ducking.activate(), Some(95));
}

#[test]
fn ducking_can_be_switched_off() {
    let mut ducking = AudioDuckingController::new(false, 35);
    assert_eq!(ducking.activate(), None);
    assert!(ducking.restore().is_none());
}

#[test]
fn mute_switch_is_restored_only_when_changed() {
    let state = DuckState {
        active: true,
        previous_volume_bits: 0,
        previous_muted: true,
    };
    let unmuted = restore_default_sink(state, false, false);
    assert_eq!(unmuted, vec![SinkStep::SetMute(true)]);
    assert!(restore_default_sink(state, false, true).is_empty());
}

#[test]
fn volume_is_lowered_and_restored() {
    let lowered = duck_default_sink(0.35f32.to_bits(), true);
    assert_eq!(lowered, vec![SinkStep::SetVolume(0.35f32.to_bits())]);
    assert!(duck_default_sink(0.35f32.to_bits(), false).is_empty());

    let mut ducking = AudioDuckingController::new(true, 35);
    ducking.ducked(0.8f32.to_bits(), false);
    let state = ducking.restore().unwrap();
    assert_eq!(
        restore_default_sink(state, true, true),
        vec![SinkStep::SetVolume(0.8f32.to_bits()), SinkStep::SetMute(false)]
    );
}

#[test]
fn recorder_goes_through_its_states() {
    let mut recorder = AudioStreamManager::new(48_000, 2);
    assert_eq!(recorder.sample_rate_hz(), 48_000);
    assert_eq!(recorder.start_recording(), Ok(()));
    assert_eq!(recorder.stop_recording(), Err(RecorderError::NotRecording));
    recorder.recording_started();
    assert_eq!(recorder.start_recording(), Err(RecorderError::AlreadyRecording));
    assert_eq!(recorder.stop_recording(), Ok(()));
    assert_eq!(recorder.state, RecordingState::Stopping);
    assert_eq!(recorder.start_recording(), Err(RecorderError::StillStopping));
    assert_eq!(recorder.stop_recording(), Err(RecorderError::AlreadyStopping));
    recorder.samples_recorded(vec![1, 2, 3]);
    assert_eq!(recorder.samples_captured(), Ok(vec![1, 2, 3]));
    recorder.recording_ended();
    assert_eq!(recorder.state, RecordingState::Idle);
    assert!(recorder.samples.is_empty());
}

#[test]
fn recorder_without_samples_is_at_rest_again() {
    let mut recorder = AudioStreamManager::new(48_000, 2);
    recorder.recording_started();
    recorder.stop_recording().unwrap();
    let err = recorder.samples_captured().unwrap_err();
    assert_eq!(err.message(), "No audio samples recorded");
    assert_eq!(recorder.state, RecordingState::Idle);
}

#[test]
fn discarding_needs_a_recording() {
    let mut recorder = AudioStreamManager::new(48_000, 1);
    assert!(!recorder.stop_recording_discard());
    recorder.recording_started();
    recorder.samples_recorded(vec![7]);
    assert!(recorder.stop_recording_discard());
    assert!(!recorder.stop_recording_discard());
    recorder.recording_ended();
    assert_eq!(recorder.state, RecordingState::Idle);
    assert!(recorder.drain_samples().is_empty());
    assert!(!recorder.stop_recording_discard());
}

#[test]
fn samples_are_handed_out_once() {
    let mut recorder = AudioStreamManager::new(48_000, 1);
    recorder.samples_recorded(vec![9]);
    assert_eq!(recorder.start_recording(), Ok(()));
    recorder.samples_recorded(vec![1, 2]);
    recorder.recording_started();
    recorder.samples_recorded(vec![3]);
    assert_eq!(recorder.drain_samples(), vec![1, 2, 3]);
    recorder.samples_recorded(vec![4]);
    assert_eq!(recorder.drain_samples(), vec![4]);
    assert!(recorder.drain_samples().is_empty());
    assert_eq!(recorder.state, RecordingState::Recording);
}

#[test]
fn recorder_messages() {
    let messages: Vec<String> = vec![
        RecorderError::AlreadyRecording.message(),
        RecorderError::StillStopping.message(),
        RecorderError::NotRecording.message(),
        RecorderError::AlreadyStopping.message(),
    ];
    assert_eq!(
        messages,
        vec![
            "Recording already in progress",
            "Previous recording still stopping",
            "No recording in progress",
            "Recording already stopping",
        ]
    );
}

#[test]
fn idle_level_is_not_published_during_a_recording() {
    assert!(idle_level_published(RecordingPhase::Idle));
    assert!(idle_level_published(RecordingPhase::Error));
    assert!(!idle_level_published(RecordingPhase::Recording));
    assert!(!idle_level_published(RecordingPhase::Processing));
}

#[test]
fn gain_is_bounded() {
    assert_eq!(input_gain_percent(0), 25);
    assert_eq!(input_gain_percent(100), 100);
    assert_eq!(input_gain_percent(900), 300);
}

#[test]
fn newest_level_counts() {
    assert_eq!(latest_level(Some(1), &vec![2, 3]), Some(3));
    assert_eq!(latest_level(Some(1), &Vec::new()), Some(1));
    assert_eq!(latest_level::<i32>(None, &Vec::new()), None);
}

fn device(name: &str) -> DeviceInfo {
    DeviceInfo {
        name: Some(name.to_string()),
        has_config: true,
    }
}

fn host(names: &[&str], default: Option<&str>) -> HostInputs {
    HostInputs {
        devices: Some(names.iter().map(|n| device(n)).collect()),
        default_input: default.map(device),
    }
}

#[test]
fn names_are_told_apart() {
    assert_eq!(normalize_name("  USB Mic\t"), "usb mic");
    assert!(is_monitor_input_name("Monitor of HDMI"));
    assert!(is_routing_input_name(" PipeWire "));
    assert!(is_routing_input_name("Default Input"));
    assert!(!is_routing_input_name("pulseaudio"));
    assert!(is_virtual_input_name("  "));
    assert!(is_virtual_input_name("pulse"));
    assert!(is_virtual_input_name("x monitor"));
    assert!(!is_virtual_input_name("USB Mic"));
}

#[test]
fn hosts_are_asked_by_priority() {
    let names: Vec<String> = ["Alsa", "Jack", "Pulse", "PipeWire", "Oss"]
        .iter()
        .map(|s| s.to_string())
        .collect();
    assert_eq!(hosts_in_priority_order(&names), vec![3, 2, 1, 4, 0]);
}

#[test]
fn preferred_device_is_found_by_name() {
    let h = host(&["Webcam Mic", "Mic", "USB Mic"], None);
    assert_eq!(select_input_device_on_host(&h, Some(" mic ")).unwrap(), 1);
    assert_eq!(select_input_device_on_host(&h, Some("usb")).unwrap(), 2);
    assert_eq!(
        select_input_device_on_host(&h, Some("Webcam Mic (2)")).unwrap(),
        0
    );
    let err = select_input_device_on_host(&h, Some(" Line ")).unwrap_err();
    assert_eq!(
        err.message(),
        "Preferred input device 'Line' not found on this host"
    );
}

#[test]
fn device_is_picked_without_a_preference() {
    let monitors = ["Monitor of A", "USB Mic", "default"];
    assert_eq!(select_input_device(&host(&monitors, Some("USB Mic"))).unwrap(), 1);
    assert_eq!(
        select_input_device(&host(&monitors, Some("Monitor of A"))).unwrap(),
        2
    );
    assert_eq!(select_input_device(&host(&monitors, None)).unwrap(), 2);
    assert_eq!(
        select_input_device(&host(&["Monitor of A", "USB Mic"], None)).unwrap(),
        1
    );
    assert_eq!(
        select_input_device(&host(&["Monitor of A"], None)).unwrap(),
        0
    );
    let err = select_input_device(&host(&[" "], None)).unwrap_err();
    assert_eq!(err.message(), "No input device available");
}

#[test]
fn device_that_cannot_record_is_passed_over() {
    let h = HostInputs {
        devices: Some(vec![
            DeviceInfo {
                name: Some("Broken".to_string()),
                has_config: false,
            },
            DeviceInfo {
                name: None,
                has_config: true,
            },
            device("USB Mic"),
        ]),
        default_input: None,
    };
    assert_eq!(select_input_device(&h).unwrap(), 2);
}

#[test]
fn all_hosts_are_asked() {
    let silent = HostInputs {
        devices: None,
        default_input: Some(device("Built-in")),
    };
    let hosts = vec![silent, host(&["A", "B"], None), host(&["C"], None)];
    assert_eq!(
        select_input_device_any_host(&hosts).unwrap(),
        SelectedDevice::Listed { host: 1, device: 0 }
    );
    assert_eq!(
        select_input_device_any_host_with_preference(&hosts, Some("c")).unwrap(),
        SelectedDevice::Listed { host: 2, device: 0 }
    );
    assert_eq!(
        select_input_device_any_host_with_preference(&hosts, Some("zzz")).unwrap(),
        SelectedDevice::Listed { host: 1, device: 0 }
    );
    assert_eq!(
        select_input_device_any_host_with_preference(&hosts, Some("  ")).unwrap(),
        SelectedDevice::Listed { host: 1, device: 0 }
    );
    assert_eq!(
        selected_input_device_name(&hosts, Some("b")).as_deref(),
        Some("B")
    );
    assert_eq!(
        selected_input_device_name(&hosts, Some("\t C ")),
        selected_input_device_name(&hosts, Some("c"))
    );
}

#[test]
fn default_device_is_the_last_resort() {
    let silent = HostInputs {
        devices: None,
        default_input: Some(device(" Built-in ")),
    };
    let err = select_input_device(&silent).unwrap_err();
    assert!(matches!(err, SelectError::EnumerationFailed));
    assert_eq!(err.message(), "Failed to enumerate input devices");
    let hosts = vec![host(&[], None), silent];
    assert_eq!(
        select_input_device_any_host(&hosts).unwrap(),
        SelectedDevice::DefaultOf { host: 1 }
    );
    assert_eq!(
        selected_input_device_name(&hosts, None).as_deref(),
        Some("Built-in")
    );
    let none: Vec<HostInputs> = Vec::new();
    let err = select_input_device_any_host(&none).unwrap_err();
    assert_eq!(err.message(), "No input device available on any host");
}

#[test]
fn sound_cards_are_listed() {
    let output = "null\n    Discard\r\nsysdefault:CARD=PCH\n  front:CARD=PCH,DEV=0  \n# hw:x\n\
                  default:CARD=PCH\nhw:CARD=PCH,DEV=0\nplughw:CARD=PCH,DEV=0\npipewire\n";
    let names = arecord_input_device_names(Some(output.as_bytes().to_vec()));
    assert_eq!(
        names,
        vec![
            "sysdefault:CARD=PCH",
            "front:CARD=PCH,DEV=0",
            "hw:CARD=PCH,DEV=0",
            "plughw:CARD=PCH,DEV=0",
        ]
    );
    assert!(arecord_input_device_names(None).is_empty());
    assert!(arecord_input_device_names(Some(vec![b'h', b'w', b':', 0xff])).is_empty());
}

#[test]
fn all_inputs_are_listed_once_and_in_order() {
    let hosts = vec![
        host(&["USB Mic", "Monitor of A", " Built-in "], None),
        HostInputs {
            devices: None,
            default_input: None,
        },
        host(&["USB Mic", "Äther"], None),
    ];
    let names = available_input_device_names(&hosts, Some(b"hw:0\nhw:0\n".to_vec()));
    assert_eq!(names, vec!["Built-in", "USB Mic", "hw:0", "Äther"]);
}

#[test]
fn names_of_the_selected_device_agree() {
    let hosts = vec![host(&["A", "B"], Some("B"))];
    assert_eq!(preferred_input_device_name(&hosts).as_deref(), Some("B"));
    assert_eq!(best_available_input_device_name(&hosts).as_deref(), Some("B"));
    assert_eq!(
        best_available_input_device_name_with_preference(&hosts, Some("a")).as_deref(),
        Some("A")
    );
    assert_eq!(preferred_input_device_name(&Vec::new()), None);
    assert_eq!(host_priority("PipeWire"), 0);
    assert_eq!(host_priority("ALSA"), 3);
}
