use audetic::config::Config;
use audetic::overlay::app::{
    ControlUrls, OverlayApp, OverlayAppUiConfig, OverlayLabels, OverlaySettingsUpdate,
};
use audetic::overlay::feed::{feed_not_started, FeedAction, FeedEvent, SseReader};
use audetic::overlay::mic::{
    default_source_name_from_wpctl, detect_active_mic_name, is_placeholder_device_name,
    parse_wpctl_field, short_mic_label,
};
use audetic::overlay::modes::{
    output_mode_from_flags, EngineMode, InputControlMode, OutputMode, OutputModeState,
};
use audetic::overlay::runtime::{
    persist_engine_mode, persist_overlay_settings, persist_overlay_ui_state,
    provider_source_label, window_size, OverlayRuntimeConfig, OverlayUiState, SaveError, StateFile,
};
use audetic::overlay::state::{MeterStep, OverlayState};
use audetic::streaming::events::StreamEvent;
use audetic::streaming::hub::StreamHub;
use serde_json::Value;

const MS: u64 = 1_000_000;

fn still() -> MeterStep {
    MeterStep {
        level: 0,
        bounded: 0,
    }
}

fn object(members: &[(&str, Value)]) -> Value {
    let mut map = serde_json::Map::new();
    for (k, v) in members {
        map.insert(k.to_string(), v.clone());
    }
    Value::Object(map)
}

fn event(kind: &str, members: &[(&str, Value)]) -> StreamEvent {
    StreamEvent::stamped(1, kind, None, object(members), 0)
}

#[test]
fn engine_toggles_and_back() {
    assert_eq!(EngineMode::Streaming.toggled(), EngineMode::Batch);
    assert_eq!(EngineMode::Streaming.toggled().toggled(), EngineMode::Streaming);
    assert!(EngineMode::of_setting(true).is_streaming());
    assert_eq!(EngineMode::Batch.label(), "Batch");
}

#[test]
fn output_modes_cycle() {
    let mut mode = OutputMode::CopyAndPaste;
    let mut labels: Vec<&str> = Vec::new();
    for _ in 0..4 {
        labels.push(mode.label());
        let (copy, paste, newline, enter) = mode.flags();
        assert_eq!(output_mode_from_flags(copy, paste, newline, enter), mode);
        mode = mode.next();
    }
    assert_eq!(mode, OutputMode::CopyAndPaste);
    assert_eq!(
        labels,
        vec!["Copy + paste", "Paste + Enter", "Copy only", "No output"]
    );
    assert_eq!(
        output_mode_from_flags(false, true, true, true),
        OutputMode::NoOutput
    );
    assert_eq!(
        output_mode_from_flags(true, false, false, true),
        OutputMode::CopyOnly
    );
}

#[test]
fn overlay_follows_a_session() {
    let mut hub = StreamHub::new();
    let mut state = OverlayState::default();
    assert_eq!(state.status_line, "Waiting for stream");
    state.apply_stream_event(&hub.session_started("j"), still());
    assert_eq!((state.phase.as_str(), state.status_line.as_str()), ("recording", "Listening"));
    assert!(state.connected);
    state.apply_stream_event(&hub.partial_text("j", "hel"), still());
    assert_eq!(state.partial_text, "hel");
    assert_eq!(state.status_line, "Transcribing");
    state.apply_stream_event(&hub.final_text("j", "hello"), still());
    assert_eq!(state.partial_text, "");
    assert_eq!(state.phase, "processing");
    assert_eq!(state.recent_finals, vec!["hello".to_string()]);
    state.apply_stream_event(&hub.session_stopped("j"), still());
    assert_eq!((state.phase.as_str(), state.status_line.as_str()), ("idle", "Stopped"));
}

#[test]
fn overlay_shows_errors_and_warnings() {
    let mut hub = StreamHub::new();
    let mut state = OverlayState::default();
    state.apply_stream_event(&hub.error(None, "boom"), still());
    assert_eq!(state.phase, "error");
    assert_eq!(state.status_line, "Stream error");
    assert_eq!(state.last_error.as_deref(), Some("boom"));
    state.apply_stream_event(&hub.warning(None, "slow"), still());
    assert_eq!(state.status_line, "slow");
    assert_eq!(state.phase, "error");
    assert_eq!(state.last_error, None);
    state.apply_stream_event(&event("odd", &[]), still());
    assert_eq!(state.status_line, "slow");
    state.apply_stream_event(&event("partial", &[("text", Value::from(3))]), still());
    assert_eq!(state.phase, "error");
}

#[test]
fn meter_history_is_bounded() {
    let mut hub = StreamHub::new();
    let mut state = OverlayState::default();
    for i in 0..300u32 {
        let level = hub.audio_level(None, Value::from(-10.0), Value::from(-1.0), i == 299);
        state.apply_stream_event(&level, MeterStep { level: i, bounded: i + 1 });
    }
    assert_eq!(state.meter_history.len(), 260);
    assert_eq!(state.meter_history[0], 41);
    assert_eq!(state.meter_history[259], 300);
    assert_eq!(state.meter_level, 299);
    assert!(state.clipping);
    let none = event("audio_level", &[("clipping", Value::from("yes"))]);
    state.apply_stream_event(&none, still());
    assert!(!state.clipping);
    state.apply_stream_event(&hub.session_started("j"), still());
    assert!(state.meter_history.is_empty());
}

#[test]
fn only_the_latest_finals_are_kept() {
    let mut state = OverlayState::default();
    for i in 0..8 {
        state.push_final_line(format!("line {}", i));
    }
    state.push_final_line("  ".to_string());
    assert_eq!(state.recent_finals.len(), 6);
    assert_eq!(state.recent_finals[0], "line 2");
    assert_eq!(state.recent_finals[5], "line 7");
}

#[test]
fn payloads_that_are_no_events_show_their_message() {
    let mut state = OverlayState::default();
    state.handle_dispatch("warning", "  ", None, still());
    assert!(!state.connected);
    state.handle_dispatch("warning", "{\"message\":\"lagged\"}", None, still());
    assert!(state.connected);
    assert_eq!(state.status_line, "lagged");
    assert_eq!(state.phase, "idle");
    state.handle_dispatch("error", "{\"message\":\"bad\"}", None, still());
    assert_eq!(state.phase, "error");
    assert_eq!(state.last_error.as_deref(), Some("bad"));
    state.apply_fallback_event("error", "nonsense");
    assert_eq!(state.status_line, "bad");
    let e = event("warning", &[("message", Value::from("w"))]);
    state.handle_dispatch("warning", "{}", Some(&e), still());
    assert_eq!(state.status_line, "w");
}

#[test]
fn answers_of_the_service_are_shown() {
    let mut state = OverlayState::default();
    state.request_answered(true, "200 OK", "{\"phase\":\"recording\",\"message\":\"started\"}");
    assert_eq!(state.phase, "recording");
    assert_eq!(state.status_line, "started");
    state.request_answered(true, "200 OK", "{}");
    assert_eq!(state.status_line, "Updated");
    state.request_answered(true, "200 OK", "plain");
    assert_eq!(state.status_line, "Updated");
    assert_eq!(state.phase, "recording");
    state.request_answered(false, "500 Internal Server Error", "oops");
    assert_eq!(state.phase, "error");
    assert_eq!(state.status_line, "Control request failed");
    assert_eq!(
        state.last_error.as_deref(),
        Some("HTTP 500 Internal Server Error oops")
    );
    state.request_not_answered("timeout");
    assert_eq!(
        state.last_error.as_deref(),
        Some("Control request failed: timeout")
    );
    state.request_not_made("tls");
    assert_eq!(state.last_error.as_deref(), Some("HTTP client error: tls"));
}

#[test]
fn kept_settings_are_shown() {
    let mut state = OverlayState::default();
    state.final_action_set(OutputMode::CopyOnly, None);
    assert_eq!(state.status_line, "Final action set: Copy only");
    state.final_action_set(OutputMode::CopyOnly, Some("disk".to_string()));
    assert_eq!(state.status_line, "Final action set: Copy only (save failed)");
    assert_eq!(state.last_error.as_deref(), Some("disk"));
    assert_eq!(state.phase, "idle");
    state.engine_mode_set(EngineMode::Batch, None);
    assert_eq!(
        state.status_line,
        "Engine set to Batch. Restart Audetic service to apply."
    );
    assert_eq!(state.last_error, None);
    state.settings_saved(None);
    assert_eq!(
        state.status_line,
        "Settings saved (restart service to apply behaviour changes)."
    );
    state.settings_saved(Some("disk".to_string()));
    assert_eq!(state.phase, "error");
    assert_eq!(state.status_line, "disk");
}

#[test]
fn frames_are_read_line_by_line() {
    let mut reader = SseReader::new();
    assert!(reader.line("id: 5").is_none());
    assert!(reader.line("event:  partial ").is_none());
    assert!(reader.line("data:  {\"a\":").is_none());
    assert!(reader.line("data: 1}").is_none());
    let (name, data) = reader.line("").unwrap();
    assert_eq!(name, "partial");
    assert_eq!(data, "{\"a\":\n1}");
    assert!(reader.line("").is_none());
    reader.line("event: ping");
    assert!(reader.line("").is_none());
    reader.line("data: x");
    assert_eq!(reader.line("").unwrap().0, "");
    assert!(reader.line(": ping").is_none());
}

#[test]
fn connection_is_made_again() {
    let mut reader = SseReader::new();
    let mut state = OverlayState::default();
    assert!(matches!(reader.advance(&mut state, FeedEvent::Ready), FeedAction::Connect));
    assert_eq!(state.status_line, "Connecting...");
    let refused = FeedEvent::NoResponse("refused".to_string());
    assert!(matches!(reader.advance(&mut state, refused), FeedAction::Wait(2000)));
    assert_eq!(state.status_line, "Retrying stream");
    assert_eq!(state.last_error.as_deref(), Some("refused"));
    let missing = FeedEvent::Response {
        success: false,
        status: "404 Not Found".to_string(),
    };
    assert!(matches!(reader.advance(&mut state, missing), FeedAction::Wait(2000)));
    assert_eq!(
        state.last_error.as_deref(),
        Some("HTTP 404 Not Found from stream endpoint")
    );
    let ok = FeedEvent::Response {
        success: true,
        status: "200 OK".to_string(),
    };
    assert!(matches!(reader.advance(&mut state, ok), FeedAction::Read));
    assert_eq!(state.status_line, "Connected");
    assert!(state.connected && state.last_error.is_none());
    let line = FeedEvent::Line("data: {}".to_string());
    assert!(matches!(reader.advance(&mut state, line), FeedAction::Read));
    match reader.advance(&mut state, FeedEvent::Line(String::new())) {
        FeedAction::Dispatch { event, data } => {
            assert_eq!((event.as_str(), data.as_str()), ("", "{}"))
        }
        other => panic!("{:?}", other),
    }
    assert!(matches!(reader.advance(&mut state, FeedEvent::Dispatched), FeedAction::Read));
    let broken = FeedEvent::Broken("reset".to_string());
    assert!(matches!(reader.advance(&mut state, broken), FeedAction::Wait(900)));
    assert_eq!(state.status_line, "Reconnecting");
    assert_eq!(state.last_error.as_deref(), Some("reset"));
    assert!(!state.connected);
    state.phase = "error".to_string();
    state.status_line = "kept".to_string();
    assert!(matches!(reader.advance(&mut state, FeedEvent::Closed), FeedAction::Wait(900)));
    assert_eq!(state.status_line, "kept");
    feed_not_started(&mut state, "tls");
    assert_eq!(
        state.last_error.as_deref(),
        Some("Failed to create HTTP client: tls")
    );
}

fn app(mode: InputControlMode) -> OverlayApp {
    OverlayApp::new(OverlayAppUiConfig {
        urls: ControlUrls {
            toggle: "t".to_string(),
            start: "a".to_string(),
            stop: "o".to_string(),
        },
        labels: OverlayLabels {
            streaming_model: "sm".to_string(),
            streaming_source: "ss".to_string(),
            batch_model: "bm".to_string(),
            batch_source: "bs".to_string(),
            mic: "mic".to_string(),
        },
        engine_mode: EngineMode::Streaming,
        settings: OverlaySettingsUpdate {
            control_mode: mode,
            ptt_activation_delay_ms: 260,
            show_meter: true,
            audio_ducking: false,
            ducking_level_percent: 35,
            preserve_clipboard: false,
        },
        output: OutputModeState {
            copy_to_clipboard: true,
            auto_paste: true,
            append_newline: false,
            send_enter: false,
        },
    })
}

#[test]
fn requests_are_not_made_too_fast() {
    let mut a = app(InputControlMode::Toggle);
    let mut state = OverlayState::default();
    let request = a.request_toggle_action(&mut state, 1000 * MS).unwrap();
    assert_eq!(request.url, "t");
    assert_eq!(request.body.copy_to_clipboard, Some(true));
    assert_eq!(request.body.send_enter, Some(false));
    assert_eq!(state.status_line, "Toggling...");
    assert!(a.request_stop_action(&mut state, 1150 * MS - 1).is_none());
    assert_eq!(a.request_stop_action(&mut state, 1150 * MS).unwrap().url, "o");
    assert!(a.request_start_action(&mut state, 900 * MS).is_none());
    assert_eq!(a.request_start_action(&mut state, 1300 * MS).unwrap().url, "a");
}

#[test]
fn quick_taps_do_nothing() {
    let mut a = app(InputControlMode::Hold);
    let mut state = OverlayState::default();
    assert!(a.hold_button(&mut state, "idle", true, 0).is_none());
    assert!(a.hold_button(&mut state, "idle", true, 259 * MS).is_none());
    assert!(a.hold_button(&mut state, "idle", false, 260 * MS).is_none());
    assert!(a.hold_button(&mut state, "idle", false, 900 * MS).is_none());
    assert_eq!(state.status_line, "Waiting for stream");
}

#[test]
fn holding_starts_and_letting_go_stops() {
    let mut a = app(InputControlMode::Hold);
    let mut state = OverlayState::default();
    a.hold_button(&mut state, "idle", true, 0);
    assert_eq!(a.hold_button(&mut state, "idle", true, 260 * MS).unwrap().url, "a");
    assert!(a.hold_button(&mut state, "idle", true, 600 * MS).is_none());
    assert!(a.hold_button(&mut state, "recording", true, 700 * MS).is_none());
    assert!(a.hold.owns_session);
    assert_eq!(a.hold_button(&mut state, "recording", false, 800 * MS).unwrap().url, "o");
    assert!(a.hold_button(&mut state, "recording", false, 999 * MS).is_none());
}

#[test]
fn letting_go_early_stops_as_soon_as_possible() {
    let mut a = app(InputControlMode::Hold);
    let mut state = OverlayState::default();
    a.hold_button(&mut state, "idle", true, 0);
    assert!(a.hold_button(&mut state, "idle", true, 300 * MS).is_some());
    assert!(a.hold_button(&mut state, "idle", false, 350 * MS).is_none());
    assert!(a.hold.pending_stop_after_start);
    assert_eq!(a.hold_button(&mut state, "recording", false, 500 * MS).unwrap().url, "o");
    assert!(!a.hold.pending_stop_after_start);
}

#[test]
fn nothing_starts_while_something_runs() {
    let mut a = app(InputControlMode::Hold);
    let mut state = OverlayState::default();
    a.hold_button(&mut state, "processing", true, 0);
    assert!(a.hold_button(&mut state, "processing", true, 900 * MS).is_none());
    assert!(a.hold_button(&mut state, "recording", true, 1000 * MS).is_none());
    assert!(a.hold_button(&mut state, "recording", false, 1100 * MS).is_none());
}

#[test]
fn open_settings_leave_a_hold_alone() {
    let mut a = app(InputControlMode::Hold);
    let mut state = OverlayState::default();
    a.hold_button(&mut state, "idle", true, 0);
    a.show_settings = true;
    assert!(a.hold_button(&mut state, "idle", true, 300 * MS).is_none());
    assert!(a.hold_button(&mut state, "idle", false, 400 * MS).is_none());
    assert!(a.hold.button_down);
    a.show_settings = false;
    assert_eq!(a.hold_button(&mut state, "idle", true, 500 * MS).unwrap().url, "a");
}

#[test]
fn changing_the_control_mode_forgets_a_hold() {
    let mut a = app(InputControlMode::Hold);
    let mut state = OverlayState::default();
    a.hold_button(&mut state, "idle", true, 0);
    a.set_control_mode(InputControlMode::Hold);
    assert!(a.hold.button_down);
    a.set_control_mode(InputControlMode::Toggle);
    assert!(!a.hold.button_down);
    assert!(a.hold_button(&mut state, "idle", true, 900 * MS).is_none());
    assert!(!a.hold.button_down);
}

#[test]
fn modes_are_cycled() {
    let mut a = app(InputControlMode::Toggle);
    assert_eq!(a.cycle_final_action_mode(), OutputMode::PasteAndEnter);
    assert!(a.output.send_enter && a.output.auto_paste);
    assert_eq!(a.cycle_final_action_mode(), OutputMode::CopyOnly);
    assert_eq!(a.output_mode(), OutputMode::CopyOnly);
    assert_eq!(a.active_model_label(), "sm");
    assert_eq!(a.cycle_engine_mode(), EngineMode::Batch);
    assert_eq!(a.active_model_label(), "bm");
    assert_eq!(a.active_source_label(), "bs");
}

#[test]
fn settings_are_kept_now_and_then() {
    let mut a = app(InputControlMode::Toggle);
    assert!(!a.maybe_autosave_settings(true, 0));
    assert_eq!(a.settings_button(0), (false, false));
    assert!(a.show_settings);
    assert!(a.settings_looked_at(true, false, 1000 * MS));
    assert!(!a.settings_looked_at(true, false, 1319 * MS));
    assert!(a.settings_looked_at(false, false, 1320 * MS));
    assert!(!a.settings_looked_at(true, false, 1400 * MS));
    assert!(a.settings_looked_at(false, true, 1401 * MS));
    assert!(!a.show_settings);
    a.mark_settings_dirty();
    a.settings_kept(1500 * MS);
    assert!(!a.saving.dirty);
    a.window.visible = false;
    assert_eq!(a.settings_button(0), (false, true));
    a.mark_settings_dirty();
    assert_eq!(a.settings_button(1501 * MS), (true, false));
    assert_eq!(a.save_settings().ptt_activation_delay_ms, 260);
}

#[test]
fn window_hides_some_time_after_activity() {
    let mut a = app(InputControlMode::Toggle);
    assert_eq!(a.sync_overlay_visibility("idle", 0), None);
    assert_eq!(a.sync_overlay_visibility("recording", 10 * MS), None);
    assert_eq!(a.sync_overlay_visibility("idle", 1309 * MS), None);
    assert_eq!(a.sync_overlay_visibility("idle", 1310 * MS), Some(false));
    assert_eq!(a.sync_overlay_visibility("idle", 1400 * MS), None);
    assert_eq!(a.sync_overlay_visibility("processing", 1500 * MS), Some(true));
    a.settings_button(0);
    assert_eq!(a.sync_overlay_visibility("idle", 9000 * MS), None);
}

#[test]
fn placeholder_names_say_nothing() {
    for name in ["", "  ", "Default", " default input ", "PipeWire"] {
        assert!(is_placeholder_device_name(name), "{:?}", name);
    }
    assert!(!is_placeholder_device_name("USB Mic"));
    assert!(!is_placeholder_device_name("pulse"));
}

#[test]
fn fields_of_the_default_source() {
    let output = "id 51\n  * node.description = \"x\"\n    node.description = \"Default\"\n\
                  node.nick = \" USB Mic \"\nnode.description\n  device.description = Card\n";
    assert_eq!(parse_wpctl_field(output, "node.description"), None);
    assert_eq!(parse_wpctl_field(output, "node.nick").as_deref(), Some("USB Mic"));
    assert_eq!(
        parse_wpctl_field(output, "device.description").as_deref(),
        Some("Card")
    );
    let bytes = output.as_bytes().to_vec();
    assert_eq!(
        default_source_name_from_wpctl(true, bytes.clone()).as_deref(),
        Some("USB Mic")
    );
    assert_eq!(default_source_name_from_wpctl(false, bytes), None);
    assert_eq!(default_source_name_from_wpctl(true, vec![0xff]), None);
}

#[test]
fn name_of_the_microphone() {
    assert_eq!(short_mic_label("Überlang genug", 4), "Über");
    assert_eq!(short_mic_label("ab", 4), "ab");
    assert_eq!(short_mic_label("ab", 0), "");
    let devices = vec!["default".to_string(), "  ".to_string(), " Mic ".to_string()];
    assert_eq!(detect_active_mic_name(None, &devices).as_deref(), Some("Mic"));
    assert_eq!(
        detect_active_mic_name(Some("Src".to_string()), &devices).as_deref(),
        Some("Src")
    );
    assert_eq!(detect_active_mic_name(None, &Vec::new()), None);
}

#[test]
fn providers_run_somewhere() {
    assert_eq!(provider_source_label("mistral_realtime"), "API");
    assert_eq!(provider_source_label("whisper-cpp"), "Local");
    assert_eq!(provider_source_label("x"), "Unknown");
    assert_eq!(window_size(560, 220), (560, 300));
    assert_eq!(window_size(100, 900), (460, 900));
}

#[test]
fn overlay_starts_from_the_settings() {
    let mut config = Config::default();
    config.streaming.enabled = true;
    config.whisper.model = None;
    config.whisper.provider = Some("openai-cli".to_string());
    config.behavior.ducking_level_percent = 99;
    config.overlay.url = "http://host:1/stream/events".to_string();
    let runtime =
        OverlayRuntimeConfig::checked_from_config(&config, Some("A long microphone"), None, None)
            .unwrap();
    assert_eq!(runtime.url, "http://host:1/stream/events");
    assert_eq!(runtime.ui.urls.toggle, "http://host:1/toggle");
    assert_eq!(runtime.ui.urls.start, "http://host:1/start");
    assert_eq!(runtime.ui.urls.stop, "http://host:1/stop");
    assert_eq!(runtime.ui.engine_mode, EngineMode::Streaming);
    assert_eq!(runtime.ui.labels.streaming_source, "API");
    assert_eq!(runtime.ui.labels.batch_model, "<default>");
    assert_eq!(runtime.ui.labels.batch_source, "Local");
    assert_eq!(runtime.ui.labels.mic, "A long micro");
    assert_eq!(runtime.ui.settings.ducking_level_percent, 95);
    assert_eq!(runtime.ui.settings.ptt_activation_delay_ms, 260);
    assert!(runtime.ui.output.copy_to_clipboard && runtime.ui.output.auto_paste);
}

#[test]
fn what_was_kept_comes_back() {
    let saved = OverlayUiState {
        control_mode: InputControlMode::Hold,
        ptt_activation_delay_ms: 5000,
        show_meter: false,
    };
    let output = OutputModeState {
        copy_to_clipboard: false,
        auto_paste: false,
        append_newline: false,
        send_enter: false,
    };
    let runtime = OverlayRuntimeConfig::fallback_default(Some(output), Some(saved)).unwrap();
    assert_eq!(runtime.ui.settings.control_mode, InputControlMode::Hold);
    assert_eq!(runtime.ui.settings.ptt_activation_delay_ms, 800);
    assert!(!runtime.ui.settings.show_meter);
    assert_eq!(runtime.ui.output, output);
    assert_eq!(runtime.ui.labels.batch_model, "base");
    assert_eq!(runtime.ui.urls.toggle, "http://127.0.0.1:3737/toggle");
    assert_eq!((runtime.width, runtime.height), (560, 220));
}

#[test]
fn settings_are_put_into_the_configuration() {
    let mut config = Config::default();
    persist_engine_mode(&mut config, EngineMode::Streaming);
    assert!(config.streaming.enabled);
    let update = OverlaySettingsUpdate {
        control_mode: InputControlMode::Hold,
        ptt_activation_delay_ms: 10,
        show_meter: false,
        audio_ducking: true,
        ducking_level_percent: 1,
        preserve_clipboard: true,
    };
    persist_overlay_settings(&mut config, &update);
    assert!(!config.overlay.show_meter);
    assert!(config.behavior.audio_ducking && config.behavior.preserve_clipboard);
    assert_eq!(config.behavior.ducking_level_percent, 5);
    assert_eq!(persist_overlay_ui_state(&update).ptt_activation_delay_ms, 120);
}

#[test]
fn failures_to_keep_something() {
    let e = || "e".to_string();
    let messages: Vec<String> = vec![
        SaveError::NoDataDirectory.message(),
        SaveError::CreateDirectory(StateFile::OutputMode, e()).message(),
        SaveError::CreateDirectory(StateFile::OverlayUi, e()).message(),
        SaveError::Serialize(StateFile::OutputMode, e()).message(),
        SaveError::Serialize(StateFile::OverlayUi, e()).message(),
        SaveError::Write(StateFile::OutputMode, e()).message(),
        SaveError::Write(StateFile::OverlayUi, e()).message(),
        SaveError::LoadConfig(e()).message(),
        SaveError::SaveConfig(e()).message(),
    ];
    assert_eq!(
        messages,
        vec![
            "Could not resolve data directory",
            "Failed to create output-mode directory: e",
            "Failed to create overlay state directory: e",
            "Failed to serialize output mode state: e",
            "Failed to serialize overlay state: e",
            "Failed to write output mode state: e",
            "Failed to write overlay state: e",
            "Failed to load config: e",
            "Failed to save config: e",
        ]
    );
}
