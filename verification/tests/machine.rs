use audetic::audio::ducking::AudioDuckingController;
use audetic::audio::recording::{
    BehaviorOptions, JobOptions, RecordingPhase, RecordingStatus, ToggleResult,
};
use audetic::config::{Config, StreamingConfig};
use audetic::service::{
    behavior_options, build_transcriber, handle_toggle_result, run_command, ApiCommand, DuckStep,
    ServiceError,
};
use audetic::streaming::machine::{StreamingMachine, ToggleAction};

fn machine() -> StreamingMachine {
    let behavior = BehaviorOptions {
        auto_paste: true,
        delete_audio_files: true,
        append_newline: true,
    };
    StreamingMachine::new(behavior, StreamingConfig::default())
}

fn status(phase: RecordingPhase, job_id: Option<&str>) -> RecordingStatus {
    RecordingStatus {
        phase,
        current_job_id: job_id.map(|s| s.to_string()),
        current_job_options: None,
        last_error: None,
    }
}

fn requested(append_newline: Option<bool>) -> JobOptions {
    JobOptions {
        copy_to_clipboard: false,
        auto_paste: false,
        append_newline,
        send_enter: Some(true),
    }
}

#[test]
fn toggle_starts_a_job_under_a_fresh_identifier() {
    let mut m = machine();
    let (action, result) = m.toggle(&status(RecordingPhase::Idle, None), None);
    assert_eq!(result.phase, RecordingPhase::Recording);
    let id = result.job_id.unwrap();
    assert_eq!(id.len(), 36);
    assert!(uuid::Uuid::parse_str(&id).is_ok());
    match action {
        ToggleAction::Start { job_id, options } => {
            assert_eq!(job_id, id);
            assert!(options.copy_to_clipboard);
            assert!(options.auto_paste);
            assert_eq!(options.append_newline, Some(true));
            assert_eq!(options.send_enter, Some(false));
        }
        other => panic!("{:?}", other),
    }
    let (_, again) = m.toggle(&status(RecordingPhase::Error, None), None);
    assert_ne!(again.job_id.unwrap(), id);
}

#[test]
fn stop_names_the_job_that_was_started() {
    let mut m = machine();
    let (_, started) = m.toggle(&status(RecordingPhase::Idle, None), None);
    let id = started.job_id.unwrap();
    m.session_begun(&id);
    let mut during = status(RecordingPhase::Recording, Some("shown"));
    during.current_job_options = Some(JobOptions {
        copy_to_clipboard: true,
        auto_paste: true,
        append_newline: Some(true),
        send_enter: Some(false),
    });
    let (action, stopped) = m.stop(&during, Some(requested(None)));
    assert_eq!(stopped.phase, RecordingPhase::Processing);
    assert_eq!(stopped.job_id.as_deref(), Some(id.as_str()));
    match action {
        ToggleAction::Stop { stored: Some(options) } => {
            assert!(!options.copy_to_clipboard);
            assert!(!options.auto_paste);
            assert_eq!(options.append_newline, Some(true));
            assert_eq!(options.send_enter, Some(true));
        }
        other => panic!("{:?}", other),
    }
    assert!(m.active.is_none());
}

#[test]
fn recording_without_a_session_is_only_marked() {
    let mut m = machine();
    let (action, result) = m.toggle(&status(RecordingPhase::Recording, Some("job-9")), None);
    assert!(matches!(action, ToggleAction::MarkProcessing));
    assert_eq!(result.phase, RecordingPhase::Processing);
    assert_eq!(result.job_id.as_deref(), Some("job-9"));
}

#[test]
fn commands_out_of_turn_do_nothing() {
    let mut m = machine();
    m.session_begun("job-1");
    let recording = status(RecordingPhase::Recording, Some("job-1"));
    let (action, result) = run_command(&mut m, &recording, ApiCommand::StartRecording(None));
    assert!(matches!(action, ToggleAction::Nothing));
    assert_eq!(result.phase, RecordingPhase::Recording);
    assert_eq!(m.active.as_deref(), Some("job-1"));
    let idle = status(RecordingPhase::Idle, None);
    let (action, result) = run_command(&mut m, &idle, ApiCommand::StopRecording(None));
    assert!(matches!(action, ToggleAction::Nothing));
    assert_eq!(result.phase, RecordingPhase::Idle);
    let processing = status(RecordingPhase::Processing, Some("job-1"));
    let (action, result) = run_command(&mut m, &processing, ApiCommand::ToggleRecording(None));
    assert!(matches!(action, ToggleAction::Nothing));
    assert_eq!(result.job_id.as_deref(), Some("job-1"));
}

#[test]
fn commands_in_turn_start_and_stop() {
    let mut m = machine();
    let idle = status(RecordingPhase::Idle, None);
    let command = ApiCommand::StartRecording(Some(requested(Some(false))));
    let (action, _) = run_command(&mut m, &idle, command);
    match action {
        ToggleAction::Start { options, .. } => {
            assert_eq!(options.append_newline, Some(false));
            assert!(!options.copy_to_clipboard);
        }
        other => panic!("{:?}", other),
    }
    m.session_begun("job-1");
    let recording = status(RecordingPhase::Recording, Some("job-1"));
    let (action, _) = run_command(&mut m, &recording, ApiCommand::StopRecording(None));
    assert!(matches!(action, ToggleAction::Stop { stored: None }));
}

#[test]
fn only_the_ended_session_is_forgotten() {
    let mut m = machine();
    m.session_begun("job-2");
    m.clear_active_slot("job-1");
    assert_eq!(m.active.as_deref(), Some("job-2"));
    m.clear_active_slot("job-2");
    assert!(m.active.is_none());
}

fn result(phase: RecordingPhase) -> Option<ToggleResult> {
    Some(ToggleResult {
        phase,
        job_id: None,
    })
}

#[test]
fn sound_is_lowered_while_recording_and_restored_after() {
    let mut ducking = AudioDuckingController::new(true, 35);
    let recording = result(RecordingPhase::Recording);
    assert_eq!(
        handle_toggle_result(&recording, &mut ducking),
        DuckStep::Lower(35)
    );
    ducking.ducked(0.8f32.to_bits(), false);
    assert_eq!(
        handle_toggle_result(&recording, &mut ducking),
        DuckStep::Nothing
    );
    match handle_toggle_result(&result(RecordingPhase::Processing), &mut ducking) {
        DuckStep::Restore(state) => {
            assert_eq!(f32::from_bits(state.previous_volume_bits), 0.8);
            assert!(!state.previous_muted);
        }
        other => panic!("{:?}", other),
    }
    assert_eq!(
        handle_toggle_result(&result(RecordingPhase::Idle), &mut ducking),
        DuckStep::Nothing
    );
}

#[test]
fn sound_is_restored_after_a_failure() {
    let mut ducking = AudioDuckingController::new(true, 35);
    ducking.ducked(0, true);
    let step = handle_toggle_result(&None, &mut ducking);
    assert!(matches!(step, DuckStep::Restore(_)));
}

#[test]
fn transcriber_is_built_from_the_settings() {
    let mut config = Config::default();
    let (provider, told) = build_transcriber(&config).unwrap();
    assert_eq!(provider, "audetic-api");
    assert_eq!(told.model.as_deref(), Some("base"));
    assert_eq!(told.language.as_deref(), Some("en"));
    assert_eq!(told.api_key, None);
    config.whisper.provider = None;
    let err = build_transcriber(&config).unwrap_err();
    assert_eq!(err, ServiceError::NoProvider);
    assert_eq!(
        err.message(),
        "No transcription provider configured. Set [whisper].provider in ~/.config/audetic/config.toml"
    );
}

#[test]
fn behavior_of_the_settings_holds_for_every_job() {
    let config = Config::default();
    let options = behavior_options(&config.behavior);
    assert!(options.auto_paste);
    assert!(options.delete_audio_files);
    assert!(!options.append_newline);
}

#[test]
fn default_settings() {
    let config = Config::default();
    assert_eq!(config.whisper.provider.as_deref(), Some("audetic-api"));
    assert_eq!(config.ui.notification_color, "rgb(ff1744)");
    assert_eq!(config.ui.waybar.idle_tooltip, "Press Super+R to record");
    assert_eq!(config.wayland.input_method, "wtype");
    assert_eq!(config.behavior.ducking_level_percent, 35);
    assert!(!config.streaming.enabled);
    assert_eq!(config.streaming.commit_target, "clipboard");
    assert_eq!(config.overlay.url, "http://127.0.0.1:3737/stream/events");
    assert_eq!((config.overlay.width, config.overlay.height), (560, 220));
}

#[test]
fn merging_options_twice_changes_nothing_more() {
    let current = JobOptions {
        copy_to_clipboard: true,
        auto_paste: true,
        append_newline: Some(true),
        send_enter: None,
    };
    let once = current.merged(requested(None));
    let twice = once.merged(requested(None));
    assert_eq!(once.append_newline, Some(true));
    assert_eq!(once.send_enter, Some(true));
    assert_eq!(twice.append_newline, once.append_newline);
    assert_eq!(twice.send_enter, once.send_enter);
    assert_eq!(twice.copy_to_clipboard, once.copy_to_clipboard);
}
