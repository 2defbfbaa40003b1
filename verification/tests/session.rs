use audetic::audio::recording::{BehaviorOptions, CompletedJob, JobOptions};
use audetic::config::StreamingConfig;
use audetic::streaming::session::{
    conclude_session, effective_options, end_steps, history_number, prepare_session, resolve_api_key,
    stream_audio_path,
    stream_session_record, Commit, CommitAction, SessionOutcome, StreamError,
};

#[test]
fn test_save_stream_session_path_format() {
    let path = stream_audio_path("abc-123");
    assert_eq!(path, "stream://abc-123");
}

#[test]
fn test_resolve_api_key_prefers_config() {
    let cfg = StreamingConfig {
        api_key: Some("abc".to_string()),
        ..StreamingConfig::default()
    };
    let key = resolve_api_key(&cfg, None).expect("config key should resolve");
    assert_eq!(key, "abc");
}

#[test]
fn configured_key_wins_over_environment() {
    let cfg = StreamingConfig {
        api_key: Some("  abc \n".to_string()),
        ..StreamingConfig::default()
    };
    assert_eq!(resolve_api_key(&cfg, Some("env")).unwrap(), "abc");
}

#[test]
fn blank_configured_key_falls_back_to_environment() {
    let cfg = StreamingConfig {
        api_key: Some(" \t ".to_string()),
        ..StreamingConfig::default()
    };
    assert_eq!(resolve_api_key(&cfg, Some(" env ")).unwrap(), "env");
    let err = resolve_api_key(&cfg, Some("  ")).unwrap_err();
    assert_eq!(
        err.message(),
        "MISTRAL_API_KEY missing. Set [streaming].api_key or environment variable"
    );
}

#[test]
fn session_needs_a_known_provider() {
    let cfg = StreamingConfig {
        provider: "other".to_string(),
        ..StreamingConfig::default()
    };
    match prepare_session(&cfg, Some("key")) {
        Err(StreamError::UnsupportedProvider(p)) => assert_eq!(p, "other"),
        other => panic!("{:?}", other),
    }
    let err = prepare_session(&cfg, None).unwrap_err();
    assert_eq!(
        err.message(),
        "Unsupported streaming provider 'other'. Use 'mistral_realtime'"
    );
}

#[test]
fn session_is_set_up_from_the_settings() {
    let cfg = StreamingConfig {
        provider: " mistral_realtime ".to_string(),
        ..StreamingConfig::default()
    };
    let setup = prepare_session(&cfg, Some("key")).unwrap();
    assert_eq!(setup.client.api_key, "key");
    assert_eq!(setup.client.model, "voxtral-mini-transcribe-realtime-2602");
    assert_eq!(setup.client.api_base_url, "https://api.mistral.ai");
    assert_eq!(setup.client.sample_rate_hz, 16_000);
    assert_eq!(setup.pump.max_chunks, 50);
    assert_eq!(setup.pump.chunk_ms, 20);
    assert_eq!(setup.pump.silence_timeout_ms, 700);
    assert!(matches!(
        prepare_session(&cfg, None),
        Err(StreamError::MissingApiKey)
    ));
}

#[test]
fn a_session_without_speech_says_so() {
    match conclude_session(Ok(" \n".to_string())) {
        SessionOutcome::NoSpeech { notice } => assert_eq!(notice, "No speech detected"),
        other => panic!("{:?}", other),
    }
}

#[test]
fn a_session_with_speech_is_completed_with_trimmed_text() {
    match conclude_session(Ok("  hello there \n".to_string())) {
        SessionOutcome::Completed { text } => assert_eq!(text, "hello there"),
        other => panic!("{:?}", other),
    }
}

#[test]
fn a_failed_session_tells_its_error() {
    match conclude_session(Err("boom".to_string())) {
        SessionOutcome::Failed { message, notice } => {
            assert_eq!(message, "boom");
            assert_eq!(notice, "Streaming transcription failed: boom");
        }
        other => panic!("{:?}", other),
    }
}

fn options(copy: bool, paste: bool, newline: Option<bool>, enter: Option<bool>) -> JobOptions {
    JobOptions {
        copy_to_clipboard: copy,
        auto_paste: paste,
        append_newline: newline,
        send_enter: enter,
    }
}

fn behavior(append_newline: bool) -> BehaviorOptions {
    BehaviorOptions {
        auto_paste: true,
        delete_audio_files: true,
        append_newline,
    }
}

#[test]
fn stored_options_hold_at_the_end() {
    let initial = options(true, true, None, None);
    let stored = options(false, false, None, None);
    assert!(!effective_options(Some(stored), initial).copy_to_clipboard);
    assert!(effective_options(None, initial).copy_to_clipboard);
}

#[test]
fn commit_to_none_finishes_at_once() {
    let mut c = Commit::new("none", "hi", &options(true, true, None, Some(true)), behavior(true));
    assert!(matches!(c.next(true), CommitAction::Finished));
}

#[test]
fn commit_to_clipboard_only_copies() {
    let mut c = Commit::new(
        "clipboard",
        "hi",
        &options(true, true, None, Some(true)),
        behavior(true),
    );
    match c.next(true) {
        CommitAction::Copy(text) => assert_eq!(text, "hi"),
        other => panic!("{:?}", other),
    }
    assert!(matches!(c.next(true), CommitAction::Finished));
}

#[test]
fn commit_that_cannot_copy_fails() {
    let mut c = Commit::new("text_io", "hi", &options(true, true, None, None), behavior(false));
    assert!(matches!(c.next(true), CommitAction::Copy(_)));
    assert!(matches!(c.next(false), CommitAction::Failed));
}

#[test]
fn commit_to_text_io_types_pastes_and_presses_enter() {
    let mut c = Commit::new(
        "text_io",
        "hi",
        &options(true, true, None, Some(true)),
        behavior(true),
    );
    assert!(matches!(c.next(true), CommitAction::Copy(_)));
    match c.next(true) {
        CommitAction::Inject(text) => assert_eq!(text, "hi\n"),
        other => panic!("{:?}", other),
    }
    assert!(matches!(c.next(false), CommitAction::Paste));
    assert!(matches!(c.next(false), CommitAction::PressEnter));
    assert!(matches!(c.next(false), CommitAction::Finished));
}

#[test]
fn options_of_the_job_decide_about_the_newline() {
    let mut c = Commit::new(
        "text_io",
        "hi",
        &options(false, true, Some(false), None),
        behavior(true),
    );
    match c.next(true) {
        CommitAction::Inject(text) => assert_eq!(text, "hi"),
        other => panic!("{:?}", other),
    }
    assert!(matches!(c.next(false), CommitAction::Finished));
}

#[test]
fn history_entry_of_a_session() {
    let record = stream_session_record("hello", "job-7");
    assert_eq!(record.text, "hello");
    assert_eq!(record.audio_path, "stream://job-7");
}

#[test]
fn a_completed_job_is_stamped_with_the_present_time() {
    let before = chrono::Utc::now();
    let job = CompletedJob::new("job-7", 3, "hello");
    assert_eq!(job.job_id, "job-7");
    assert_eq!(job.history_id, 3);
    assert_eq!(job.text, "hello");
    assert!(job.created_at.ends_with("+00:00"));
    assert_eq!(job.created_at.find('T'), Some(10));
    let at = chrono::DateTime::parse_from_rfc3339(&job.created_at).unwrap();
    assert!(at.with_timezone(&chrono::Utc) >= before);
    assert!(at.with_timezone(&chrono::Utc) <= chrono::Utc::now());
}

#[test]
fn a_session_that_is_not_stored_has_no_number() {
    assert_eq!(history_number(Some(12)), 12);
    assert_eq!(history_number(None), 0);
}

fn steps(result: Result<String, String>) -> Vec<String> {
    end_steps(conclude_session(result))
        .iter()
        .map(|step| format!("{:?}", step))
        .collect()
}

#[test]
fn sessions_end_step_by_step() {
    assert_eq!(
        steps(Ok(" hi ".to_string())),
        vec![
            "DiscardRecording",
            "Commit(\"hi\")",
            "ShowComplete(\"hi\")",
            "Store(\"hi\")",
            "CompleteJob(\"hi\")",
            "PublishStopped",
            "ClearActiveSlot",
        ]
    );
    assert_eq!(
        steps(Ok("  ".to_string())),
        vec![
            "DiscardRecording",
            "SetIdle",
            "ShowError(\"No speech detected\")",
            "PublishStopped",
            "ClearActiveSlot",
        ]
    );
    assert_eq!(
        steps(Err("e".to_string())),
        vec![
            "DiscardRecording",
            "PublishError(\"e\")",
            "FailJob(\"e\")",
            "ShowError(\"Streaming transcription failed: e\")",
            "PublishStopped",
            "ClearActiveSlot",
        ]
    );
}
