use audetic::streaming::mistral_realtime::{
    encodable, pcm_to_bytes, read_payload, AudioStep, Frame, MistralRealtimeClient, RealtimeMessage,
    RealtimeSession, RealtimeStep,
};
use audetic::web_url::{checked_control_url, UrlError};

fn client(base: &str) -> MistralRealtimeClient {
    MistralRealtimeClient {
        api_key: "test".to_string(),
        model: "voxtral-mini".to_string(),
        api_base_url: base.to_string(),
        sample_rate_hz: 16_000,
    }
}

#[test]
fn websocket_url_uses_wss_and_model_query() {
    let client = MistralRealtimeClient {
        api_key: "test".to_string(),
        model: "voxtral-mini".to_string(),
        api_base_url: "https://api.mistral.ai".to_string(),
        sample_rate_hz: 16_000,
    };

    let url = client.websocket_url().expect("url should build");
    assert!(url.starts_with("wss://api.mistral.ai/v1/audio/transcriptions/realtime?"));
    assert!(url.contains("model=voxtral-mini"));
}

#[test]
fn websocket_url_rejects_invalid_scheme() {
    let client = MistralRealtimeClient {
        api_key: "test".to_string(),
        model: "voxtral-mini".to_string(),
        api_base_url: "ftp://example.com".to_string(),
        sample_rate_hz: 16_000,
    };

    assert!(client.websocket_url().is_err());
}

#[test]
fn websocket_url_is_exact() {
    let url = client("http://localhost:8080//").checked_websocket_url().unwrap();
    assert_eq!(
        url.unwrap(),
        "ws://localhost:8080/v1/audio/transcriptions/realtime?model=voxtral-mini"
    );
    let url = client("https://api.mistral.ai/old/path?a=b").checked_websocket_url();
    assert_eq!(
        url.unwrap().unwrap(),
        "wss://api.mistral.ai/v1/audio/transcriptions/realtime?model=voxtral-mini"
    );
    let mut spaced = client("https://api.mistral.ai");
    spaced.model = "a b&c".to_string();
    assert_eq!(
        spaced.websocket_url().unwrap(),
        "wss://api.mistral.ai/v1/audio/transcriptions/realtime?model=a+b%26c"
    );
}

#[test]
fn websocket_url_errors_are_told_apart() {
    match client("ftp://example.com").checked_websocket_url() {
        Some(Err(UrlError::UnsupportedScheme(s))) => assert_eq!(s, "ftp"),
        other => panic!("{:?}", other),
    }
    let invalid = client("not a url").checked_websocket_url();
    assert!(matches!(invalid, Some(Err(UrlError::InvalidBase))));
    assert_eq!(UrlError::InvalidBase.message(), "Invalid Mistral API base URL");
    assert_eq!(
        UrlError::UnsupportedScheme("ftp".to_string()).message(),
        "Unsupported Mistral API URL scheme: ftp"
    );
    assert_eq!(
        UrlError::SchemeRefused.message(),
        "Failed to set websocket scheme"
    );
}

#[test]
fn control_urls_follow_the_event_stream() {
    assert_eq!(
        checked_control_url("http://10.0.0.2:9000/stream/events?x=1", "/toggle").unwrap(),
        "http://10.0.0.2:9000/toggle"
    );
    assert_eq!(
        checked_control_url("::::", "/stop").unwrap(),
        "http://127.0.0.1:3737/stop"
    );
    assert_eq!(
        checked_control_url("mailto:a", "b?c").unwrap(),
        "mailto:b?c"
    );
}

#[test]
fn headers_of_the_connection() {
    assert_eq!(client("https://a").authorization(), "Bearer test");
    assert_eq!(MistralRealtimeClient::user_agent("1.2.3"), "audetic/1.2.3");
}

#[test]
fn session_update_announces_the_format() {
    let text = client("https://a").session_update();
    let value: serde_json::Value = serde_json::from_str(&text).unwrap();
    assert_eq!(value["type"], "session.update");
    assert_eq!(value["session"]["audio_format"]["encoding"], "pcm_s16le");
    assert_eq!(value["session"]["audio_format"]["sample_rate"], 16_000);
}

#[test]
fn samples_become_little_endian_bytes() {
    let samples: Vec<i16> = vec![0, 1, -1, i16::MIN, i16::MAX, 258];
    let mut expected: Vec<u8> = Vec::new();
    for s in &samples {
        expected.extend_from_slice(&s.to_le_bytes());
    }
    assert_eq!(pcm_to_bytes(&samples), expected);
}

#[test]
fn audio_is_sent_as_base64() {
    let mut session = RealtimeSession::new();
    match session.on_audio(Some(vec![1, 2])) {
        AudioStep::Send(text) => {
            assert_eq!(text, "{\"audio\":\"AQACAA==\",\"type\":\"input_audio.append\"}")
        }
        other => panic!("{:?}", other),
    }
    assert!(matches!(session.on_audio(Some(Vec::new())), AudioStep::Skip));
    assert!(!session.audio_ended);
}

#[test]
fn messages_are_bounded_by_memory_alone() {
    assert!(encodable(0));
    assert!(encodable(1 << 29));
    assert!(!encodable(usize::MAX));
}

#[test]
fn base64_groups_are_padded() {
    let mut session = RealtimeSession::new();
    for (samples, audio) in vec![
        (vec![-1], "//8="),
        (vec![0, 0x1000, 0x2010], "AAAAEBAg"),
        (vec![i16::MAX, i16::MIN], "/38AgA=="),
    ] {
        match session.on_audio(Some(samples)) {
            AudioStep::Send(text) => assert_eq!(
                text,
                format!("{{\"audio\":\"{}\",\"type\":\"input_audio.append\"}}", audio)
            ),
            other => panic!("{:?}", other),
        }
    }
}

#[test]
fn transcript_goes_on_after_the_end_of_the_audio() {
    let mut session = RealtimeSession::new();
    let first = "{\"type\":\"transcription.text.delta\",\"text\":\" one \"}";
    let second = "{\"type\":\"transcription.segment\",\"text\":\"two\"}";
    session.on_frame(Frame::Text(first.to_string()));
    session.on_audio(None);
    session.on_frame(Frame::Text(second.to_string()));
    assert_eq!(session.finish().final_text, "one two");
}

#[test]
fn end_of_audio_is_sent_and_waited_for() {
    let mut session = RealtimeSession::new();
    assert!(!session.timed_out(100_000));
    match session.on_audio(None) {
        AudioStep::Send(text) => assert_eq!(text, "{\"type\":\"input_audio.end\"}"),
        other => panic!("{:?}", other),
    }
    assert!(matches!(session.on_audio(None), AudioStep::Skip));
    assert!(matches!(session.on_audio(Some(vec![1])), AudioStep::Skip));
    assert!(!session.timed_out(11_999));
    assert!(session.timed_out(12_000));
}

#[test]
fn deltas_and_segments_are_gathered() {
    let mut session = RealtimeSession::new();
    let first = "{\"type\":\"transcription.text.delta\",\"text\":\"Hello\"}";
    match session.on_frame(Frame::Text(first.to_string())) {
        RealtimeStep::PublishPartial(s) => assert_eq!(s, "Hello"),
        other => panic!("{:?}", other),
    }
    let second = "{\"type\":\"transcription.segment\",\"text\":\" world \"}";
    match session.on_frame(Frame::Binary(second.as_bytes().to_vec())) {
        RealtimeStep::PublishPartial(s) => assert_eq!(s, "Hello world "),
        other => panic!("{:?}", other),
    }
    assert_eq!(session.finish().final_text, "Hello world");
}

#[test]
fn complete_transcript_replaces_what_was_gathered() {
    let mut session = RealtimeSession::new();
    let delta = "{\"type\":\"transcription.text.delta\",\"text\":\"Hxllo\"}";
    session.on_frame(Frame::Text(delta.to_string()));
    let done = "{\"type\":\"transcription.done\",\"text\":\" Hello \"}";
    match session.on_frame(Frame::Text(done.to_string())) {
        RealtimeStep::PublishFinal(s) => assert_eq!(s, "Hello"),
        other => panic!("{:?}", other),
    }
    assert_eq!(session.finish().final_text, "Hello");
}

#[test]
fn an_empty_complete_transcript_ends_with_what_was_gathered() {
    let mut session = RealtimeSession::new();
    let delta = "{\"type\":\"transcription.text.delta\",\"text\":\" so far\"}";
    session.on_frame(Frame::Text(delta.to_string()));
    let done = "{\"type\":\"transcription.done\"}";
    let step = session.on_frame(Frame::Text(done.to_string()));
    assert!(matches!(step, RealtimeStep::End));
    assert_eq!(session.finish().final_text, "so far");
}

#[test]
fn errors_of_the_service_are_published_and_end_the_session() {
    let mut session = RealtimeSession::new();
    let named = "{\"type\":\"error\",\"error\":{\"message\":\"no quota\"}}";
    match session.on_frame(Frame::Text(named.to_string())) {
        RealtimeStep::Fail { published, message } => {
            assert_eq!(published, "no quota");
            assert_eq!(message, "Mistral realtime error: no quota");
        }
        other => panic!("{:?}", other),
    }
    match read_payload("{\"type\":\"error\"}") {
        RealtimeMessage::Failure(s) => assert_eq!(s, "Unknown realtime transcription error"),
        other => panic!("{:?}", other),
    }
}

#[test]
fn other_messages_of_the_service() {
    for kind in ["session.created", "session.updated", "transcription.language", ""] {
        let payload = format!("{{\"type\":\"{}\"}}", kind);
        assert!(matches!(read_payload(&payload), RealtimeMessage::Control));
    }
    assert!(matches!(read_payload("  "), RealtimeMessage::Control));
    assert!(matches!(read_payload("no json"), RealtimeMessage::Control));
    let mut session = RealtimeSession::new();
    let odd = "{\"type\":\"odd\"}";
    match session.on_frame(Frame::Text(odd.to_string())) {
        RealtimeStep::PublishWarning(s) => assert_eq!(s, "Ignored realtime event type: odd"),
        other => panic!("{:?}", other),
    }
}

#[test]
fn frames_without_a_payload() {
    let mut session = RealtimeSession::new();
    assert!(matches!(session.on_frame(Frame::Control), RealtimeStep::Continue));
    assert!(matches!(session.on_frame(Frame::Close), RealtimeStep::End));
    let broken = Frame::Binary(vec![0xff, 0xfe]);
    assert!(matches!(session.on_frame(broken), RealtimeStep::Continue));
}
