use audetic::api::{
    event_frame, event_payload, lagged_frame, status, stream_status, version, ApiServer,
    KEEP_ALIVE_SECS,
};
use audetic::streaming::events::{audio_level_payload, StreamEvent};
use audetic::streaming::hub::StreamHub;
use audetic::streaming::pump::{
    level_due, note_send, AudioPump, AudioPumpConfig, ChunkQueue, SendOutcome, Taken,
};
use audetic::streaming::rate::RateConverter;
use serde_json::Value;

fn text_data(key: &str, text: &str) -> Value {
    let mut map = serde_json::Map::new();
    map.insert(key.to_string(), Value::from(text));
    Value::Object(map)
}

#[test]
fn status_endpoint_returns_snapshot() {
    let hub = StreamHub::new();
    let snapshot = stream_status(&hub);
    assert!(!snapshot.active);
    assert_eq!(snapshot.queue_depth, 0);
}

#[test]
fn stream_event_serializes_expected_shape() {
    let event = StreamEvent::new(
        42,
        "partial",
        Some("job-1".to_string()),
        text_data("text", "hello"),
    );

    let value = event.to_json();
    assert_eq!(value.get("id").and_then(|v| v.as_u64()), Some(42));
    assert_eq!(
        value.get("event_type").and_then(|v| v.as_str()),
        Some("partial")
    );
    assert_eq!(value.get("job_id").and_then(|v| v.as_str()), Some("job-1"));
    assert!(value.get("ts_ms").and_then(|v| v.as_i64()).is_some());
    assert_eq!(
        value
            .get("data")
            .and_then(|v| v.get("text"))
            .and_then(|v| v.as_str()),
        Some("hello")
    );
}

#[test]
fn event_without_a_job_has_a_null_job() {
    let event = StreamEvent::stamped(1, "error", None, text_data("message", "m"), -5);
    let value = event.to_json();
    assert!(value.get("job_id").unwrap().is_null());
    assert_eq!(value.get("ts_ms").and_then(|v| v.as_i64()), Some(-5));
}

#[test]
fn a_new_event_happens_now() {
    let before = chrono::Utc::now().timestamp_millis();
    let event = StreamEvent::new(1, "warning", None, Value::Null);
    let after = chrono::Utc::now().timestamp_millis();
    assert!(before <= event.ts_ms && event.ts_ms <= after);
}

#[test]
fn level_payload_holds_its_parts() {
    let value = audio_level_payload(Value::from(-20.5), Value::from(-3.0), true);
    assert_eq!(value["rms_dbfs"], -20.5);
    assert_eq!(value["peak_dbfs"], -3.0);
    assert_eq!(value["clipping"], true);
}

#[test]
fn events_are_numbered_upwards() {
    let mut hub = StreamHub::default();
    assert_eq!(hub.partial_text("j", "a").id, 1);
    assert_eq!(hub.warning(None, "w").id, 2);
    assert_eq!(hub.final_text("j", "b").id, 3);
    hub.next_id = u64::MAX;
    assert_eq!(hub.warning(None, "w").id, u64::MAX);
    assert_eq!(hub.next_id, 0);
}

#[test]
fn sessions_are_counted_and_shown() {
    let mut hub = StreamHub::new();
    hub.error(None, "old");
    assert_eq!(hub.snapshot().last_error.as_deref(), Some("old"));
    let started = hub.session_started("job-1");
    assert_eq!(started.event_type, "session_started");
    assert_eq!(started.data["message"], "Streaming session started");
    assert_eq!(started.job_id.as_deref(), Some("job-1"));
    let during = hub.snapshot();
    assert!(during.active);
    assert_eq!(during.job_id.as_deref(), Some("job-1"));
    assert_eq!(during.last_error, None);
    hub.set_queue_depth(7);
    hub.partial_text("job-1", "a");
    hub.final_text("job-1", "ab");
    let stopped = hub.session_stopped("job-1");
    assert_eq!(stopped.event_type, "session_stopped");
    assert_eq!(stopped.data["message"], "Streaming session stopped");
    let after = hub.snapshot();
    assert!(!after.active);
    assert_eq!(after.job_id, None);
    assert_eq!(after.queue_depth, 0);
    assert_eq!(after.sessions_started, 1);
    assert_eq!(after.sessions_stopped, 1);
    assert_eq!(after.partial_events, 1);
    assert_eq!(after.final_events, 1);
    assert_eq!(after.error_events, 1);
}

#[test]
fn clients_are_counted() {
    let mut hub = StreamHub::new();
    hub.client_disconnected();
    assert_eq!(hub.snapshot().connected_clients, 0);
    hub.client_connected();
    hub.client_connected();
    hub.client_disconnected();
    assert_eq!(hub.snapshot().connected_clients, 1);
}

#[test]
fn level_events_name_their_job() {
    let mut hub = StreamHub::new();
    let event = hub.audio_level(Some("job-1"), Value::from(-1.5), Value::from(-0.5), false);
    assert_eq!(event.event_type, "audio_level");
    assert_eq!(event.job_id.as_deref(), Some("job-1"));
    assert_eq!(event.data["rms_dbfs"], -1.5);
    assert!(hub.audio_level(None, Value::Null, Value::Null, true).job_id.is_none());
}

#[test]
fn service_tells_itself() {
    let value = status("0.1.0");
    assert_eq!(value["service"], "audetic");
    assert_eq!(value["version"], "0.1.0");
    assert_eq!(value["status"], "running");
    let value = version("0.1.0");
    assert_eq!(value["version"], "0.1.0");
    assert_eq!(value["name"], "audetic");
    assert_eq!(ApiServer::new().address(), "127.0.0.1:3737");
}

#[test]
fn frames_of_the_event_stream() {
    let event = StreamEvent::stamped(18, "partial", None, text_data("text", "x"), 0);
    let frame = event_frame(&event);
    assert_eq!(frame.id.as_deref(), Some("18"));
    assert_eq!(frame.event, "partial");
    assert_eq!(frame.data, event_payload(&event));
    let read: Value = serde_json::from_str(&frame.data).unwrap();
    assert_eq!(read["id"], 18);
    assert_eq!(read["event_type"], "partial");
    assert_eq!(read["job_id"], Value::Null);
    assert_eq!(read["ts_ms"], 0);
    assert_eq!(read["data"]["text"], "x");
    let frame = lagged_frame(120);
    assert_eq!(frame.event, "warning");
    assert_eq!(frame.data, "{\"message\":\"SSE subscriber lagged by 120 events\"}");
}

fn pump_from(recorder_rate_hz: u32, chunk_ms: u32) -> AudioPump {
    let config = AudioPumpConfig {
        sample_rate_hz: 16_000,
        chunk_ms,
        max_chunks: 50,
        silence_timeout_ms: 700,
    };
    AudioPump::new(&config, recorder_rate_hz)
}

fn pump(chunk_ms: u32) -> AudioPump {
    pump_from(16_000, chunk_ms)
}

#[test]
fn pump_brings_samples_to_the_rate_of_the_provider() {
    let mut p = pump_from(48_000, 20);
    let step = p.tick(false, (0..500).collect());
    assert!(step.chunks.is_empty());
    let step = p.tick(false, (500..1000).collect());
    assert_eq!(step.chunks, vec![(0..320).map(|i| 3 * i).collect::<Vec<i16>>()]);
    assert_eq!(p.remainder(), Some((320..334).map(|i| 3 * i).collect()));
}

#[test]
fn rates_are_changed_evenly() {
    let samples: Vec<i16> = (0..441).collect();
    let mut whole = RateConverter::new(44_100, 16_000);
    let converted = whole.convert(&samples);
    assert_eq!(converted.len(), 160);
    assert_eq!(&converted[..5], &[0, 2, 5, 8, 11]);
    assert_eq!(whole.at, 0);
    let mut parts = RateConverter::new(44_100, 16_000);
    let mut joined = Vec::new();
    for part in samples.chunks(7) {
        joined.extend(parts.convert(&part.to_vec()));
    }
    assert_eq!(joined, converted);
    let mut up = RateConverter::new(8_000, 16_000);
    assert_eq!(up.convert(&vec![1, 2]), vec![1, 1, 2, 2]);
    let mut unknown = RateConverter::new(0, 16_000);
    assert_eq!(unknown.convert(&vec![1, 2]), vec![1, 2]);
}

#[test]
fn default_chunks_hold_twenty_milliseconds() {
    let p = pump(20);
    assert_eq!(p.chunk_size, 320);
    assert_eq!(p.grace_rounds, 35);
}

#[test]
fn pump_cuts_whole_chunks_and_keeps_the_rest() {
    let mut p = pump(1);
    assert_eq!(p.chunk_size, 16);
    let samples: Vec<i16> = (0..40).collect();
    let step = p.tick(false, samples);
    assert!(!step.done);
    assert_eq!(step.chunks.len(), 2);
    assert_eq!(step.chunks[0], (0..16).collect::<Vec<i16>>());
    assert_eq!(step.chunks[1], (16..32).collect::<Vec<i16>>());
    let step = p.tick(false, (40..48).collect());
    assert_eq!(step.chunks, vec![(32..48).collect::<Vec<i16>>()]);
    let step = p.tick(true, Vec::new());
    assert!(step.done);
    assert_eq!(p.remainder(), None);
}

#[test]
fn pump_waits_for_the_rest_of_a_chunk() {
    let mut p = pump(1);
    p.tick(true, vec![1, 2, 3]);
    for _ in 0..35 {
        assert!(!p.tick(true, Vec::new()).done);
    }
    assert!(p.tick(true, Vec::new()).done);
    assert_eq!(p.remainder(), Some(vec![1, 2, 3]));
}

#[test]
fn pump_without_chunks_cuts_nothing() {
    let mut p = pump(0);
    let step = p.tick(false, vec![1, 2, 3]);
    assert!(step.chunks.is_empty());
    assert_eq!(p.remainder(), Some(vec![1, 2, 3]));
}

#[test]
fn full_queue_drops_its_oldest_chunk() {
    let mut queue = ChunkQueue::new(2);
    assert!(matches!(queue.take(), Taken::Nothing));
    assert_eq!(queue.offer(vec![1]), SendOutcome::Sent { depth: 1 });
    assert!(queue.has_room());
    assert_eq!(queue.offer(vec![2]), SendOutcome::Sent { depth: 2 });
    assert!(!queue.has_room());
    assert_eq!(queue.offer(vec![3]), SendOutcome::Full { depth: 2 });
    queue.end();
    assert!(matches!(queue.take(), Taken::Chunk(c) if c == vec![2]));
    assert!(matches!(queue.take(), Taken::Chunk(c) if c == vec![3]));
    assert!(matches!(queue.take(), Taken::Ended));
}

#[test]
fn abandoned_queue_takes_no_chunks() {
    let mut queue = ChunkQueue::new(2);
    queue.abandon();
    assert_eq!(queue.offer(vec![1]), SendOutcome::Closed);
    assert!(queue.chunks.is_empty());
}

#[test]
fn queue_is_noted_in_the_hub() {
    let mut hub = StreamHub::new();
    let (event, goes_on) = note_send(&mut hub, "j", SendOutcome::Sent { depth: 3 });
    assert!(event.is_none() && goes_on);
    assert_eq!(hub.snapshot().queue_depth, 3);
    let (event, goes_on) = note_send(&mut hub, "j", SendOutcome::Full { depth: 50 });
    assert!(event.is_none() && goes_on);
    assert_eq!(hub.snapshot().queue_depth, 50);
    assert_eq!(hub.snapshot().dropped_chunks, 1);
    let (event, goes_on) = note_send(&mut hub, "j", SendOutcome::Closed);
    assert!(event.is_none() && !goes_on);
    assert_eq!(hub.snapshot().dropped_chunks, 1);
}

#[test]
fn every_twenty_fifth_dropped_chunk_warns() {
    let mut hub = StreamHub::new();
    let mut warned = Vec::new();
    for dropped in 1..=60 {
        let (event, goes_on) = note_send(&mut hub, "j", SendOutcome::Full { depth: 50 });
        assert!(goes_on);
        if let Some(event) = event {
            assert_eq!(event.event_type, "warning");
            assert_eq!(event.job_id.as_deref(), Some("j"));
            assert_eq!(event.data["message"], "Audio chunk dropped due to full queue");
            warned.push(dropped);
        }
    }
    assert_eq!(warned, vec![25, 50]);
    assert_eq!(hub.snapshot().dropped_chunks, 60);
}

#[test]
fn event_stream_is_kept_alive_every_five_seconds() {
    assert_eq!(KEEP_ALIVE_SECS, 5);
}

#[test]
fn level_is_due_every_thirty_three_milliseconds() {
    assert!(!level_due(32, 10));
    assert!(level_due(33, 10));
    assert!(!level_due(100, 0));
}
