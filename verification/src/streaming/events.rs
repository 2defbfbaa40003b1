//! The events that the service publishes about streaming.
use serde_json::Value;
use vstd::prelude::*;
use vstd::string::*;

use crate::config;
use crate::json::{self, JsonTree};
use crate::stamp;

verus! {

/// An event, numbered in the order of publication.
#[derive(Debug)]
pub struct StreamEvent {
    pub id: u64,
    pub event_type: String,
    pub job_id: Option<String>,
    pub ts_ms: i64,
    pub data: Value,
}

/// `e` has these contents, whatever its time.
pub open spec fn is_event(
    e: StreamEvent,
    id: u64,
    event_type: Seq<char>,
    job_id: Option<Seq<char>>,
    data: JsonTree,
) -> bool {
    &&& e.id == id
    &&& e.event_type@ == event_type
    &&& config::opt_view(e.job_id) == job_id
    &&& json::json_tree(e.data) == data
}

/// An optional text as JSON.
pub open spec fn opt_tree(s: Option<String>) -> JsonTree {
    match s {
        Some(t) => JsonTree::Text(t@),
        None => JsonTree::Null,
    }
}

/// An event as JSON.
pub open spec fn event_tree(e: StreamEvent) -> JsonTree {
    JsonTree::Object(
        map![
            "id"@ => JsonTree::Integer(e.id as int),
            "event_type"@ => JsonTree::Text(e.event_type@),
            "job_id"@ => opt_tree(e.job_id),
            "ts_ms"@ => JsonTree::Integer(e.ts_ms as int),
            "data"@ => json::json_tree(e.data),
        ],
    )
}

impl StreamEvent {
    /// An event that happens now.
    pub fn new(id: u64, event_type: &str, job_id: Option<String>, data: Value) -> (r: StreamEvent)
        ensures
            is_event(r, id, event_type@, config::opt_view(job_id), json::json_tree(data)),
    {
        Self::stamped(id, event_type, job_id, data, stamp::now_millis())
    }

    /// An event that happened at `ts_ms`.
    pub fn stamped(
        id: u64,
        event_type: &str,
        job_id: Option<String>,
        data: Value,
        ts_ms: i64,
    ) -> (r: StreamEvent)
        ensures
            is_event(r, id, event_type@, config::opt_view(job_id), json::json_tree(data)),
            r.ts_ms == ts_ms,
    {
        StreamEvent { id, event_type: event_type.to_owned(), job_id, ts_ms, data }
    }

    /// The event as JSON.
    pub fn to_json(&self) -> (r: Value)
        ensures
            json::json_tree(r) == event_tree(*self),
    {
        let job = match &self.job_id {
            Some(id) => json::text_value(id.as_str()),
            None => json::null_value(),
        };
        let mut object = json::empty_object();
        json::insert_member(&mut object, "id", json::unsigned_value(self.id));
        json::insert_member(&mut object, "event_type", json::text_value(self.event_type.as_str()));
        json::insert_member(&mut object, "job_id", job);
        json::insert_member(&mut object, "ts_ms", json::signed_value(self.ts_ms));
        json::insert_member(&mut object, "data", json::value_clone(&self.data));
        object
    }
}

/// What is known of the stream, for those who ask.
#[derive(Debug)]
pub struct StreamStatusSnapshot {
    pub active: bool,
    pub job_id: Option<String>,
    pub queue_depth: usize,
    pub dropped_chunks: u64,
    pub connected_clients: usize,
    pub sessions_started: u64,
    pub sessions_stopped: u64,
    pub partial_events: u64,
    pub final_events: u64,
    pub error_events: u64,
    pub last_error: Option<String>,
}

/// What is known of the stream.
#[derive(Debug)]
pub struct StreamStatusState {
    pub active: bool,
    pub job_id: Option<String>,
    pub queue_depth: usize,
    pub dropped_chunks: u64,
    pub connected_clients: usize,
    pub sessions_started: u64,
    pub sessions_stopped: u64,
    pub partial_events: u64,
    pub final_events: u64,
    pub error_events: u64,
    pub last_error: Option<String>,
}

impl Default for StreamStatusState {
    fn default() -> (r: Self)
        ensures
            r == (StreamStatusState {
                active: false,
                job_id: None,
                queue_depth: 0,
                dropped_chunks: 0,
                connected_clients: 0,
                sessions_started: 0,
                sessions_stopped: 0,
                partial_events: 0,
                final_events: 0,
                error_events: 0,
                last_error: None,
            }),
    {
        StreamStatusState {
            active: false,
            job_id: None,
            queue_depth: 0,
            dropped_chunks: 0,
            connected_clients: 0,
            sessions_started: 0,
            sessions_stopped: 0,
            partial_events: 0,
            final_events: 0,
            error_events: 0,
            last_error: None,
        }
    }
}

/// The snapshot of a state.
pub open spec fn snapshot_of(s: StreamStatusState) -> StreamStatusSnapshot {
    StreamStatusSnapshot {
        active: s.active,
        job_id: s.job_id,
        queue_depth: s.queue_depth,
        dropped_chunks: s.dropped_chunks,
        connected_clients: s.connected_clients,
        sessions_started: s.sessions_started,
        sessions_stopped: s.sessions_stopped,
        partial_events: s.partial_events,
        final_events: s.final_events,
        error_events: s.error_events,
        last_error: s.last_error,
    }
}

impl<'a> From<&'a StreamStatusState> for StreamStatusSnapshot {
    fn from(value: &'a StreamStatusState) -> (r: Self) {
        StreamStatusSnapshot {
            active: value.active,
            job_id: value.job_id.clone(),
            queue_depth: value.queue_depth,
            dropped_chunks: value.dropped_chunks,
            connected_clients: value.connected_clients,
            sessions_started: value.sessions_started,
            sessions_stopped: value.sessions_stopped,
            partial_events: value.partial_events,
            final_events: value.final_events,
            error_events: value.error_events,
            last_error: value.last_error.clone(),
        }
    }
}

impl<'a> vstd::std_specs::convert::FromSpecImpl<&'a StreamStatusState> for StreamStatusSnapshot {
    open spec fn obeys_from_spec() -> bool {
        true
    }

    open spec fn from_spec(value: &'a StreamStatusState) -> Self {
        snapshot_of(*value)
    }
}

/// What an event about the sound level holds.
pub open spec fn level_tree(rms_dbfs: JsonTree, peak_dbfs: JsonTree, clipping: bool) -> JsonTree {
    JsonTree::Object(
        map![
            "rms_dbfs"@ => rms_dbfs,
            "peak_dbfs"@ => peak_dbfs,
            "clipping"@ => JsonTree::Bool(clipping),
        ],
    )
}

/// The data of an event about the sound level. The two levels are JSON numbers.
pub fn audio_level_payload(rms_dbfs: Value, peak_dbfs: Value, clipping: bool) -> (r: Value)
    ensures
        json::json_tree(r) == level_tree(
            json::json_tree(rms_dbfs),
            json::json_tree(peak_dbfs),
            clipping,
        ),
{
    let mut object = json::empty_object();
    json::insert_member(&mut object, "rms_dbfs", rms_dbfs);
    json::insert_member(&mut object, "peak_dbfs", peak_dbfs);
    json::insert_member(&mut object, "clipping", json::bool_value(clipping));
    object
}

/// Everything that an event holds can be found in its JSON, each part under its own name.
pub proof fn json_holds_the_event(e: StreamEvent)
    ensures
        json::tree_member(event_tree(e), "id"@) == Some(JsonTree::Integer(e.id as int)),
        json::member_text(event_tree(e), "event_type"@) == Some(e.event_type@),
        json::tree_member(event_tree(e), "job_id"@) == Some(opt_tree(e.job_id)),
        json::tree_member(event_tree(e), "ts_ms"@) == Some(JsonTree::Integer(e.ts_ms as int)),
        json::tree_member(event_tree(e), "data"@) == Some(json::json_tree(e.data)),
{
    reveal_strlit("id");
    reveal_strlit("event_type");
    reveal_strlit("job_id");
    reveal_strlit("ts_ms");
    reveal_strlit("data");
    assert("id"@.len() == 2 && "event_type"@.len() == 10 && "job_id"@.len() == 6 && "ts_ms"@.len()
        == 5 && "data"@.len() == 4);
}

} // verus!
