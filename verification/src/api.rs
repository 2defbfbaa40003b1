//! What the HTTP interface answers.
use serde_json::Value;
use vstd::prelude::*;
use vstd::string::*;

use crate::config;
use crate::json::{self, JsonTree};
use crate::streaming::events::{self, StreamEvent, StreamStatusSnapshot};
use crate::streaming::hub::{self, StreamHub};
use crate::text;

verus! {

/// The port that the service listens on.
pub const PORT: u16 = 3737;

/// How often a silent event stream shows that it is alive.
pub const KEEP_ALIVE_SECS: u64 = 5;

/// The server of the interface.
#[derive(Debug, Clone, Copy)]
pub struct ApiServer {
    pub port: u16,
}

impl ApiServer {
    /// A server on the port of the service.
    pub fn new() -> (r: ApiServer)
        ensures
            r.port == PORT,
    {
        ApiServer { port: PORT }
    }

    /// The address that the server listens on, which cannot be reached from another machine.
    pub fn address(&self) -> (r: String)
        ensures
            r@ == "127.0.0.1:"@ + text::decimal_of(self.port as nat),
    {
        let port = text::decimal(self.port as u64);
        text::join("127.0.0.1:", port.as_str())
    }
}

/// What the service says of itself.
pub open spec fn status_tree(version: Seq<char>) -> JsonTree {
    JsonTree::Object(
        map![
            "service"@ => JsonTree::Text("audetic"@),
            "version"@ => JsonTree::Text(version),
            "status"@ => JsonTree::Text("running"@),
        ],
    )
}

/// What the service says of itself.
pub fn status(version: &str) -> (r: Value)
    ensures
        json::json_tree(r) == status_tree(version@),
{
    let mut object = json::empty_object();
    json::insert_member(&mut object, "service", json::text_value("audetic"));
    json::insert_member(&mut object, "version", json::text_value(version));
    json::insert_member(&mut object, "status", json::text_value("running"));
    object
}

/// The version of the service.
pub fn version(number: &str) -> (r: Value)
    ensures
        json::json_tree(r) == JsonTree::Object(
            map!["version"@ => JsonTree::Text(number@), "name"@ => JsonTree::Text("audetic"@)],
        ),
{
    json::pair_value("version", json::text_value(number), "name", json::text_value("audetic"))
}

/// One event of the event stream.
#[derive(Debug)]
pub struct SseFrame {
    pub id: Option<String>,
    pub event: String,
    pub data: String,
}

/// `f` is a frame without a number whose data hold a message.
pub open spec fn is_message_frame(f: SseFrame, event: Seq<char>, message: Seq<char>) -> bool {
    &&& f.id is None
    &&& f.event@ == event
    &&& f.data@ == json::json_rendered(hub::message_tree(message))
}

/// The payload of an event in the event stream: the event as JSON.
pub fn event_payload(event: &StreamEvent) -> (r: String)
    ensures
        r@ == json::json_rendered(events::event_tree(*event)),
{
    json::render_value(&event.to_json())
}

/// The frame for an event.
pub fn event_frame(event: &StreamEvent) -> (r: SseFrame)
    ensures
        config::opt_view(r.id) == Some(text::decimal_of(event.id as nat)),
        r.event@ == event.event_type@,
        r.data@ == json::json_rendered(events::event_tree(*event)),
{
    SseFrame {
        id: Some(text::decimal(event.id)),
        event: event.event_type.clone(),
        data: event_payload(event),
    }
}

fn message_frame(event: &str, message: &str) -> (r: SseFrame)
    ensures
        is_message_frame(r, event@, message@),
{
    let data = json::text_member("message", message);
    SseFrame { id: None, event: event.to_owned(), data: json::render_value(&data) }
}

/// The frame for a reader of the stream that was too slow for some events.
pub fn lagged_frame(skipped: u64) -> (r: SseFrame)
    ensures
        is_message_frame(
            r,
            "warning"@,
            "SSE subscriber lagged by "@ + text::decimal_of(skipped as nat) + " events"@,
        ),
{
    let count = text::decimal(skipped);
    let message = text::join("SSE subscriber lagged by ", count.as_str());
    let message = text::join(message.as_str(), " events");
    message_frame("warning", message.as_str())
}

/// The status of the stream.
pub fn stream_status(hub: &StreamHub) -> (r: StreamStatusSnapshot)
    ensures
        r == events::snapshot_of(hub.state),
{
    hub.snapshot()
}

} // verus!
