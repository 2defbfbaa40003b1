//! Laws of what the service publishes and answers.
use serde_json::Value;
use vstd::prelude::*;
use vstd::string::*;

use crate::api::{self, ApiServer, SseFrame};
use crate::config;
use crate::json::{self, JsonTree};
use crate::laws::texts;
use crate::streaming::events::{StreamEvent, StreamStatusSnapshot, StreamStatusState};
use crate::streaming::hub::StreamHub;
use crate::text;

verus! {

/// A text member is found where the value is an object that has it, and it is a text.
pub proof fn text_members_are_found(v: &Value, key: &str, r: Option<String>)
    requires
        call_ensures(json::text_at, (v, key), r),
    ensures
        ({
            let t = json::json_tree(*v);
            let found = t is Object && t->Object_0.dom().contains(key@) && t->Object_0[key@] is Text;
            &&& r is Some <==> found
            &&& r matches Some(s) ==> t->Object_0[key@]->Text_0 == s@
        }),
{
}

/// Objects hold the members that they are made of, and no others.
pub proof fn objects_hold_their_members(
    key: &str,
    key2: &str,
    value: Value,
    value2: Value,
    text: &str,
    one: Value,
    texted: Value,
    two: Value,
)
    requires
        call_ensures(json::single_value, (key, value), one),
        call_ensures(json::text_member, (key, text), texted),
        call_ensures(json::pair_value, (key, value, key2, value2), two),
    ensures
        json::json_tree(one) is Object && json::json_tree(texted) is Object
            && json::json_tree(two) is Object,
        forall|k: Seq<char>| #[trigger]
            json::json_tree(one)->Object_0.dom().contains(k) <==> k == key@,
        forall|k: Seq<char>| #[trigger]
            json::json_tree(texted)->Object_0.dom().contains(k) <==> k == key@,
        forall|k: Seq<char>| #[trigger]
            json::json_tree(two)->Object_0.dom().contains(k) <==> k == key@ || k == key2@,
        json::json_tree(one)->Object_0[key@] == json::json_tree(value),
        json::json_tree(texted)->Object_0[key@] == JsonTree::Text(text@),
        json::json_tree(two)->Object_0[key2@] == json::json_tree(value2),
        key@ != key2@ ==> json::json_tree(two)->Object_0[key@] == json::json_tree(value),
{
}

/// The data hold this one text and nothing else.
pub open spec fn only_member(v: Value, name: Seq<char>, text: Seq<char>) -> bool {
    let t = json::json_tree(v);
    &&& t is Object
    &&& forall|k: Seq<char>| #[trigger] t->Object_0.dom().contains(k) <==> k == name
    &&& t->Object_0[name] == JsonTree::Text(text)
}

/// The event has the number that was next, this kind and this job.
pub open spec fn is_next(
    e: StreamEvent,
    before: StreamHub,
    after: StreamHub,
    kind: Seq<char>,
    job: Option<Seq<char>>,
) -> bool {
    &&& e.id == before.next_id
    &&& before.next_id < u64::MAX ==> after.next_id == before.next_id + 1
    &&& before.next_id == u64::MAX ==> after.next_id == 0
    &&& e.event_type@ == kind
    &&& match job {
        Some(j) => e.job_id is Some && e.job_id->0@ == j,
        None => e.job_id is None,
    }
}

/// A count that went up by one, unless it was the greatest.
pub open spec fn counts_up(before: int, after: int, most: int) -> bool {
    after == (if before < most {
        before + 1
    } else {
        before
    })
}

/// Which of the counts of the status may differ.
pub open spec fn same_counts(
    a: StreamStatusState,
    b: StreamStatusState,
    dropped: bool,
    started: bool,
    stopped: bool,
    partials: bool,
    finals: bool,
    errors: bool,
) -> bool {
    let most = u64::MAX as int;
    let step = |changes: bool, x: u64, y: u64|
        if changes {
            counts_up(x as int, y as int, most)
        } else {
            x == y
        };
    &&& step(dropped, a.dropped_chunks, b.dropped_chunks)
    &&& step(started, a.sessions_started, b.sessions_started)
    &&& step(stopped, a.sessions_stopped, b.sessions_stopped)
    &&& step(partials, a.partial_events, b.partial_events)
    &&& step(finals, a.final_events, b.final_events)
    &&& step(errors, a.error_events, b.error_events)
}

/// The same job, activity, queue, clients and error.
pub open spec fn same_rest(a: StreamStatusState, b: StreamStatusState) -> bool {
    &&& a.active == b.active
    &&& config::opt_view(a.job_id) == config::opt_view(b.job_id)
    &&& a.queue_depth == b.queue_depth
    &&& a.connected_clients == b.connected_clients
    &&& config::opt_view(a.last_error) == config::opt_view(b.last_error)
}

/// The status is read field by field.
proof fn lemma_status(s: StreamStatusState)
    ensures
        s@.active == s.active && s@.queue_depth == s.queue_depth,
        s@.job_id == config::opt_view(s.job_id),
        s@.last_error == config::opt_view(s.last_error),
        s@.connected_clients == s.connected_clients && s@.dropped_chunks == s.dropped_chunks,
        s@.sessions_started == s.sessions_started && s@.sessions_stopped == s.sessions_stopped,
        s@.partial_events == s.partial_events && s@.final_events == s.final_events,
        s@.error_events == s.error_events,
{
}

/// The start of a session is published and counted; the stream is then active for that job, and an
/// earlier error is forgotten. Its end is published and counted; the stream is then inactive and no
/// chunk waits.
pub proof fn sessions_are_published(
    a: &mut StreamHub,
    b: &mut StreamHub,
    job: &str,
    started: StreamEvent,
    stopped: StreamEvent,
)
    requires
        call_ensures(StreamHub::session_started, (a, job), started),
        call_ensures(StreamHub::session_stopped, (b, job), stopped),
    ensures
        is_next(started, *old(a), *final(a), "session_started"@, Some(job@)),
        only_member(started.data, "message"@, "Streaming session started"@),
        same_counts(old(a).state, final(a).state, false, true, false, false, false, false),
        final(a).state.active && final(a).state.last_error is None,
        final(a).state.job_id matches Some(j) && j@ == job@,
        final(a).state.queue_depth == old(a).state.queue_depth,
        final(a).state.connected_clients == old(a).state.connected_clients,
        is_next(stopped, *old(b), *final(b), "session_stopped"@, Some(job@)),
        only_member(stopped.data, "message"@, "Streaming session stopped"@),
        same_counts(old(b).state, final(b).state, false, false, true, false, false, false),
        !final(b).state.active && final(b).state.job_id is None && final(b).state.queue_depth == 0,
        final(b).state.connected_clients == old(b).state.connected_clients,
        config::opt_view(final(b).state.last_error) == config::opt_view(old(b).state.last_error),
{
    lemma_status(old(a).state);
    lemma_status(final(a).state);
    lemma_status(old(b).state);
    lemma_status(final(b).state);
}

/// A text is published whole, as a partial or a final one, and counted as such.
pub proof fn texts_are_published(
    a: &mut StreamHub,
    b: &mut StreamHub,
    job: &str,
    text: &str,
    partial: StreamEvent,
    whole: StreamEvent,
)
    requires
        call_ensures(StreamHub::partial_text, (a, job, text), partial),
        call_ensures(StreamHub::final_text, (b, job, text), whole),
    ensures
        is_next(partial, *old(a), *final(a), "partial"@, Some(job@)),
        only_member(partial.data, "text"@, text@),
        same_counts(old(a).state, final(a).state, false, false, false, true, false, false),
        same_rest(old(a).state, final(a).state),
        is_next(whole, *old(b), *final(b), "final"@, Some(job@)),
        only_member(whole.data, "text"@, text@),
        same_counts(old(b).state, final(b).state, false, false, false, false, true, false),
        same_rest(old(b).state, final(b).state),
{
    lemma_status(old(a).state);
    lemma_status(final(a).state);
    lemma_status(old(b).state);
    lemma_status(final(b).state);
}

/// An error is published, counted and remembered; a warning is only published.
pub proof fn errors_are_published(
    a: &mut StreamHub,
    b: &mut StreamHub,
    job: Option<&str>,
    message: &str,
    error: StreamEvent,
    warning: StreamEvent,
)
    requires
        call_ensures(StreamHub::error, (a, job, message), error),
        call_ensures(StreamHub::warning, (b, job, message), warning),
    ensures
        ({
            let named = match job {
                Some(j) => Some(j@),
                None => None,
            };
            &&& is_next(error, *old(a), *final(a), "error"@, named)
            &&& is_next(warning, *old(b), *final(b), "warning"@, named)
        }),
        only_member(error.data, "message"@, message@),
        only_member(warning.data, "message"@, message@),
        same_counts(old(a).state, final(a).state, false, false, false, false, false, true),
        final(a).state.last_error matches Some(e) && e@ == message@,
        final(a).state.active == old(a).state.active,
        config::opt_view(final(a).state.job_id) == config::opt_view(old(a).state.job_id),
        final(a).state.queue_depth == old(a).state.queue_depth,
        final(a).state.connected_clients == old(a).state.connected_clients,
        final(b).state == old(b).state,
{
    lemma_status(old(a).state);
    lemma_status(final(a).state);
}

/// The sound level is published with its two values and whether it clips, and nothing is counted.
pub proof fn levels_are_published(
    a: &mut StreamHub,
    job: Option<&str>,
    rms: Value,
    peak: Value,
    clipping: bool,
    r: StreamEvent,
)
    requires
        call_ensures(StreamHub::audio_level, (a, job, rms, peak, clipping), r),
    ensures
        ({
            let named = match job {
                Some(j) => Some(j@),
                None => None,
            };
            let t = json::json_tree(r.data);
            &&& is_next(r, *old(a), *final(a), "audio_level"@, named)
            &&& final(a).state == old(a).state
            &&& t is Object
            &&& t->Object_0.dom().contains("rms_dbfs"@) && t->Object_0["rms_dbfs"@]
                == json::json_tree(rms)
            &&& t->Object_0.dom().contains("peak_dbfs"@) && t->Object_0["peak_dbfs"@]
                == json::json_tree(peak)
            &&& t->Object_0.dom().contains("clipping"@) && t->Object_0["clipping"@]
                == JsonTree::Bool(clipping)
            &&& forall|k: Seq<char>| #[trigger]
                t->Object_0.dom().contains(k) ==> k == "rms_dbfs"@ || k == "peak_dbfs"@ || k
                    == "clipping"@
        }),
{
    reveal_strlit("rms_dbfs");
    reveal_strlit("peak_dbfs");
    reveal_strlit("clipping");
    assert("rms_dbfs"@.len() == 8 && "peak_dbfs"@.len() == 9 && "clipping"@.len() == 8);
    assert("rms_dbfs"@[0] == 'r' && "clipping"@[0] == 'c');
}

/// Clients are counted as they come and go, and never below none; the depth of the queue and the
/// dropped chunks are noted. None of it publishes an event.
pub proof fn clients_and_chunks_are_counted(
    a: &mut StreamHub,
    b: &mut StreamHub,
    c: &mut StreamHub,
    d: &mut StreamHub,
    depth: usize,
)
    requires
        call_ensures(StreamHub::client_connected, (a,), ()),
        call_ensures(StreamHub::client_disconnected, (b,), ()),
        call_ensures(StreamHub::set_queue_depth, (c, depth), ()),
        call_ensures(StreamHub::increment_dropped_chunks, (d,), ()),
    ensures
        final(a).next_id == old(a).next_id && final(b).next_id == old(b).next_id
            && final(c).next_id == old(c).next_id && final(d).next_id == old(d).next_id,
        counts_up(
            old(a).state.connected_clients as int,
            final(a).state.connected_clients as int,
            usize::MAX as int,
        ),
        old(b).state.connected_clients == 0 ==> final(b).state.connected_clients == 0,
        old(b).state.connected_clients > 0 ==> final(b).state.connected_clients == old(
        b).state.connected_clients - 1,
        final(c).state.queue_depth == depth,
        same_counts(old(a).state, final(a).state, false, false, false, false, false, false),
        same_counts(old(b).state, final(b).state, false, false, false, false, false, false),
        same_counts(old(c).state, final(c).state, false, false, false, false, false, false),
        same_counts(old(d).state, final(d).state, true, false, false, false, false, false),
        same_rest(old(d).state, final(d).state),
        same_rest(
            old(a).state,
            StreamStatusState {
                connected_clients: old(a).state.connected_clients,
                ..final(a).state
            },
        ),
        same_rest(
            old(b).state,
            StreamStatusState {
                connected_clients: old(b).state.connected_clients,
                ..final(b).state
            },
        ),
        same_rest(
            old(c).state,
            StreamStatusState { queue_depth: old(c).state.queue_depth, ..final(c).state },
        ),
{
    lemma_status(old(a).state);
    lemma_status(final(a).state);
    lemma_status(old(b).state);
    lemma_status(final(b).state);
    lemma_status(old(c).state);
    lemma_status(final(c).state);
    lemma_status(old(d).state);
    lemma_status(final(d).state);
}

/// Whatever is published has the next number, and a hub begins with number one and nothing counted.
pub proof fn events_are_numbered(
    a: &mut StreamHub,
    kind: &str,
    job: Option<String>,
    data: Value,
    r: StreamEvent,
    fresh: StreamHub,
)
    requires
        call_ensures(StreamHub::emit, (a, kind, job, data), r),
        call_ensures(StreamHub::new, (), fresh),
    ensures
        is_next(r, *old(a), *final(a), kind@, config::opt_view(job)),
        json::json_tree(r.data) == json::json_tree(data),
        final(a).state == old(a).state,
        fresh.next_id == 1,
        !fresh.state.active && fresh.state.job_id is None && fresh.state.last_error is None,
        fresh.state.queue_depth == 0 && fresh.state.dropped_chunks == 0
            && fresh.state.connected_clients == 0 && fresh.state.sessions_started == 0
            && fresh.state.sessions_stopped == 0 && fresh.state.partial_events == 0
            && fresh.state.final_events == 0 && fresh.state.error_events == 0,
{
    lemma_status(fresh.state);
}

/// The answer about the stream holds the whole status.
pub proof fn status_is_answered(h: &StreamHub, r: StreamStatusSnapshot, direct: StreamStatusSnapshot)
    requires
        call_ensures(api::stream_status, (h,), r),
        call_ensures(StreamHub::snapshot, (h,), direct),
    ensures
        direct == r,
        r.active == h.state.active && r.job_id == h.state.job_id && r.queue_depth
            == h.state.queue_depth && r.dropped_chunks == h.state.dropped_chunks
            && r.connected_clients == h.state.connected_clients && r.sessions_started
            == h.state.sessions_started && r.sessions_stopped == h.state.sessions_stopped
            && r.partial_events == h.state.partial_events && r.final_events
            == h.state.final_events && r.error_events == h.state.error_events && r.last_error
            == h.state.last_error,
{
}

proof fn lemma_event_keys()
    ensures
        "id"@.len() == 2,
        "event_type"@.len() == 10,
        "job_id"@.len() == 6,
        "ts_ms"@.len() == 5,
        "data"@.len() == 4,
{
    reveal_strlit("id");
    reveal_strlit("event_type");
    reveal_strlit("job_id");
    reveal_strlit("ts_ms");
    reveal_strlit("data");
}

/// An event keeps all it is made of, and its JSON holds each part under its name and nothing else.
pub proof fn events_are_written_whole(
    id: u64,
    kind: &str,
    job: Option<String>,
    data: Value,
    ts_ms: i64,
    e: StreamEvent,
    now: StreamEvent,
    v: Value,
)
    requires
        call_ensures(StreamEvent::stamped, (id, kind, job, data, ts_ms), e),
        call_ensures(StreamEvent::new, (id, kind, job, data), now),
        call_ensures(StreamEvent::to_json, (&e,), v),
    ensures
        e.id == id && e.event_type@ == kind@ && e.ts_ms == ts_ms,
        config::opt_view(e.job_id) == config::opt_view(job),
        json::json_tree(e.data) == json::json_tree(data),
        now.id == id && now.event_type@ == kind@,
        config::opt_view(now.job_id) == config::opt_view(job),
        json::json_tree(now.data) == json::json_tree(data),
        ({
            let t = json::json_tree(v);
            &&& t is Object
            &&& t->Object_0["id"@] == JsonTree::Integer(id as int)
            &&& t->Object_0["event_type"@] == JsonTree::Text(kind@)
            &&& t->Object_0["job_id"@] == (match job {
                Some(j) => JsonTree::Text(j@),
                None => JsonTree::Null,
            })
            &&& t->Object_0["ts_ms"@] == JsonTree::Integer(ts_ms as int)
            &&& t->Object_0["data"@] == json::json_tree(data)
            &&& forall|k: Seq<char>| #[trigger]
                t->Object_0.dom().contains(k) <==> k == "id"@ || k == "event_type"@ || k
                    == "job_id"@ || k == "ts_ms"@ || k == "data"@
        }),
{
    lemma_event_keys();
}

/// A frame of the event stream has the number of its event, its kind, and its JSON.
pub proof fn frames_carry_the_events(
    e: &StreamEvent,
    payload: String,
    v: Value,
    frame: SseFrame,
)
    requires
        call_ensures(StreamEvent::to_json, (e,), v),
        call_ensures(api::event_payload, (e,), payload),
        call_ensures(api::event_frame, (e,), frame),
    ensures
        payload@ == json::json_rendered(json::json_tree(v)),
        frame.data@ == payload@,
        frame.event@ == e.event_type@,
        frame.id matches Some(n) && texts::number_of(n@) == e.id && n@.len() > 0,
{
    texts::lemma_decimal(e.id as nat);
}

/// A reader that was too slow is told how many events it has missed.
pub proof fn slow_readers_are_told(skipped: u64, number: String, frame: SseFrame)
    requires
        call_ensures(api::lagged_frame, (skipped,), frame),
        call_ensures(text::decimal, (skipped,), number),
    ensures
        frame.id is None,
        frame.event@ == "warning"@,
        frame.data@ == json::json_rendered(
            JsonTree::Object(
                map![
                    "message"@ => JsonTree::Text("SSE subscriber lagged by "@ + number@ + " events"@),
                ],
            ),
        ),
{
}

/// The service tells its name, its version and that it is running, and listens on the local
/// machine only.
pub proof fn service_is_told(
    number: &str,
    status: Value,
    version: Value,
    server: ApiServer,
    address: String,
)
    requires
        call_ensures(api::status, (number,), status),
        call_ensures(api::version, (number,), version),
        call_ensures(ApiServer::new, (), server),
        call_ensures(ApiServer::address, (&server,), address),
    ensures
        json::json_tree(status) == JsonTree::Object(
            map![
                "service"@ => JsonTree::Text("audetic"@),
                "version"@ => JsonTree::Text(number@),
                "status"@ => JsonTree::Text("running"@),
            ],
        ),
        json::json_tree(version) == JsonTree::Object(
            map!["version"@ => JsonTree::Text(number@), "name"@ => JsonTree::Text("audetic"@)],
        ),
        server.port == 3737,
        address@ == "127.0.0.1:"@ + text::decimal_of(3737),
        api::KEEP_ALIVE_SECS == 5,
{
}

/// The data of a level hold its two values and whether it clips, each under its name.
pub proof fn levels_are_written(rms: Value, peak: Value, clipping: bool, r: Value)
    requires
        call_ensures(crate::streaming::events::audio_level_payload, (rms, peak, clipping), r),
    ensures
        json::json_tree(r) == JsonTree::Object(
            map![
                "rms_dbfs"@ => json::json_tree(rms),
                "peak_dbfs"@ => json::json_tree(peak),
                "clipping"@ => JsonTree::Bool(clipping),
            ],
        ),
{
}

} // verus!
