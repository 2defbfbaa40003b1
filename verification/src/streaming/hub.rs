//! The hub: it keeps the status of the stream and makes the events that are published about it.
use serde_json::Value;
use vstd::prelude::*;
use vstd::string::*;

use crate::config;
use crate::json::{self, JsonTree};
use crate::streaming::events::{
    self, audio_level_payload, StreamEvent, StreamStatusSnapshot, StreamStatusState,
};

verus! {

/// The status of the stream, by the characters of its texts.
pub struct StatusView {
    pub active: bool,
    pub job_id: Option<Seq<char>>,
    pub queue_depth: usize,
    pub dropped_chunks: u64,
    pub connected_clients: usize,
    pub sessions_started: u64,
    pub sessions_stopped: u64,
    pub partial_events: u64,
    pub final_events: u64,
    pub error_events: u64,
    pub last_error: Option<Seq<char>>,
}

impl View for StreamStatusState {
    type V = StatusView;

    open spec fn view(&self) -> StatusView {
        StatusView {
            active: self.active,
            job_id: config::opt_view(self.job_id),
            queue_depth: self.queue_depth,
            dropped_chunks: self.dropped_chunks,
            connected_clients: self.connected_clients,
            sessions_started: self.sessions_started,
            sessions_stopped: self.sessions_stopped,
            partial_events: self.partial_events,
            final_events: self.final_events,
            error_events: self.error_events,
            last_error: config::opt_view(self.last_error),
        }
    }
}

/// Numbers the events and keeps the status. `next_id` is the number of the next event.
pub struct StreamHub {
    pub next_id: u64,
    pub state: StreamStatusState,
}

/// The status before anything has happened.
pub open spec fn initial_status() -> StatusView {
    StatusView {
        active: false,
        job_id: None,
        queue_depth: 0,
        dropped_chunks: 0,
        connected_clients: 0,
        sessions_started: 0,
        sessions_stopped: 0,
        partial_events: 0,
        final_events: 0,
        error_events: 0,
        last_error: None,
    }
}

/// A counter, one up; the largest value stays.
pub open spec fn counted(n: u64) -> u64 {
    if n < u64::MAX {
        (n + 1) as u64
    } else {
        n
    }
}

/// A number of clients, one up; the largest number stays.
pub open spec fn one_more(n: usize) -> usize {
    if n < usize::MAX {
        (n + 1) as usize
    } else {
        n
    }
}

/// A number of clients, one down; zero stays.
pub open spec fn one_less(n: usize) -> usize {
    if n > 0 {
        (n - 1) as usize
    } else {
        0
    }
}

/// The status after a session has started for a job.
pub open spec fn status_started(v: StatusView, job_id: Seq<char>) -> StatusView {
    StatusView {
        active: true,
        job_id: Some(job_id),
        sessions_started: counted(v.sessions_started),
        last_error: None,
        ..v
    }
}

/// The status after a session has stopped.
pub open spec fn status_stopped(v: StatusView) -> StatusView {
    StatusView {
        active: false,
        job_id: None,
        queue_depth: 0,
        sessions_stopped: counted(v.sessions_stopped),
        ..v
    }
}

/// The number after `n`; after the largest comes zero.
pub open spec fn following(n: u64) -> u64 {
    if n < u64::MAX {
        (n + 1) as u64
    } else {
        0
    }
}

/// Data with a message.
pub open spec fn message_tree(message: Seq<char>) -> JsonTree {
    JsonTree::Object(map!["message"@ => JsonTree::Text(message)])
}

/// Data with a text.
pub open spec fn text_tree(text: Seq<char>) -> JsonTree {
    JsonTree::Object(map!["text"@ => JsonTree::Text(text)])
}

/// An optional text, by its characters.
pub open spec fn opt_str(s: Option<&str>) -> Option<Seq<char>> {
    match s {
        Some(t) => Some(t@),
        None => None,
    }
}

/// What no operation breaks: the totals never fall.
pub open spec fn totals_kept(pre: StatusView, post: StatusView) -> bool {
    &&& pre.dropped_chunks <= post.dropped_chunks
    &&& pre.sessions_started <= post.sessions_started
    &&& pre.sessions_stopped <= post.sessions_stopped
    &&& pre.partial_events <= post.partial_events
    &&& pre.final_events <= post.final_events
    &&& pre.error_events <= post.error_events
}

fn owned(s: Option<&str>) -> (r: Option<String>)
    ensures
        config::opt_view(r) == opt_str(s),
{
    match s {
        Some(t) => Some(t.to_owned()),
        None => None,
    }
}

impl Default for StreamHub {
    fn default() -> (r: Self)
        ensures
            r.next_id == 1,
            r.state@ == initial_status(),
            r.wf(),
    {
        Self::new()
    }
}

impl StreamHub {
    /// A session is active exactly when its job is known.
    pub open spec fn wf(self) -> bool {
        self.state.active == self.state.job_id is Some
    }

    /// A hub to which nothing has happened; the first event will be number one.
    pub fn new() -> (r: StreamHub)
        ensures
            r.next_id == 1,
            r.state@ == initial_status(),
            r.wf(),
    {
        StreamHub { next_id: 1, state: StreamStatusState::default() }
    }

    /// The status, for those who ask.
    pub fn snapshot(&self) -> (r: StreamStatusSnapshot)
        ensures
            r == events::snapshot_of(self.state),
    {
        StreamStatusSnapshot::from(&self.state)
    }

    /// Counts a client that has connected.
    pub fn client_connected(&mut self)
        ensures
            final(self).next_id == old(self).next_id,
            final(self).state@ == (StatusView {
                connected_clients: one_more(old(self).state.connected_clients),
                ..old(self).state@
            }),
            totals_kept(old(self).state@, final(self).state@),
            old(self).wf() ==> final(self).wf(),
    {
        self.state.connected_clients = self.state.connected_clients.saturating_add(1);
    }

    /// Counts a client that has gone.
    pub fn client_disconnected(&mut self)
        ensures
            final(self).next_id == old(self).next_id,
            final(self).state@ == (StatusView {
                connected_clients: one_less(old(self).state.connected_clients),
                ..old(self).state@
            }),
            totals_kept(old(self).state@, final(self).state@),
            old(self).wf() ==> final(self).wf(),
    {
        self.state.connected_clients = self.state.connected_clients.saturating_sub(1);
    }

    /// Notes how many chunks wait to be sent.
    pub fn set_queue_depth(&mut self, depth: usize)
        ensures
            final(self).next_id == old(self).next_id,
            final(self).state@ == (StatusView { queue_depth: depth, ..old(self).state@ }),
            totals_kept(old(self).state@, final(self).state@),
            old(self).wf() ==> final(self).wf(),
    {
        self.state.queue_depth = depth;
    }

    /// Counts a chunk that could not be queued.
    pub fn increment_dropped_chunks(&mut self)
        ensures
            final(self).next_id == old(self).next_id,
            final(self).state@ == (StatusView {
                dropped_chunks: counted(old(self).state.dropped_chunks),
                ..old(self).state@
            }),
            totals_kept(old(self).state@, final(self).state@),
            old(self).wf() ==> final(self).wf(),
    {
        self.state.dropped_chunks = self.state.dropped_chunks.saturating_add(1);
    }

    /// A session has started for a job; the last error is forgotten.
    pub fn session_started(&mut self, job_id: &str) -> (r: StreamEvent)
        ensures
            final(self).next_id == following(old(self).next_id),
            final(self).state@ == status_started(old(self).state@, job_id@),
            events::is_event(
                r,
                old(self).next_id,
                "session_started"@,
                Some(job_id@),
                message_tree("Streaming session started"@),
            ),
            totals_kept(old(self).state@, final(self).state@),
            final(self).wf(),
    {
        self.state.active = true;
        self.state.job_id = Some(job_id.to_owned());
        self.state.sessions_started = self.state.sessions_started.saturating_add(1);
        self.state.last_error = None;
        self.emit(
            "session_started",
            Some(job_id.to_owned()),
            json::text_member("message", "Streaming session started"),
        )
    }

    /// The session of a job has stopped.
    pub fn session_stopped(&mut self, job_id: &str) -> (r: StreamEvent)
        ensures
            final(self).next_id == following(old(self).next_id),
            final(self).state@ == status_stopped(old(self).state@),
            events::is_event(
                r,
                old(self).next_id,
                "session_stopped"@,
                Some(job_id@),
                message_tree("Streaming session stopped"@),
            ),
            totals_kept(old(self).state@, final(self).state@),
            final(self).wf(),
    {
        self.state.active = false;
        self.state.job_id = None;
        self.state.queue_depth = 0;
        self.state.sessions_stopped = self.state.sessions_stopped.saturating_add(1);
        self.emit(
            "session_stopped",
            Some(job_id.to_owned()),
            json::text_member("message", "Streaming session stopped"),
        )
    }

    /// The transcript so far.
    pub fn partial_text(&mut self, job_id: &str, text: &str) -> (r: StreamEvent)
        ensures
            final(self).next_id == following(old(self).next_id),
            final(self).state@ == (StatusView {
                partial_events: counted(old(self).state.partial_events),
                ..old(self).state@
            }),
            events::is_event(r, old(self).next_id, "partial"@, Some(job_id@), text_tree(text@)),
            totals_kept(old(self).state@, final(self).state@),
            old(self).wf() ==> final(self).wf(),
    {
        self.state.partial_events = self.state.partial_events.saturating_add(1);
        self.emit("partial", Some(job_id.to_owned()), json::text_member("text", text))
    }

    /// The complete transcript.
    pub fn final_text(&mut self, job_id: &str, text: &str) -> (r: StreamEvent)
        ensures
            final(self).next_id == following(old(self).next_id),
            final(self).state@ == (StatusView {
                final_events: counted(old(self).state.final_events),
                ..old(self).state@
            }),
            events::is_event(r, old(self).next_id, "final"@, Some(job_id@), text_tree(text@)),
            totals_kept(old(self).state@, final(self).state@),
            old(self).wf() ==> final(self).wf(),
    {
        self.state.final_events = self.state.final_events.saturating_add(1);
        self.emit("final", Some(job_id.to_owned()), json::text_member("text", text))
    }

    /// The sound level. The two levels are JSON numbers.
    pub fn audio_level(
        &mut self,
        job_id: Option<&str>,
        rms_dbfs: Value,
        peak_dbfs: Value,
        clipping: bool,
    ) -> (r: StreamEvent)
        ensures
            final(self).next_id == following(old(self).next_id),
            final(self).state == old(self).state,
            events::is_event(
                r,
                old(self).next_id,
                "audio_level"@,
                opt_str(job_id),
                events::level_tree(
                    json::json_tree(rms_dbfs),
                    json::json_tree(peak_dbfs),
                    clipping,
                ),
            ),
    {
        self.emit(
            "audio_level",
            owned(job_id),
            audio_level_payload(rms_dbfs, peak_dbfs, clipping),
        )
    }

    /// Something has failed.
    pub fn error(&mut self, job_id: Option<&str>, message: &str) -> (r: StreamEvent)
        ensures
            final(self).next_id == following(old(self).next_id),
            final(self).state@ == (StatusView {
                error_events: counted(old(self).state.error_events),
                last_error: Some(message@),
                ..old(self).state@
            }),
            events::is_event(
                r,
                old(self).next_id,
                "error"@,
                opt_str(job_id),
                message_tree(message@),
            ),
            totals_kept(old(self).state@, final(self).state@),
            old(self).wf() ==> final(self).wf(),
    {
        self.state.error_events = self.state.error_events.saturating_add(1);
        self.state.last_error = Some(message.to_owned());
        self.emit("error", owned(job_id), json::text_member("message", message))
    }

    /// Something is worth knowing.
    pub fn warning(&mut self, job_id: Option<&str>, message: &str) -> (r: StreamEvent)
        ensures
            final(self).next_id == following(old(self).next_id),
            final(self).state == old(self).state,
            events::is_event(
                r,
                old(self).next_id,
                "warning"@,
                opt_str(job_id),
                message_tree(message@),
            ),
    {
        self.emit("warning", owned(job_id), json::text_member("message", message))
    }

    /// Makes the next event.
    pub fn emit(&mut self, event_type: &str, job_id: Option<String>, data: Value) -> (r:
        StreamEvent)
        ensures
            final(self).next_id == following(old(self).next_id),
            final(self).state == old(self).state,
            events::is_event(
                r,
                old(self).next_id,
                event_type@,
                config::opt_view(job_id),
                json::json_tree(data),
            ),
    {
        let id: u64 = self.next_id;
        self.next_id = self.next_id.wrapping_add(1);
        StreamEvent::new(id, event_type, job_id, data)
    }
}

/// The `n`-th number after `id`.
pub open spec fn number_after(id: u64, n: nat) -> u64
    decreases n,
{
    if n == 0 {
        id
    } else {
        following(number_after(id, (n - 1) as nat))
    }
}

/// Events are numbered upwards without gaps: the event that comes `n` events after number `id`
/// has the number `id + n`, as long as the numbers last.
pub proof fn numbers_are_consecutive(id: u64, n: nat)
    requires
        id + n <= u64::MAX,
    ensures
        number_after(id, n) == id + n,
    decreases n,
{
    if n > 0 {
        numbers_are_consecutive(id, (n - 1) as nat);
    }
}

/// A client that connects and goes leaves the number of clients as it was, as long as it can be
/// counted.
pub proof fn clients_come_and_go(n: usize)
    requires
        n < usize::MAX,
    ensures
        one_less(one_more(n)) == n,
{
}

/// A session that has started and stopped is counted once as started and once as stopped, and
/// leaves the stream inactive; what else was counted stays.
pub proof fn session_is_counted(v: StatusView, job_id: Seq<char>)
    requires
        v.sessions_started < u64::MAX,
        v.sessions_stopped < u64::MAX,
    ensures
        status_started(v, job_id).active,
        status_stopped(status_started(v, job_id)) == (StatusView {
            active: false,
            job_id: None,
            queue_depth: 0,
            sessions_started: (v.sessions_started + 1) as u64,
            sessions_stopped: (v.sessions_stopped + 1) as u64,
            last_error: None,
            ..v
        }),
{
}

} // verus!
