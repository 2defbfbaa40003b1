//! What the overlay shows: it follows the events of the stream and the answers to its requests.
use std::collections::VecDeque;

use serde_json::Value;
use vstd::prelude::*;
use vstd::string::*;

use crate::config;
use crate::json::{self, JsonTree};
use crate::overlay::modes::{self, EngineMode, OutputMode};
use crate::streaming::events::{self, StreamEvent};
use crate::streaming::hub;
use crate::text;

verus! {

/// How many meter levels are kept.
pub const WAVE_HISTORY_CAP: usize = 260;

/// How many final texts are kept.
pub const RECENT_FINALS_CAP: usize = 6;

/// What the overlay shows. The meter levels are kept by their bits.
#[derive(Debug, Clone)]
pub struct OverlayState {
    pub connected: bool,
    pub phase: String,
    pub status_line: String,
    pub partial_text: String,
    pub recent_finals: VecDeque<String>,
    pub meter_level: u32,
    pub meter_history: VecDeque<u32>,
    pub clipping: bool,
    pub last_error: Option<String>,
}

/// What the overlay shows, by the characters of its texts.
#[verifier::ext_equal]
pub struct OverlayView {
    pub connected: bool,
    pub phase: Seq<char>,
    pub status_line: Seq<char>,
    pub partial_text: Seq<char>,
    pub recent_finals: Seq<Seq<char>>,
    pub meter_level: u32,
    pub meter_history: Seq<u32>,
    pub clipping: bool,
    pub last_error: Option<Seq<char>>,
}

impl View for OverlayState {
    type V = OverlayView;

    open spec fn view(&self) -> OverlayView {
        OverlayView {
            connected: self.connected,
            phase: self.phase@,
            status_line: self.status_line@,
            partial_text: self.partial_text@,
            recent_finals: text::views(self.recent_finals@),
            meter_level: self.meter_level,
            meter_history: self.meter_history@,
            clipping: self.clipping,
            last_error: config::opt_view(self.last_error),
        }
    }
}

/// The meter level that follows, and the same level within its bounds, both by their bits.
#[derive(Debug, Clone, Copy)]
pub struct MeterStep {
    pub level: u32,
    pub bounded: u32,
}

/// The last `cap` elements.
pub open spec fn last_of<T>(s: Seq<T>, cap: nat) -> Seq<T> {
    if s.len() > cap {
        s.skip(s.len() - cap)
    } else {
        s
    }
}

/// Drops elements from the front until no more than `cap` are left.
fn keep_last<T>(q: &mut VecDeque<T>, cap: usize)
    ensures
        final(q)@ == last_of(old(q)@, cap as nat),
{
    let ghost all = q@;
    while q.len() > cap
        invariant
            cap < all.len() ==> cap <= q@.len() <= all.len() && q@ == all.skip(
                all.len() - q@.len(),
            ),
            cap >= all.len() ==> q@ == all,
        decreases q@.len(),
    {
        let _ = q.pop_front();
        assert(q@ =~= all.skip(all.len() - q@.len()));
    }
}

/// The overlay before the first connection.
pub open spec fn initial_view() -> OverlayView {
    OverlayView {
        connected: false,
        phase: "idle"@,
        status_line: "Waiting for stream"@,
        partial_text: Seq::empty(),
        recent_finals: Seq::empty(),
        meter_level: 0,
        meter_history: Seq::empty(),
        clipping: false,
        last_error: None,
    }
}

impl Default for OverlayState {
    fn default() -> (r: Self)
        ensures
            r@ == initial_view(),
            r.wf(),
    {
        let r = OverlayState {
            connected: false,
            phase: "idle".to_owned(),
            status_line: "Waiting for stream".to_owned(),
            partial_text: String::new(),
            recent_finals: VecDeque::new(),
            meter_level: 0,
            meter_history: VecDeque::new(),
            clipping: false,
            last_error: None,
        };
        assert(r@.recent_finals =~= Seq::empty());
        r
    }
}

/// A session has begun or ended: nothing is heard yet, or any more.
pub open spec fn silent(v: OverlayView, phase: Seq<char>, status_line: Seq<char>) -> OverlayView {
    OverlayView {
        phase,
        status_line,
        partial_text: Seq::empty(),
        meter_level: 0,
        meter_history: Seq::empty(),
        clipping: false,
        ..v
    }
}

/// The final texts with one more. A blank text is not kept.
pub open spec fn finals_with(finals: Seq<Seq<char>>, line: Seq<char>) -> Seq<Seq<char>> {
    if text::trimmed(line).len() == 0 {
        finals
    } else {
        last_of(finals.push(line), RECENT_FINALS_CAP as nat)
    }
}

/// The member under `key` is true.
pub open spec fn member_set(t: JsonTree, key: Seq<char>) -> bool {
    json::tree_member(t, key) == Some(JsonTree::Bool(true))
}

/// What the overlay shows after an event. `step` is the meter level that follows if the event
/// tells a sound level.
pub open spec fn after_event(
    view: OverlayView,
    event_type: Seq<char>,
    data: JsonTree,
    step: MeterStep,
) -> OverlayView {
    let v = OverlayView { connected: true, last_error: None, ..view };
    if event_type == "session_started"@ {
        silent(v, "recording"@, "Listening"@)
    } else if event_type == "session_stopped"@ {
        silent(v, "idle"@, "Stopped"@)
    } else if event_type == "partial"@ {
        match json::member_text(data, "text"@) {
            Some(t) => OverlayView {
                phase: "recording"@,
                status_line: "Transcribing"@,
                partial_text: t,
                ..v
            },
            None => v,
        }
    } else if event_type == "final"@ {
        match json::member_text(data, "text"@) {
            Some(t) => OverlayView {
                phase: "processing"@,
                status_line: "Final segment"@,
                recent_finals: finals_with(v.recent_finals, t),
                partial_text: Seq::empty(),
                ..v
            },
            None => v,
        }
    } else if event_type == "audio_level"@ {
        OverlayView {
            meter_level: step.level,
            meter_history: last_of(
                v.meter_history.push(step.bounded),
                WAVE_HISTORY_CAP as nat,
            ),
            clipping: member_set(data, "clipping"@),
            ..v
        }
    } else if event_type == "error"@ {
        OverlayView {
            phase: "error"@,
            status_line: "Stream error"@,
            last_error: json::member_text(data, "message"@),
            ..v
        }
    } else if event_type == "warning"@ {
        match json::member_text(data, "message"@) {
            Some(m) => OverlayView { status_line: m, ..v },
            None => v,
        }
    } else {
        v
    }
}

/// What the overlay shows after a payload that is no event of the stream: its message, if it has
/// one.
pub open spec fn after_fallback(
    v: OverlayView,
    event_name: Seq<char>,
    tree: Option<JsonTree>,
) -> OverlayView {
    let message = match tree {
        Some(t) => json::member_text(t, "message"@),
        None => None,
    };
    match message {
        Some(m) => {
            let w = OverlayView { connected: true, status_line: m, ..v };
            if event_name == "error"@ {
                OverlayView { phase: "error"@, last_error: Some(m), ..w }
            } else {
                w
            }
        },
        None => v,
    }
}

/// Something failed: an error is shown, under the given status line.
pub open spec fn failed(v: OverlayView, status_line: Seq<char>, error: Seq<char>) -> OverlayView {
    OverlayView { phase: "error"@, status_line, last_error: Some(error), ..v }
}

/// The line shown while no request gets through.
pub open spec fn request_failed() -> Seq<char> {
    "Control request failed"@
}

/// What the overlay shows after the service has done what was asked: the phase and the message
/// of its answer, as far as they are there.
pub open spec fn after_reply(v: OverlayView, tree: Option<JsonTree>) -> OverlayView {
    let phase = match tree {
        Some(t) => json::member_text(t, "phase"@),
        None => None,
    };
    let message = match tree {
        Some(t) => json::member_text(t, "message"@),
        None => None,
    };
    OverlayView {
        phase: match phase {
            Some(p) => p,
            None => v.phase,
        },
        status_line: match message {
            Some(m) => m,
            None => "Updated"@,
        },
        last_error: None,
        ..v
    }
}

/// What the overlay shows after an answer of the service.
pub open spec fn after_answer(
    v: OverlayView,
    success: bool,
    status: Seq<char>,
    body: Seq<char>,
) -> OverlayView {
    if success {
        after_reply(v, json::json_parsed(body))
    } else {
        failed(v, request_failed(), "HTTP "@ + status + " "@ + body)
    }
}

impl OverlayState {
    /// No more is kept than the overlay shows.
    pub open spec fn wf(self) -> bool {
        &&& self.recent_finals@.len() <= RECENT_FINALS_CAP
        &&& self.meter_history@.len() <= WAVE_HISTORY_CAP
    }

    /// Nothing is heard: the partial text and the meter are cleared.
    fn hush(&mut self)
        ensures
            final(self)@ == silent(old(self)@, old(self)@.phase, old(self)@.status_line),
            final(self).recent_finals == old(self).recent_finals,
    {
        self.partial_text = String::new();
        self.meter_level = 0;
        self.meter_history.clear();
        self.clipping = false;
        assert(self.partial_text@ =~= Seq::empty());
    }

    /// Keeps a final text, unless it is blank. Only the latest are kept.
    pub fn push_final_line(&mut self, line: String)
        ensures
            final(self)@ == (OverlayView {
                recent_finals: finals_with(old(self)@.recent_finals, line@),
                ..old(self)@
            }),
            old(self).wf() ==> final(self).wf(),
    {
        if text::is_blank(line.as_str()) {
            return ;
        }
        let ghost pushed = self.recent_finals@.push(line);
        self.recent_finals.push_back(line);
        keep_last(&mut self.recent_finals, RECENT_FINALS_CAP);
        assert(text::views(pushed) =~= old(self)@.recent_finals.push(line@));
        assert(text::views(last_of(pushed, RECENT_FINALS_CAP as nat)) =~= last_of(
            text::views(pushed),
            RECENT_FINALS_CAP as nat,
        ));
    }

    /// Follows an event of the stream. `step` is the meter level that follows if the event tells a
    /// sound level.
    pub fn apply_stream_event(&mut self, event: &StreamEvent, step: MeterStep)
        ensures
            final(self)@ == after_event(
                old(self)@,
                event.event_type@,
                json::json_tree(event.data),
                step,
            ),
            old(self).wf() ==> final(self).wf(),
    {
        self.connected = true;
        self.last_error = None;
        let kind = event.event_type.as_str();
        if text::same(kind, "session_started") {
            self.phase = "recording".to_owned();
            self.status_line = "Listening".to_owned();
            self.hush();
        } else if text::same(kind, "session_stopped") {
            self.phase = "idle".to_owned();
            self.status_line = "Stopped".to_owned();
            self.hush();
        } else if text::same(kind, "partial") {
            if let Some(t) = json::text_at(&event.data, "text") {
                self.phase = "recording".to_owned();
                self.status_line = "Transcribing".to_owned();
                self.partial_text = t;
            }
        } else if text::same(kind, "final") {
            if let Some(t) = json::text_at(&event.data, "text") {
                self.phase = "processing".to_owned();
                self.status_line = "Final segment".to_owned();
                self.push_final_line(t);
                self.partial_text = String::new();
                assert(self.partial_text@ =~= Seq::empty());
            }
        } else if text::same(kind, "audio_level") {
            self.meter_level = step.level;
            self.meter_history.push_back(step.bounded);
            keep_last(&mut self.meter_history, WAVE_HISTORY_CAP);
            self.clipping = match json::value_member(&event.data, "clipping") {
                Some(m) => match json::value_bool(m) {
                    Some(b) => b,
                    None => false,
                },
                None => false,
            };
        } else if text::same(kind, "error") {
            self.phase = "error".to_owned();
            self.status_line = "Stream error".to_owned();
            self.last_error = json::text_at(&event.data, "message");
        } else if text::same(kind, "warning") {
            if let Some(m) = json::text_at(&event.data, "message") {
                self.status_line = m;
            }
        }
    }

    /// Shows the message of a JSON value that is no event of the stream.
    pub fn apply_fallback_value(&mut self, event_name: &str, value: Option<&Value>)
        ensures
            final(self)@ == after_fallback(old(self)@, event_name@, opt_json(value)),
            old(self).wf() ==> final(self).wf(),
    {
        if let Some(v) = value {
            if let Some(message) = json::text_at(v, "message") {
                self.connected = true;
                self.status_line = message.clone();
                if text::same(event_name, "error") {
                    self.phase = "error".to_owned();
                    self.last_error = Some(message);
                }
            }
        }
    }

    /// Shows the message of a payload that is no event of the stream.
    pub fn apply_fallback_event(&mut self, event_name: &str, payload: &str)
        ensures
            final(self)@ == after_fallback(old(self)@, event_name@, json::json_parsed(payload@)),
            old(self).wf() ==> final(self).wf(),
    {
        match json::parse_value(payload) {
            Some(v) => self.apply_fallback_value(event_name, Some(&v)),
            None => self.apply_fallback_value(event_name, None),
        }
    }

    /// Follows what came from the stream: `event` is the event that the payload was read as, if it
    /// is one. A blank payload says nothing.
    pub fn handle_dispatch(
        &mut self,
        event_name: &str,
        payload: &str,
        event: Option<&StreamEvent>,
        step: MeterStep,
    )
        ensures
            final(self)@ == (if text::trimmed(payload@).len() == 0 {
                old(self)@
            } else {
                match event {
                    Some(e) => after_event(
                        old(self)@,
                        e.event_type@,
                        json::json_tree(e.data),
                        step,
                    ),
                    None => after_fallback(
                        old(self)@,
                        event_name@,
                        json::json_parsed(payload@),
                    ),
                }
            }),
            old(self).wf() ==> final(self).wf(),
    {
        if text::is_blank(payload) {
            return ;
        }
        match event {
            Some(e) => self.apply_stream_event(e, step),
            None => self.apply_fallback_event(event_name, payload),
        }
    }

    /// A request could not be made for want of a client.
    pub fn request_not_made(&mut self, error: &str)
        ensures
            final(self)@ == failed(old(self)@, request_failed(), "HTTP client error: "@ + error@),
            old(self).wf() ==> final(self).wf(),
    {
        self.phase = "error".to_owned();
        self.last_error = Some(text::join("HTTP client error: ", error));
        self.status_line = "Control request failed".to_owned();
    }

    /// A request got no answer.
    pub fn request_not_answered(&mut self, error: &str)
        ensures
            final(self)@ == failed(
                old(self)@,
                request_failed(),
                "Control request failed: "@ + error@,
            ),
            old(self).wf() ==> final(self).wf(),
    {
        self.phase = "error".to_owned();
        self.last_error = Some(text::join("Control request failed: ", error));
        self.status_line = "Control request failed".to_owned();
    }

    /// The service has done what was asked and answered with a JSON value, or with something else.
    pub fn request_done(&mut self, value: Option<&Value>)
        ensures
            final(self)@ == after_reply(old(self)@, opt_json(value)),
            old(self).wf() ==> final(self).wf(),
    {
        self.status_line = "Updated".to_owned();
        if let Some(v) = value {
            if let Some(phase) = json::text_at(v, "phase") {
                self.phase = phase;
            }
            if let Some(message) = json::text_at(v, "message") {
                self.status_line = message;
            }
        }
        self.last_error = None;
    }

    /// The service has answered a request, with the given status and text.
    pub fn request_answered(&mut self, success: bool, status: &str, body: &str)
        ensures
            final(self)@ == after_answer(old(self)@, success, status@, body@),
            old(self).wf() ==> final(self).wf(),
    {
        if success {
            match json::parse_value(body) {
                Some(v) => self.request_done(Some(&v)),
                None => self.request_done(None),
            }
        } else {
            let head = text::join("HTTP ", status);
            let head = text::join(head.as_str(), " ");
            self.phase = "error".to_owned();
            self.status_line = "Control request failed".to_owned();
            self.last_error = Some(text::join(head.as_str(), body));
        }
    }

    /// Another final action was chosen, and kept or not.
    pub fn final_action_set(&mut self, mode: OutputMode, failure: Option<String>)
        ensures
            final(self)@ == (OverlayView {
                status_line: match failure {
                    None => "Final action set: "@ + modes::output_label(mode),
                    Some(_) => "Final action set: "@ + modes::output_label(mode)
                        + " (save failed)"@,
                },
                last_error: config::opt_view(failure),
                ..old(self)@
            }),
            old(self).wf() ==> final(self).wf(),
    {
        let line = text::join("Final action set: ", mode.label());
        self.status_line = if failure.is_some() {
            text::join(line.as_str(), " (save failed)")
        } else {
            line
        };
        self.last_error = failure;
    }

    /// The settings were kept, or not.
    fn settings_outcome(&mut self, line: String, failure: Option<String>)
        ensures
            final(self)@ == after_saving(old(self)@, line@, config::opt_view(failure)),
            old(self).wf() ==> final(self).wf(),
    {
        match failure {
            None => {
                self.last_error = None;
                self.status_line = line;
            },
            Some(error) => {
                self.phase = "error".to_owned();
                self.last_error = Some(error.clone());
                self.status_line = error;
            },
        }
    }

    /// Another engine was chosen, and kept or not.
    pub fn engine_mode_set(&mut self, mode: EngineMode, failure: Option<String>)
        ensures
            final(self)@ == after_saving(
                old(self)@,
                "Engine set to "@ + modes::engine_label(mode)
                    + ". Restart Audetic service to apply."@,
                config::opt_view(failure),
            ),
            old(self).wf() ==> final(self).wf(),
    {
        let line = text::join("Engine set to ", mode.label());
        let line = text::join(line.as_str(), ". Restart Audetic service to apply.");
        self.settings_outcome(line, failure);
    }

    /// The settings were kept, or not.
    pub fn settings_saved(&mut self, failure: Option<String>)
        ensures
            final(self)@ == after_saving(
                old(self)@,
                "Settings saved (restart service to apply behaviour changes)."@,
                config::opt_view(failure),
            ),
            old(self).wf() ==> final(self).wf(),
    {
        self.settings_outcome(
            "Settings saved (restart service to apply behaviour changes).".to_owned(),
            failure,
        );
    }
}

/// What the overlay shows after an attempt to keep the settings: the line given, or the failure.
pub open spec fn after_saving(
    v: OverlayView,
    line: Seq<char>,
    failure: Option<Seq<char>>,
) -> OverlayView {
    match failure {
        None => OverlayView { status_line: line, last_error: None, ..v },
        Some(error) => failed(v, error, error),
    }
}

/// What the overlay shows after the given event.
pub open spec fn after_stream_event(v: OverlayView, e: StreamEvent, step: MeterStep) -> OverlayView {
    after_event(v, e.event_type@, json::json_tree(e.data), step)
}

/// The kinds of events are told apart.
proof fn kinds_differ()
    ensures
        "partial"@ != "session_started"@ && "partial"@ != "session_stopped"@,
        "final"@ != "session_started"@ && "final"@ != "session_stopped"@ && "final"@
            != "partial"@,
        "audio_level"@ != "session_started"@ && "audio_level"@ != "session_stopped"@
            && "audio_level"@ != "partial"@ && "audio_level"@ != "final"@,
        "error"@ != "session_started"@ && "error"@ != "session_stopped"@ && "error"@ != "partial"@
            && "error"@ != "final"@ && "error"@ != "audio_level"@,
        "warning"@ != "session_started"@ && "warning"@ != "session_stopped"@ && "warning"@
            != "partial"@ && "warning"@ != "final"@ && "warning"@ != "audio_level"@ && "warning"@
            != "error"@,
        "session_stopped"@ != "session_started"@,
{
    reveal_strlit("session_started");
    reveal_strlit("session_stopped");
    reveal_strlit("partial");
    reveal_strlit("final");
    reveal_strlit("audio_level");
    reveal_strlit("error");
    reveal_strlit("warning");
    assert("session_started"@[0] == 's');
    assert("session_stopped"@[0] == 's');
    assert("session_started"@[10] == 'a');
    assert("session_stopped"@[10] == 'o');
    assert("partial"@[0] == 'p');
    assert("final"@[0] == 'f');
    assert("audio_level"@[0] == 'a');
    assert("error"@[0] == 'e');
    assert("warning"@[0] == 'w');
}

/// The overlay shows the transcript so far as the hub published it.
pub proof fn partial_text_is_shown(
    v: OverlayView,
    e: StreamEvent,
    id: u64,
    job_id: Option<Seq<char>>,
    text: Seq<char>,
    step: MeterStep,
)
    requires
        events::is_event(e, id, "partial"@, job_id, hub::text_tree(text)),
    ensures
        after_stream_event(v, e, step).partial_text == text,
        after_stream_event(v, e, step).phase == "recording"@,
        after_stream_event(v, e, step).connected,
        after_stream_event(v, e, step).recent_finals == v.recent_finals,
{
    kinds_differ();
    assert(hub::text_tree(text)->Object_0.dom().contains("text"@));
}

/// The overlay keeps the complete transcript as the hub published it, unless it is blank, as its
/// latest one, and the partial text is gone.
pub proof fn final_text_is_kept(
    v: OverlayView,
    e: StreamEvent,
    id: u64,
    job_id: Option<Seq<char>>,
    text: Seq<char>,
    step: MeterStep,
)
    requires
        events::is_event(e, id, "final"@, job_id, hub::text_tree(text)),
    ensures
        text::trimmed(text).len() > 0 ==> after_stream_event(v, e, step).recent_finals.len() > 0
            && after_stream_event(v, e, step).recent_finals.last() == text,
        text::trimmed(text).len() == 0 ==> after_stream_event(v, e, step).recent_finals
            == v.recent_finals,
        after_stream_event(v, e, step).partial_text.len() == 0,
        after_stream_event(v, e, step).phase == "processing"@,
{
    kinds_differ();
    assert(hub::text_tree(text)->Object_0.dom().contains("text"@));
}

/// The overlay shows the error that the hub published.
pub proof fn error_is_shown(
    v: OverlayView,
    e: StreamEvent,
    id: u64,
    job_id: Option<Seq<char>>,
    message: Seq<char>,
    step: MeterStep,
)
    requires
        events::is_event(e, id, "error"@, job_id, hub::message_tree(message)),
    ensures
        after_stream_event(v, e, step).last_error == Some(message),
        after_stream_event(v, e, step).phase == "error"@,
{
    kinds_differ();
    assert(hub::message_tree(message)->Object_0.dom().contains("message"@));
}

/// The overlay shows the warning that the hub published, and stays in its phase.
pub proof fn warning_is_shown(
    v: OverlayView,
    e: StreamEvent,
    id: u64,
    job_id: Option<Seq<char>>,
    message: Seq<char>,
    step: MeterStep,
)
    requires
        events::is_event(e, id, "warning"@, job_id, hub::message_tree(message)),
    ensures
        after_stream_event(v, e, step).status_line == message,
        after_stream_event(v, e, step).phase == v.phase,
{
    kinds_differ();
    assert(hub::message_tree(message)->Object_0.dom().contains("message"@));
}

/// The overlay shows the sound level that the hub published, and whether it clips.
pub proof fn level_is_shown(
    v: OverlayView,
    e: StreamEvent,
    id: u64,
    job_id: Option<Seq<char>>,
    rms_dbfs: JsonTree,
    peak_dbfs: JsonTree,
    clipping: bool,
    step: MeterStep,
)
    requires
        events::is_event(
            e,
            id,
            "audio_level"@,
            job_id,
            events::level_tree(rms_dbfs, peak_dbfs, clipping),
        ),
    ensures
        after_stream_event(v, e, step).clipping == clipping,
        after_stream_event(v, e, step).meter_level == step.level,
        after_stream_event(v, e, step).meter_history.last() == step.bounded,
        after_stream_event(v, e, step).phase == v.phase,
        after_stream_event(v, e, step).partial_text == v.partial_text,
{
    kinds_differ();
    assert(events::level_tree(rms_dbfs, peak_dbfs, clipping)->Object_0.dom().contains(
        "clipping"@,
    ));
}

/// The overlay shows that something is recorded when a session has started, and that nothing is
/// when it has stopped; neither says anything of a text.
pub proof fn session_is_shown(
    v: OverlayView,
    started: StreamEvent,
    stopped: StreamEvent,
    step: MeterStep,
)
    requires
        started.event_type@ == "session_started"@,
        stopped.event_type@ == "session_stopped"@,
    ensures
        after_stream_event(v, started, step).phase == "recording"@,
        after_stream_event(v, started, step).partial_text.len() == 0,
        after_stream_event(v, stopped, step).phase == "idle"@,
        after_stream_event(v, stopped, step).partial_text.len() == 0,
        after_stream_event(v, stopped, step).recent_finals == v.recent_finals,
{
    kinds_differ();
}

/// What an optional JSON value holds.
pub open spec fn opt_json(v: Option<&Value>) -> Option<JsonTree> {
    match v {
        Some(j) => Some(json::json_tree(*j)),
        None => None,
    }
}

} // verus!
