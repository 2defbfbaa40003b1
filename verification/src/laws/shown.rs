//! Laws of what the overlay shows.
use serde_json::Value;
use vstd::prelude::*;
use vstd::string::*;

use crate::config;
use crate::json::{self, JsonTree};
use crate::laws::texts;
use crate::overlay::feed::{self, FeedAction, FeedEvent, SseReader};
use crate::overlay::modes::{EngineMode, OutputMode};
use crate::overlay::state::{MeterStep, OverlayState};
use crate::streaming::events::StreamEvent;
use crate::text;

verus! {

/// The member of this name is this text; or there is none that is a text.
pub open spec fn is_member(data: JsonTree, name: Seq<char>, text: Option<Seq<char>>) -> bool {
    let found = data is Object && data->Object_0.dom().contains(name)
        && data->Object_0[name] is Text;
    match text {
        Some(t) => found && data->Object_0[name]->Text_0 == t,
        None => !found,
    }
}

/// The value of an optional text, by its characters.
pub open spec fn is_text(s: Option<String>, text: Option<Seq<char>>) -> bool {
    match text {
        Some(t) => s is Some && s->0@ == t,
        None => s is None,
    }
}

/// `kept` are the latest of `all`, as many as may be kept.
pub open spec fn are_latest<T>(kept: Seq<T>, all: Seq<T>, most: int) -> bool {
    &&& kept.len() == (if all.len() <= most {
        all.len() as int
    } else {
        most
    })
    &&& forall|i: int|
        0 <= i < kept.len() ==> #[trigger] kept[i] == all[all.len() - kept.len() + i]
}

proof fn lemma_kinds()
    ensures
        "session_started"@.len() == 15,
        "session_stopped"@.len() == 15,
        "session_started"@[10] == 'a',
        "session_stopped"@[10] == 'o',
        "partial"@.len() == 7,
        "partial"@[0] == 'p',
        "final"@.len() == 5,
        "final"@[0] == 'f',
        "audio_level"@.len() == 11,
        "error"@.len() == 5,
        "error"@[0] == 'e',
        "warning"@.len() == 7,
        "warning"@[0] == 'w',
{
    reveal_strlit("session_started");
    reveal_strlit("session_stopped");
    reveal_strlit("partial");
    reveal_strlit("final");
    reveal_strlit("audio_level");
    reveal_strlit("error");
    reveal_strlit("warning");
}

proof fn lemma_views(s: OverlayState)
    ensures
        s@.recent_finals.len() == s.recent_finals@.len(),
        forall|i: int|
            0 <= i < s.recent_finals@.len() ==> #[trigger] s@.recent_finals[i]
                == s.recent_finals@[i]@,
{
}

/// Only a final text that is not blank changes the final texts that are kept: it comes behind them,
/// and the latest six stay. After any other event, the start of a session included, they are what
/// they were.
pub proof fn final_texts_are_kept(
    s: &mut OverlayState,
    event: &StreamEvent,
    step: MeterStep,
    text: Option<Seq<char>>,
)
    requires
        call_ensures(OverlayState::apply_stream_event, (s, event, step), ()),
        is_member(json::json_tree(event.data), "text"@, text),
    ensures
        ({
            let comes = event.event_type@ == "final"@ && text is Some && !texts::all_white(text->0);
            let before = text::views(old(s).recent_finals@);
            let after = text::views(final(s).recent_finals@);
            &&& comes ==> are_latest(after, before.push(text->0), 6)
            &&& comes ==> after.last() == text->0
            &&& !comes ==> after == before
        }),
{
    lemma_kinds();
    if let Some(t) = text {
        texts::lemma_trimmed(t);
    }
    lemma_views(*old(s));
    lemma_views(*final(s));
}

/// The partial text is that of the latest partial event. A final text and the start or the end of a
/// session clear it, and no other event touches it.
pub proof fn partial_text_is_followed(
    s: &mut OverlayState,
    event: &StreamEvent,
    step: MeterStep,
    text: Option<Seq<char>>,
)
    requires
        call_ensures(OverlayState::apply_stream_event, (s, event, step), ()),
        is_member(json::json_tree(event.data), "text"@, text),
    ensures
        ({
            let kind = event.event_type@;
            if kind == "partial"@ && text is Some {
                final(s).partial_text@ == text->0
            } else if kind == "final"@ && text is Some || kind == "session_started"@ || kind
                == "session_stopped"@ {
                final(s).partial_text@.len() == 0
            } else {
                final(s).partial_text@ == old(s).partial_text@
            }
        }),
{
    lemma_kinds();
}

/// The phase and the status line follow the events that tell one, and stay after any other.
pub proof fn phase_is_followed(
    s: &mut OverlayState,
    event: &StreamEvent,
    step: MeterStep,
    text: Option<Seq<char>>,
    message: Option<Seq<char>>,
)
    requires
        call_ensures(OverlayState::apply_stream_event, (s, event, step), ()),
        is_member(json::json_tree(event.data), "text"@, text),
        is_member(json::json_tree(event.data), "message"@, message),
    ensures
        ({
            let kind = event.event_type@;
            let phase = final(s).phase@;
            let line = final(s).status_line@;
            if kind == "session_started"@ {
                phase == "recording"@ && line == "Listening"@
            } else if kind == "session_stopped"@ {
                phase == "idle"@ && line == "Stopped"@
            } else if kind == "partial"@ && text is Some {
                phase == "recording"@ && line == "Transcribing"@
            } else if kind == "final"@ && text is Some {
                phase == "processing"@ && line == "Final segment"@
            } else if kind == "error"@ {
                phase == "error"@ && line == "Stream error"@
            } else if kind == "warning"@ && message is Some {
                phase == old(s).phase@ && line == message->0
            } else {
                phase == old(s).phase@ && line == old(s).status_line@
            }
        }),
{
    lemma_kinds();
}

/// An error is shown until the next event, and every event shows that the stream is connected.
pub proof fn error_is_shown_until_the_next_event(
    s: &mut OverlayState,
    event: &StreamEvent,
    step: MeterStep,
    message: Option<Seq<char>>,
)
    requires
        call_ensures(OverlayState::apply_stream_event, (s, event, step), ()),
        is_member(json::json_tree(event.data), "message"@, message),
    ensures
        final(s).connected,
        event.event_type@ == "error"@ ==> is_text(final(s).last_error, message),
        event.event_type@ != "error"@ ==> final(s).last_error is None,
{
    lemma_kinds();
    assert(config::opt_view(final(s).last_error) == final(s)@.last_error);
}

/// The meter follows the sound level, and the latest 260 levels are kept. The start and the end of a
/// session clear it, and no other event touches it.
pub proof fn meter_is_followed(s: &mut OverlayState, event: &StreamEvent, step: MeterStep)
    requires
        call_ensures(OverlayState::apply_stream_event, (s, event, step), ()),
    ensures
        ({
            let kind = event.event_type@;
            let data = json::json_tree(event.data);
            if kind == "audio_level"@ {
                &&& final(s).meter_level == step.level
                &&& are_latest(
                    final(s).meter_history@,
                    old(s).meter_history@.push(step.bounded),
                    260,
                )
                &&& final(s).clipping <==> data is Object && data->Object_0.dom().contains(
                    "clipping"@,
                ) && data->Object_0["clipping"@] == JsonTree::Bool(true)
            } else if kind == "session_started"@ || kind == "session_stopped"@ {
                final(s).meter_level == 0 && final(s).meter_history@.len() == 0
                    && !final(s).clipping
            } else {
                final(s).meter_level == old(s).meter_level && final(s).meter_history@
                    == old(s).meter_history@ && final(s).clipping == old(s).clipping
            }
        }),
{
    lemma_kinds();
}

/// What is not touched by an answer, a failure or a setting: the texts and the meter.
pub open spec fn keeps_the_texts(before: OverlayState, after: OverlayState) -> bool {
    &&& after.partial_text@ == before.partial_text@
    &&& text::views(after.recent_finals@) == text::views(before.recent_finals@)
    &&& after.meter_level == before.meter_level
    &&& after.meter_history@ == before.meter_history@
    &&& after.clipping == before.clipping
}

/// A blank payload says nothing. A payload that is no event is shown by its message, as an error
/// where it is named so; without a message it is passed over.
pub proof fn other_payloads_are_shown_by_their_message(
    s: &mut OverlayState,
    name: &str,
    payload: &str,
    step: MeterStep,
    message: Option<Seq<char>>,
)
    requires
        call_ensures(OverlayState::handle_dispatch, (s, name, payload, None, step), ()),
        match json::json_parsed(payload@) {
            Some(tree) => is_member(tree, "message"@, message),
            None => message is None,
        },
    ensures
        keeps_the_texts(*old(s), *final(s)),
        texts::all_white(payload@) || message is None ==> final(s).phase@ == old(s).phase@
            && final(s).status_line@ == old(s).status_line@ && final(s).connected
            == old(s).connected && is_text(
            final(s).last_error,
            config::opt_view(old(s).last_error),
        ),
        !texts::all_white(payload@) && message is Some ==> ({
            &&& final(s).connected
            &&& final(s).status_line@ == message->0
            &&& name@ == "error"@ ==> final(s).phase@ == "error"@ && is_text(
                final(s).last_error,
                message,
            )
            &&& name@ != "error"@ ==> final(s).phase@ == old(s).phase@ && is_text(
                final(s).last_error,
                config::opt_view(old(s).last_error),
            )
        }),
{
    texts::lemma_trimmed(payload@);
    assert(config::opt_view(final(s).last_error) == final(s)@.last_error);
    assert(text::views(final(s).recent_finals@) == final(s)@.recent_finals);
}

/// An event in a payload that is not blank is followed as such, whatever the frame is named.
pub proof fn events_are_followed(
    a: &mut OverlayState,
    b: &mut OverlayState,
    name: &str,
    payload: &str,
    event: &StreamEvent,
    step: MeterStep,
)
    requires
        call_ensures(OverlayState::handle_dispatch, (a, name, payload, Some(event), step), ()),
        call_ensures(OverlayState::apply_stream_event, (b, event, step), ()),
        old(a)@ == old(b)@,
    ensures
        !texts::all_white(payload@) ==> final(a)@ == final(b)@,
        texts::all_white(payload@) ==> final(a)@ == old(a)@,
{
    texts::lemma_trimmed(payload@);
}

/// A request that the service has answered well shows the phase and the message of the answer, as
/// far as they are there, and no error; any other outcome is shown as an error with its reason.
pub proof fn answers_are_shown(
    s: &mut OverlayState,
    success: bool,
    status: &str,
    body: &str,
    phase: Option<Seq<char>>,
    message: Option<Seq<char>>,
)
    requires
        call_ensures(OverlayState::request_answered, (s, success, status, body), ()),
        match json::json_parsed(body@) {
            Some(tree) => is_member(tree, "phase"@, phase) && is_member(tree, "message"@, message),
            None => phase is None && message is None,
        },
    ensures
        keeps_the_texts(*old(s), *final(s)),
        final(s).connected == old(s).connected,
        success ==> final(s).last_error is None,
        success && phase is Some ==> final(s).phase@ == phase->0,
        success && phase is None ==> final(s).phase@ == old(s).phase@,
        success && message is Some ==> final(s).status_line@ == message->0,
        success && message is None ==> final(s).status_line@ == "Updated"@,
        !success ==> final(s).phase@ == "error"@ && final(s).status_line@
            == "Control request failed"@ && is_text(
            final(s).last_error,
            Some("HTTP "@ + status@ + " "@ + body@),
        ),
{
    assert(config::opt_view(final(s).last_error) == final(s)@.last_error);
    assert(text::views(final(s).recent_finals@) == final(s)@.recent_finals);
}

/// A request that could not be made, or got no answer, is shown as an error with its reason.
pub proof fn failed_requests_are_shown(
    a: &mut OverlayState,
    b: &mut OverlayState,
    c: &mut OverlayState,
    error: &str,
)
    requires
        call_ensures(OverlayState::request_not_made, (a, error), ()),
        call_ensures(OverlayState::request_not_answered, (b, error), ()),
        call_ensures(feed::feed_not_started, (c, error), ()),
    ensures
        keeps_the_texts(*old(a), *final(a)) && keeps_the_texts(*old(b), *final(b))
            && keeps_the_texts(*old(c), *final(c)),
        final(a).phase@ == "error"@ && final(b).phase@ == "error"@ && final(c).phase@ == "error"@,
        final(a).status_line@ == "Control request failed"@,
        final(b).status_line@ == "Control request failed"@,
        final(c).status_line@ == old(c).status_line@,
        is_text(final(a).last_error, Some("HTTP client error: "@ + error@)),
        is_text(final(b).last_error, Some("Control request failed: "@ + error@)),
        is_text(final(c).last_error, Some("Failed to create HTTP client: "@ + error@)),
        final(a).connected == old(a).connected && final(b).connected == old(b).connected
            && final(c).connected == old(c).connected,
{
    assert(config::opt_view(final(a).last_error) == final(a)@.last_error);
    assert(config::opt_view(final(b).last_error) == final(b)@.last_error);
    assert(config::opt_view(final(c).last_error) == final(c)@.last_error);
    assert(text::views(final(a).recent_finals@) == final(a)@.recent_finals);
    assert(text::views(final(b).recent_finals@) == final(b)@.recent_finals);
    assert(text::views(final(c).recent_finals@) == final(c)@.recent_finals);
}

/// A setting that was chosen is told, and so is that it could not be kept.
pub proof fn settings_are_told(
    a: &mut OverlayState,
    b: &mut OverlayState,
    c: &mut OverlayState,
    mode: OutputMode,
    engine: EngineMode,
    failure: Option<String>,
)
    requires
        call_ensures(OverlayState::final_action_set, (a, mode, failure), ()),
        call_ensures(OverlayState::engine_mode_set, (b, engine, failure), ()),
        call_ensures(OverlayState::settings_saved, (c, failure), ()),
    ensures
        keeps_the_texts(*old(a), *final(a)) && keeps_the_texts(*old(b), *final(b))
            && keeps_the_texts(*old(c), *final(c)),
        is_text(final(a).last_error, config::opt_view(failure)),
        is_text(final(b).last_error, config::opt_view(failure)),
        is_text(final(c).last_error, config::opt_view(failure)),
        final(a).phase@ == old(a).phase@,
        ({
            let name = match mode {
                OutputMode::CopyAndPaste => "Copy + paste"@,
                OutputMode::CopyOnly => "Copy only"@,
                OutputMode::PasteAndEnter => "Paste + Enter"@,
                OutputMode::NoOutput => "No output"@,
            };
            &&& failure is None ==> final(a).status_line@ == "Final action set: "@ + name
            &&& failure is Some ==> final(a).status_line@ == "Final action set: "@ + name
                + " (save failed)"@
        }),
        failure is None ==> final(b).phase@ == old(b).phase@ && final(b).status_line@
            == "Engine set to "@ + (match engine {
            EngineMode::Streaming => "Streaming"@,
            EngineMode::Batch => "Batch"@,
        }) + ". Restart Audetic service to apply."@,
        failure is None ==> final(c).phase@ == old(c).phase@ && final(c).status_line@
            == "Settings saved (restart service to apply behaviour changes)."@,
        failure matches Some(e) ==> final(b).phase@ == "error"@ && final(b).status_line@ == e@
            && final(c).phase@ == "error"@ && final(c).status_line@ == e@,
{
    assert(config::opt_view(final(a).last_error) == final(a)@.last_error);
    assert(config::opt_view(final(b).last_error) == final(b)@.last_error);
    assert(config::opt_view(final(c).last_error) == final(c)@.last_error);
    assert(text::views(final(a).recent_finals@) == final(a)@.recent_finals);
    assert(text::views(final(b).recent_finals@) == final(b)@.recent_finals);
    assert(text::views(final(c).recent_finals@) == final(c)@.recent_finals);
}

/// The overlay begins unconnected, idle, and with nothing to show.
pub proof fn overlay_begins_empty(s: OverlayState)
    requires
        call_ensures(<OverlayState as Default>::default, (), s),
    ensures
        !s.connected && s.phase@ == "idle"@ && s.status_line@ == "Waiting for stream"@,
        s.partial_text@.len() == 0 && s.recent_finals@.len() == 0,
        s.meter_level == 0 && s.meter_history@.len() == 0 && !s.clipping,
        s.last_error is None,
{
    lemma_views(s);
    assert(config::opt_view(s.last_error) == s@.last_error);
    assert(s@.recent_finals.len() == 0);
    assert(s.partial_text@ == s@.partial_text);
}

/// The value of a field is what follows its name and the white space behind it.
pub open spec fn is_field(line: Seq<char>, name: Seq<char>, value: Seq<char>) -> bool {
    exists|gap: Seq<char>|
        line == #[trigger] (name + gap) + value && texts::all_white(gap) && (value.len() > 0
            ==> !texts::white(value[0]))
}

proof fn lemma_field(line: Seq<char>, name: Seq<char>, value: Seq<char>)
    requires
        is_field(line, name, value),
    ensures
        text::begins_with(line, name),
        text::trim_start_class(line.skip(name.len() as int), text::CharClass::WhiteSpace) == value,
{
    let k = text::CharClass::WhiteSpace;
    let gap = choose|gap: Seq<char>|
        line == #[trigger] (name + gap) + value && texts::all_white(gap) && (value.len() > 0
            ==> !texts::white(value[0]));
    let rest = line.skip(name.len() as int);
    assert(line.subrange(0, name.len() as int) =~= name);
    assert(rest =~= gap + value);
    texts::lemma_start(rest, k);
    let n = rest.len() - text::trim_start_class(rest, k).len();
    if n < gap.len() {
        texts::lemma_white(rest[n]);
        assert(gap[n] == rest[n]);
    }
    if n > gap.len() {
        let m = gap.len() as int;
        texts::lemma_white(rest[m]);
        assert(value[0] == rest[m]);
    }
    assert(rest.skip(n) =~= value);
}

/// A line with data adds what it holds to the data, behind a line feed where there are some already.
/// A line with a name names the event. Other lines change nothing, and none of these completes it.
pub proof fn lines_fill_the_event(
    reader: &mut SseReader,
    line: &str,
    r: Option<(String, String)>,
    value: Seq<char>,
)
    requires
        call_ensures(SseReader::line, (reader, line), r),
        line@.len() > 0,
    ensures
        r is None,
        is_field(line@, "data:"@, value) ==> final(reader).event@ == old(reader).event@
            && final(reader).data@ == (if old(reader).data@.len() == 0 {
            value
        } else {
            old(reader).data@ + seq!['\n'] + value
        }),
        is_field(line@, "event:"@, value) ==> final(reader).data@ == old(reader).data@
            && texts::is_core(value, final(reader).event@),
        !texts::holds_at(line@, "data:"@, 0) && !texts::holds_at(line@, "event:"@, 0) ==> final(
        reader).event@ == old(reader).event@ && final(reader).data@ == old(reader).data@,
{
    reveal_strlit("data:");
    reveal_strlit("event:");
    texts::lemma_holds(line@, "data:"@);
    texts::lemma_holds(line@, "event:"@);
    if is_field(line@, "data:"@, value) {
        lemma_field(line@, "data:"@, value);
        assert(line@.subrange(0, 5)[0] == 'd');
        assert(line@[0] == 'd');
        if text::begins_with(line@, "event:"@) {
            assert(line@.subrange(0, 6)[0] == 'e');
        }
        assert(old(reader).data@.push('\n') + value =~= old(reader).data@ + seq!['\n'] + value);
    }
    if is_field(line@, "event:"@, value) {
        lemma_field(line@, "event:"@, value);
        let k = text::CharClass::WhiteSpace;
        let rest = line@.skip(6);
        texts::lemma_start(value, k);
        texts::lemma_start(rest, k);
        assert(text::trim_start_class(value, k) == value) by {
            if value.len() > 0 {
                texts::lemma_white(value[0]);
            }
        }
        assert(text::trimmed(rest) == text::trimmed(value));
        texts::lemma_trimmed(value);
    }
}

/// An empty line completes the event that has data, and begins the next one; without data there is
/// no event.
pub proof fn empty_line_completes_the_event(
    reader: &mut SseReader,
    line: &str,
    r: Option<(String, String)>,
)
    requires
        call_ensures(SseReader::line, (reader, line), r),
        line@.len() == 0,
    ensures
        final(reader).event@.len() == 0 && final(reader).data@.len() == 0,
        old(reader).data@.len() == 0 ==> r is None,
        old(reader).data@.len() > 0 ==> (r matches Some(e) && e.0@ == old(reader).event@ && e.1@
            == old(reader).data@),
{
}

/// The stream is asked for, read line by line, and each event that a line completes is followed. It
/// is asked for again two seconds after it could not be had, and nine tenths of a second after it
/// has ended. The overlay shows how the connection stands, and its texts stay.
pub proof fn stream_is_read_and_kept_up(
    reader: &mut SseReader,
    alone: &mut SseReader,
    s: &mut OverlayState,
    event: FeedEvent,
    line: &str,
    read: Option<(String, String)>,
    r: FeedAction,
)
    requires
        call_ensures(SseReader::advance, (reader, s, event), r),
        call_ensures(SseReader::line, (alone, line), read),
        old(alone)@ == old(reader)@,
        event matches FeedEvent::Line(l) ==> l@ == line@,
    ensures
        keeps_the_texts(*old(s), *final(s)),
        final(s).phase@ == old(s).phase@,
        match event {
            FeedEvent::Ready => r is Connect && !final(s).connected && final(s).status_line@
                == "Connecting..."@ && is_text(
                final(s).last_error,
                config::opt_view(old(s).last_error),
            ),
            FeedEvent::NoResponse(e) => r == FeedAction::Wait(2000) && !final(s).connected
                && final(s).status_line@ == "Retrying stream"@ && is_text(
                final(s).last_error,
                Some(e@),
            ),
            FeedEvent::Response { success, status } => if success {
                r is Read && final(s).connected && final(s).status_line@ == "Connected"@ && final(
                s).last_error is None && final(reader).event@.len() == 0 && final(
                reader).data@.len() == 0
            } else {
                r == FeedAction::Wait(2000) && !final(s).connected && final(s).status_line@
                    == "Retrying stream"@ && is_text(
                    final(s).last_error,
                    Some("HTTP "@ + status@ + " from stream endpoint"@),
                )
            },
            FeedEvent::Line(_) => final(reader)@ == final(alone)@ && final(s)@ == old(s)@
                && match read {
                Some(e) => r matches FeedAction::Dispatch { event, data } && event@ == e.0@ && data@
                    == e.1@,
                None => r is Read,
            },
            FeedEvent::Dispatched => r is Read && final(s)@ == old(s)@ && final(reader)@
                == old(reader)@,
            FeedEvent::Broken(e) => r == FeedAction::Wait(900) && !final(s).connected && is_text(
                final(s).last_error,
                Some(e@),
            ) && final(s).status_line@ == (if old(s).phase@ == "error"@ {
                "Stream disconnected"@
            } else {
                "Reconnecting"@
            }),
            FeedEvent::Closed => r == FeedAction::Wait(900) && !final(s).connected && is_text(
                final(s).last_error,
                config::opt_view(old(s).last_error),
            ) && final(s).status_line@ == (if old(s).phase@ == "error"@ {
                old(s).status_line@
            } else {
                "Reconnecting"@
            }),
        },
{
    assert(config::opt_view(final(s).last_error) == final(s)@.last_error);
    assert(text::views(final(s).recent_finals@) == final(s)@.recent_finals);
    assert(final(reader).event@ == final(reader)@.event);
    assert(final(reader).data@ == final(reader)@.data);
}

/// A final line is kept behind the others unless it is blank, and the latest six stay; nothing else
/// changes.
pub proof fn final_lines_are_kept(s: &mut OverlayState, line: String)
    requires
        call_ensures(OverlayState::push_final_line, (s, line), ()),
    ensures
        texts::all_white(line@) ==> text::views(final(s).recent_finals@) == text::views(
            old(s).recent_finals@,
        ),
        !texts::all_white(line@) ==> are_latest(
            text::views(final(s).recent_finals@),
            text::views(old(s).recent_finals@).push(line@),
            6,
        ),
        final(s).partial_text@ == old(s).partial_text@ && final(s).phase@ == old(s).phase@
            && final(s).status_line@ == old(s).status_line@ && final(s).connected == old(
        s).connected,
{
    texts::lemma_trimmed(line@);
    lemma_views(*old(s));
    lemma_views(*final(s));
    assert(final(s).phase@ == final(s)@.phase);
}

/// A payload that is no event is followed in the same way whether it is given as a text or as the
/// value that the text is read as, and an answer likewise.
pub proof fn values_are_followed_as_texts(
    a: &mut OverlayState,
    b: &mut OverlayState,
    c: &mut OverlayState,
    d: &mut OverlayState,
    e: &mut OverlayState,
    name: &str,
    payload: &str,
    status: &str,
    step: MeterStep,
    value: Option<&Value>,
)
    requires
        call_ensures(OverlayState::apply_fallback_value, (a, name, value), ()),
        call_ensures(OverlayState::apply_fallback_event, (b, name, payload), ()),
        call_ensures(OverlayState::handle_dispatch, (c, name, payload, None, step), ()),
        call_ensures(OverlayState::request_done, (d, value), ()),
        call_ensures(OverlayState::request_answered, (e, true, status, payload), ()),
        match value {
            Some(v) => json::json_parsed(payload@) == Some(json::json_tree(*v)),
            None => json::json_parsed(payload@) is None,
        },
        old(a)@ == old(b)@ && old(b)@ == old(c)@ && old(d)@ == old(e)@,
    ensures
        final(a)@ == final(b)@,
        !texts::all_white(payload@) ==> final(c)@ == final(b)@,
        final(d)@ == final(e)@,
{
    texts::lemma_trimmed(payload@);
}

} // verus!
