//! The event stream, as the overlay reads it: the lines of the stream, and the connection that is
//! made again whenever it breaks.
use vstd::prelude::*;
use vstd::string::*;

use crate::overlay::state::{self, OverlayState, OverlayView};
use crate::text::{self, CharClass};

verus! {

/// How long to wait before another attempt to connect.
pub const RETRY_DELAY_MS: u64 = 2000;

/// How long to wait before connecting again after a connection has ended.
pub const RECONNECT_DELAY_MS: u64 = 900;

/// The event that is being read from the stream.
#[derive(Debug)]
pub struct SseReader {
    pub event: String,
    pub data: String,
}

/// The event that is being read, by its characters.
#[verifier::ext_equal]
pub struct SseView {
    pub event: Seq<char>,
    pub data: Seq<char>,
}

impl View for SseReader {
    type V = SseView;

    open spec fn view(&self) -> SseView {
        SseView { event: self.event@, data: self.data@ }
    }
}

/// Nothing has been read of an event.
pub open spec fn no_event() -> SseView {
    SseView { event: Seq::empty(), data: Seq::empty() }
}

/// The rest of a line behind its field name.
pub open spec fn field_of(line: Seq<char>, name: Seq<char>) -> Option<Seq<char>> {
    if text::begins_with(line, name) {
        Some(line.skip(name.len() as int))
    } else {
        None
    }
}

/// What is being read after a line. An empty line ends the event; further lines of data follow
/// behind a line feed; lines with any other field are passed over.
pub open spec fn after_line(v: SseView, line: Seq<char>) -> SseView {
    if line.len() == 0 {
        no_event()
    } else {
        match field_of(line, "event:"@) {
            Some(value) => SseView { event: text::trimmed(value), ..v },
            None => match field_of(line, "data:"@) {
                Some(value) => {
                    let rest = text::trim_start_class(value, CharClass::WhiteSpace);
                    SseView {
                        data: if v.data.len() == 0 {
                            rest
                        } else {
                            v.data.push('\n') + rest
                        },
                        ..v
                    }
                },
                None => v,
            },
        }
    }
}

/// The line completes an event that carries data.
pub open spec fn completes(v: SseView, line: Seq<char>) -> bool {
    line.len() == 0 && v.data.len() > 0
}

impl SseReader {
    /// A reader that has read nothing.
    pub fn new() -> (r: SseReader)
        ensures
            r@ == no_event(),
    {
        let r = SseReader { event: String::new(), data: String::new() };
        assert(r@ =~= no_event());
        r
    }

    /// Reads a line. The event that it completes is returned: its name and its data.
    pub fn line(&mut self, line: &str) -> (r: Option<(String, String)>)
        ensures
            final(self)@ == after_line(old(self)@, line@),
            match r {
                Some((event, data)) => completes(old(self)@, line@) && event@ == old(self)@.event
                    && data@ == old(self)@.data,
                None => !completes(old(self)@, line@),
            },
    {
        if line.is_empty() {
            let event = self.event.clone();
            let data = self.data.clone();
            let carries = !data.as_str().is_empty();
            self.event = String::new();
            self.data = String::new();
            assert(self@ =~= no_event());
            return if carries {
                Some((event, data))
            } else {
                None
            };
        }
        match text::strip_prefix(line, "event:") {
            Some(value) => {
                assert(line@.skip("event:"@.len() as int) =~= value@);
                self.event = text::trim(value.as_str());
            },
            None => {
                if let Some(value) = text::strip_prefix(line, "data:") {
                    assert(line@.skip("data:"@.len() as int) =~= value@);
                    if !self.data.as_str().is_empty() {
                        self.data.push('\n');
                    }
                    let rest = text::trim_head(value.as_str(), CharClass::WhiteSpace);
                    self.data = text::join(self.data.as_str(), rest.as_str());
                    assert(old(self)@.data.len() == 0 ==> self.data@ =~= rest@);
                }
            },
        }
        None
    }
}

/// What happened to the stream.
#[derive(Debug)]
pub enum FeedEvent {
    /// The overlay has started, or has waited long enough.
    Ready,
    /// No answer came.
    NoResponse(String),
    /// An answer came, with the given status.
    Response { success: bool, status: String },
    /// A line was read.
    Line(String),
    /// The event that was read has been followed.
    Dispatched,
    /// The next line could not be read.
    Broken(String),
    /// There are no more lines.
    Closed,
}

/// What is to be done next about the stream.
#[derive(Debug)]
pub enum FeedAction {
    /// Ask for the stream.
    Connect,
    /// Read the next line.
    Read,
    /// Follow the event.
    Dispatch { event: String, data: String },
    /// Wait this many milliseconds.
    Wait(u64),
}

/// The stream is being asked for.
pub open spec fn connecting(v: OverlayView) -> OverlayView {
    OverlayView { connected: false, status_line: "Connecting..."@, ..v }
}

/// The stream could not be had.
pub open spec fn retrying(v: OverlayView, error: Seq<char>) -> OverlayView {
    OverlayView {
        connected: false,
        status_line: "Retrying stream"@,
        last_error: Some(error),
        ..v
    }
}

/// The stream has ended, with an error or without one. The status line of an error stays.
pub open spec fn ended(v: OverlayView, error: Option<Seq<char>>) -> OverlayView {
    OverlayView {
        connected: false,
        status_line: if v.phase != "error"@ {
            "Reconnecting"@
        } else if error is Some {
            "Stream disconnected"@
        } else {
            v.status_line
        },
        last_error: if error is Some {
            error
        } else {
            v.last_error
        },
        ..v
    }
}

/// What the overlay shows after what happened to the stream.
pub open spec fn shown_after(v: OverlayView, event: FeedEvent) -> OverlayView {
    match event {
        FeedEvent::Ready => connecting(v),
        FeedEvent::NoResponse(error) => retrying(v, error@),
        FeedEvent::Response { success, status } => if success {
            OverlayView {
                connected: true,
                status_line: "Connected"@,
                last_error: None,
                ..v
            }
        } else {
            retrying(v, "HTTP "@ + status@ + " from stream endpoint"@)
        },
        FeedEvent::Line(_) => v,
        FeedEvent::Dispatched => v,
        FeedEvent::Broken(error) => ended(v, Some(error@)),
        FeedEvent::Closed => ended(v, None),
    }
}

/// What has been read of an event, after what happened to the stream. A new connection begins with
/// nothing.
pub open spec fn read_after(v: SseView, event: FeedEvent) -> SseView {
    match event {
        FeedEvent::Response { success, .. } => if success {
            no_event()
        } else {
            v
        },
        FeedEvent::Line(line) => after_line(v, line@),
        _ => v,
    }
}

/// What is to be done after what happened to the stream.
pub open spec fn feed_acts(v: SseView, event: FeedEvent, action: FeedAction) -> bool {
    match event {
        FeedEvent::Ready => action == FeedAction::Connect,
        FeedEvent::NoResponse(_) => action == FeedAction::Wait(RETRY_DELAY_MS),
        FeedEvent::Response { success, .. } => action == (if success {
            FeedAction::Read
        } else {
            FeedAction::Wait(RETRY_DELAY_MS)
        }),
        FeedEvent::Line(line) => if completes(v, line@) {
            action matches FeedAction::Dispatch { event, data } && event@ == v.event && data@
                == v.data
        } else {
            action == FeedAction::Read
        },
        FeedEvent::Dispatched => action == FeedAction::Read,
        FeedEvent::Broken(_) => action == FeedAction::Wait(RECONNECT_DELAY_MS),
        FeedEvent::Closed => action == FeedAction::Wait(RECONNECT_DELAY_MS),
    }
}

impl SseReader {
    /// What is to be done next, after what happened to the stream. The overlay shows how the
    /// connection stands.
    pub fn advance(&mut self, state: &mut OverlayState, event: FeedEvent) -> (r: FeedAction)
        ensures
            final(state)@ == shown_after(old(state)@, event),
            final(self)@ == read_after(old(self)@, event),
            feed_acts(old(self)@, event, r),
            old(state).wf() ==> final(state).wf(),
    {
        match event {
            FeedEvent::Ready => {
                state.connected = false;
                state.status_line = "Connecting...".to_owned();
                FeedAction::Connect
            },
            FeedEvent::NoResponse(error) => {
                state.connected = false;
                state.status_line = "Retrying stream".to_owned();
                state.last_error = Some(error);
                FeedAction::Wait(RETRY_DELAY_MS)
            },
            FeedEvent::Response { success, status } => {
                if success {
                    state.connected = true;
                    state.last_error = None;
                    state.status_line = "Connected".to_owned();
                    *self = SseReader::new();
                    FeedAction::Read
                } else {
                    let line = text::join("HTTP ", status.as_str());
                    state.connected = false;
                    state.status_line = "Retrying stream".to_owned();
                    state.last_error = Some(text::join(line.as_str(), " from stream endpoint"));
                    FeedAction::Wait(RETRY_DELAY_MS)
                }
            },
            FeedEvent::Line(line) => match self.line(line.as_str()) {
                Some((event, data)) => FeedAction::Dispatch { event, data },
                None => FeedAction::Read,
            },
            FeedEvent::Dispatched => FeedAction::Read,
            FeedEvent::Broken(error) => {
                state.status_line = "Stream disconnected".to_owned();
                state.last_error = Some(error);
                Self::end(state);
                FeedAction::Wait(RECONNECT_DELAY_MS)
            },
            FeedEvent::Closed => {
                Self::end(state);
                FeedAction::Wait(RECONNECT_DELAY_MS)
            },
        }
    }

    fn end(state: &mut OverlayState)
        ensures
            final(state)@ == ended(old(state)@, None),
            old(state).wf() ==> final(state).wf(),
    {
        state.connected = false;
        if !text::same(state.phase.as_str(), "error") {
            state.status_line = "Reconnecting".to_owned();
        }
    }
}

/// The stream cannot be asked for at all, for want of a client.
pub fn feed_not_started(state: &mut OverlayState, error: &str)
    ensures
        final(state)@ == state::failed(
            old(state)@,
            old(state)@.status_line,
            "Failed to create HTTP client: "@ + error@,
        ),
        old(state).wf() ==> final(state).wf(),
{
    state.phase = "error".to_owned();
    state.last_error = Some(text::join("Failed to create HTTP client: ", error));
}

/// An event written as its name, its data and an empty line is read back: the empty line completes
/// an event with that name and that data. The name has no blanks at its ends; the data are on one
/// line, are not empty and do not begin with a blank.
pub proof fn frame_is_read_back(v: SseView, name: Seq<char>, data: Seq<char>)
    requires
        v == no_event(),
        text::trimmed(name) == name,
        text::trim_start_class(data, CharClass::WhiteSpace) == data,
        data.len() > 0,
    ensures
        ({
            let named = after_line(v, "event: "@ + name);
            let filled = after_line(named, "data: "@ + data);
            &&& !completes(v, "event: "@ + name) && !completes(named, "data: "@ + data)
            &&& completes(filled, Seq::empty())
            &&& filled == SseView { event: name, data }
            &&& after_line(filled, Seq::empty()) == no_event()
        }),
{
    reveal_strlit("event: ");
    reveal_strlit("event:");
    reveal_strlit("data: ");
    reveal_strlit("data:");
    let first = "event: "@ + name;
    assert(first.subrange(0, 6) =~= "event:"@);
    assert(first.skip(6) =~= seq![' '] + name);
    assert(text::trimmed(seq![' '] + name) == name) by {
        assert((seq![' '] + name).drop_first() =~= name);
        assert((seq![' '] + name)[0] == ' ');
    }
    let second = "data: "@ + data;
    assert("event:"@[0] == 'e');
    assert(second[0] == 'd');
    assert(!text::begins_with(second, "event:"@)) by {
        assert(second.subrange(0, 6)[0] == 'd');
    }
    assert(second.subrange(0, 5) =~= "data:"@);
    assert(second.skip(5) =~= seq![' '] + data);
    assert((seq![' '] + data).drop_first() =~= data);
    assert((seq![' '] + data)[0] == ' ');
}

} // verus!
