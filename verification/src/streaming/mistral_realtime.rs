//! The protocol of the realtime transcription service: what is sent to it and what its messages
//! do to the transcript.
use base64::Engine;
use serde_json::Value;
use vstd::prelude::*;
use vstd::string::*;
use vstd::utf8::*;

use crate::config;
use crate::json::{self, JsonTree};
use crate::text;
use crate::web_url::{self, UrlError};

verus! {

/// A connection to the realtime transcription service.
#[derive(Debug)]
pub struct MistralRealtimeClient {
    pub api_key: String,
    pub model: String,
    pub api_base_url: String,
    pub sample_rate_hz: u32,
}

/// What a finished connection leaves.
#[derive(Debug)]
pub struct RealtimeRunResult {
    pub final_text: String,
}

/// The sixty-four characters of the standard base64 alphabet, by their values.
pub open spec fn base64_alphabet() -> Seq<char> {
    "ABCDEFGHIJKLMNOPQRSTUVWXYZabcdefghijklmnopqrstuvwxyz0123456789+/"@
}

/// A byte by its place. Beyond the end there are zeros.
pub open spec fn byte_at(bytes: Seq<u8>, i: int) -> int {
    if 0 <= i < bytes.len() {
        bytes[i] as int
    } else {
        0
    }
}

/// The value of the `k`-th of the four groups of six bits that three bytes are cut into.
pub open spec fn six_bits(b0: int, b1: int, b2: int, k: int) -> int {
    if k == 0 {
        b0 / 4
    } else if k == 1 {
        (b0 % 4) * 16 + b1 / 16
    } else if k == 2 {
        (b1 % 16) * 4 + b2 / 64
    } else {
        b2 % 64
    }
}

/// The text that the standard base64 alphabet writes for some bytes: four characters for every
/// three bytes, `=` in the last group where it holds no bit of a byte.
pub open spec fn base64_text(bytes: Seq<u8>) -> Seq<char> {
    Seq::new(
        base64_length(bytes.len()),
        |i: int|
            {
                let first = i / 4 * 3;
                let k = i % 4;
                if k >= 2 && first + k - 1 >= bytes.len() {
                    '='
                } else {
                    base64_alphabet()[six_bits(
                        byte_at(bytes, first),
                        byte_at(bytes, first + 1),
                        byte_at(bytes, first + 2),
                        k,
                    )]
                }
            },
    )
}

/// The number of characters that base64 with padding writes for `n` bytes.
pub open spec fn base64_length(n: nat) -> nat {
    (n + 2) / 3 * 4
}

/// `base64::engine::general_purpose::STANDARD.encode` writes bytes as text, in the standard alphabet
/// and with the last group padded. It panics where that text cannot be allocated.
#[verifier::external_body]
fn encode_base64(bytes: &Vec<u8>) -> (r: String)
    requires
        base64_length(bytes@.len()) <= isize::MAX,
    ensures
        r@ == base64_text(bytes@),
{
    base64::engine::general_purpose::STANDARD.encode(bytes)
}

/// Whether the text of a message with so many samples can be allocated.
pub fn encodable(samples: usize) -> (r: bool)
    ensures
        r == (base64_length(2 * samples as nat) <= isize::MAX),
{
    let n: u128 = samples as u128;
    (2 * n + 2) / 3 * 4 <= isize::MAX as u128
}

/// A sample as a number of sixteen bits without a sign.
pub open spec fn sample_bits(sample: i16) -> int {
    if sample < 0 {
        sample + 0x1_0000
    } else {
        sample as int
    }
}

/// The samples as bytes, the low byte of each before the high one.
pub open spec fn pcm_bytes(samples: Seq<i16>) -> Seq<u8> {
    Seq::new(
        2 * samples.len(),
        |i: int|
            if i % 2 == 0 {
                (sample_bits(samples[i / 2]) % 256) as u8
            } else {
                (sample_bits(samples[i / 2]) / 256) as u8
            },
    )
}

/// Writes samples as bytes, the low byte of each before the high one.
pub fn pcm_to_bytes(samples: &Vec<i16>) -> (r: Vec<u8>)
    ensures
        r@ == pcm_bytes(samples@),
{
    let mut r: Vec<u8> = Vec::new();
    let mut i: usize = 0;
    while i < samples.len()
        invariant
            i <= samples@.len(),
            r@.len() == 2 * i,
            forall|j: int| 0 <= j < 2 * i ==> r@[j] == #[trigger] pcm_bytes(samples@)[j],
        decreases samples@.len() - i,
    {
        let sample: i16 = samples[i];
        let bits: u32 = if sample < 0 {
            (sample as i32 + 0x1_0000) as u32
        } else {
            sample as u32
        };
        let low: u8 = (bits % 256) as u8;
        let high: u8 = (bits / 256) as u8;
        r.push(low);
        r.push(high);
        proof {
            let all = pcm_bytes(samples@);
            assert((2 * i as int) / 2 == i && (2 * i as int + 1) / 2 == i);
            assert((2 * i as int) % 2 == 0 && (2 * i as int + 1) % 2 == 1);
            assert(all[2 * i as int] == low);
            assert(all[2 * i as int + 1] == high);
        }
        i += 1;
    }
    assert(r@ =~= pcm_bytes(samples@));
    r
}

/// What the message with these samples holds.
pub open spec fn append_tree(samples: Seq<i16>) -> JsonTree {
    JsonTree::Object(
        map![
            "type"@ => JsonTree::Text("input_audio.append"@),
            "audio"@ => JsonTree::Text(base64_text(pcm_bytes(samples))),
        ],
    )
}

/// What the message that ends the audio holds.
pub open spec fn end_tree() -> JsonTree {
    JsonTree::Object(map!["type"@ => JsonTree::Text("input_audio.end"@)])
}

/// What the message that announces the audio format holds.
pub open spec fn session_tree(sample_rate_hz: u32) -> JsonTree {
    JsonTree::Object(
        map![
            "type"@ => JsonTree::Text("session.update"@),
            "session"@ => JsonTree::Object(
                map![
                    "audio_format"@ => JsonTree::Object(
                        map![
                            "encoding"@ => JsonTree::Text("pcm_s16le"@),
                            "sample_rate"@ => JsonTree::Integer(sample_rate_hz as int),
                        ],
                    ),
                ],
            ),
        ],
    )
}

/// What a message of the service says.
#[derive(Debug)]
pub enum RealtimeMessage {
    /// Nothing that matters to the transcript.
    Control,
    /// More of the transcript.
    Delta(String),
    /// The transcript is complete; the text may be empty.
    Done(String),
    /// The transcription failed.
    Failure(String),
    /// A message of an unknown type.
    Unknown(String),
}

/// The text of a member, or no text where there is none.
pub open spec fn text_or_empty(t: JsonTree, key: Seq<char>) -> Seq<char> {
    match json::member_text(t, key) {
        Some(s) => s,
        None => Seq::empty(),
    }
}

/// The reason that an error message gives.
pub open spec fn error_reason(t: JsonTree) -> Seq<char> {
    match json::tree_member(t, "error"@) {
        Some(e) => match json::member_text(e, "message"@) {
            Some(s) => s,
            None => "Unknown realtime transcription error"@,
        },
        None => "Unknown realtime transcription error"@,
    }
}

/// `m` is what a message with this content says.
pub open spec fn says(t: JsonTree, m: RealtimeMessage) -> bool {
    let kind = text_or_empty(t, "type"@);
    if kind == "transcription.text.delta"@ || kind == "transcription.segment"@ {
        let more = text_or_empty(t, "text"@);
        if more.len() == 0 {
            m == RealtimeMessage::Control
        } else {
            m matches RealtimeMessage::Delta(s) && s@ == more
        }
    } else if kind == "transcription.done"@ {
        m matches RealtimeMessage::Done(s) && s@ == text::trimmed(text_or_empty(t, "text"@))
    } else if kind == "error"@ {
        m matches RealtimeMessage::Failure(s) && s@ == error_reason(t)
    } else if kind == "session.created"@ || kind == "session.updated"@ || kind
        == "transcription.language"@ || kind.len() == 0 {
        m == RealtimeMessage::Control
    } else {
        m matches RealtimeMessage::Unknown(s) && s@ == kind
    }
}

/// `m` is what a payload says: nothing where it is blank or no JSON document.
pub open spec fn payload_says(payload: Seq<char>, m: RealtimeMessage) -> bool {
    if text::trimmed(payload).len() == 0 {
        m == RealtimeMessage::Control
    } else {
        match json::json_parsed(payload) {
            Some(t) => says(t, m),
            None => m == RealtimeMessage::Control,
        }
    }
}

fn text_or_default(v: &Value, key: &str) -> (r: String)
    ensures
        r@ == text_or_empty(json::json_tree(*v), key@),
{
    match json::text_at(v, key) {
        Some(s) => s,
        None => String::new(),
    }
}

/// Reads what a message says from its content.
pub fn read_message(v: &Value) -> (r: RealtimeMessage)
    ensures
        says(json::json_tree(*v), r),
{
    let kind = text_or_default(v, "type");
    let k = kind.as_str();
    proof {
        reveal_strlit("transcription.text.delta");
        reveal_strlit("transcription.segment");
        reveal_strlit("transcription.done");
        reveal_strlit("error");
        reveal_strlit("session.created");
        reveal_strlit("session.updated");
        reveal_strlit("transcription.language");
    }
    if text::same(k, "transcription.text.delta") || text::same(k, "transcription.segment") {
        let more = text_or_default(v, "text");
        if more.as_str().is_empty() {
            RealtimeMessage::Control
        } else {
            RealtimeMessage::Delta(more)
        }
    } else if text::same(k, "transcription.done") {
        let whole = text_or_default(v, "text");
        RealtimeMessage::Done(text::trim(whole.as_str()))
    } else if text::same(k, "error") {
        let reason = match json::value_member(v, "error") {
            Some(e) => json::text_at(e, "message"),
            None => None,
        };
        match reason {
            Some(s) => RealtimeMessage::Failure(s),
            None => RealtimeMessage::Failure("Unknown realtime transcription error".to_owned()),
        }
    } else if text::same(k, "session.created") || text::same(k, "session.updated") || text::same(
        k,
        "transcription.language",
    ) || k.is_empty() {
        RealtimeMessage::Control
    } else {
        RealtimeMessage::Unknown(kind)
    }
}

/// Reads what a payload says.
pub fn read_payload(payload: &str) -> (r: RealtimeMessage)
    ensures
        payload_says(payload@, r),
{
    if text::is_blank(payload) {
        return RealtimeMessage::Control;
    }
    match json::parse_value(payload) {
        Some(v) => read_message(&v),
        None => RealtimeMessage::Control,
    }
}

/// A frame of the connection.
#[derive(Debug)]
pub enum Frame {
    Text(String),
    Binary(Vec<u8>),
    /// A ping, a pong or a part of a frame.
    Control,
    Close,
}

/// The payload of a frame that carries one; bytes that are not UTF-8 count as no text.
pub open spec fn frame_payload(frame: Frame) -> Seq<char> {
    match frame {
        Frame::Text(s) => s@,
        Frame::Binary(bytes) => if valid_utf8(bytes@) {
            decode_utf8(bytes@)
        } else {
            Seq::empty()
        },
        _ => Seq::empty(),
    }
}

/// What is to be done after a message.
#[derive(Debug)]
pub enum RealtimeStep {
    /// Go on.
    Continue,
    /// Publish the transcript so far, and go on.
    PublishPartial(String),
    /// Publish a warning, and go on.
    PublishWarning(String),
    /// Publish the complete transcript, and end.
    PublishFinal(String),
    /// End.
    End,
    /// Publish the error, and fail with the message.
    Fail { published: String, message: String },
}

/// What is to be done with the audio that came next.
#[derive(Debug)]
pub enum AudioStep {
    /// Nothing.
    Skip,
    /// Send the text.
    Send(String),
}

/// How long the complete transcript is waited for after the end of the audio.
pub const DONE_TIMEOUT_MS: u64 = 12_000;

/// The transcript that a connection has gathered.
#[derive(Debug)]
pub struct RealtimeSession {
    pub partial: String,
    pub final_text: Option<String>,
    pub audio_ended: bool,
}

/// What a message does to the transcript and what is done about it.
pub open spec fn stepped(
    pre: RealtimeSession,
    post: RealtimeSession,
    m: RealtimeMessage,
    step: RealtimeStep,
) -> bool {
    &&& post.audio_ended == pre.audio_ended
    &&& match m {
        RealtimeMessage::Control => post == pre && step == RealtimeStep::Continue,
        RealtimeMessage::Delta(more) => {
            &&& post.partial@ == pre.partial@ + more@
            &&& post.final_text == pre.final_text
            &&& step matches RealtimeStep::PublishPartial(s) && s@ == pre.partial@ + more@
        },
        RealtimeMessage::Done(whole) => {
            &&& post.partial == pre.partial
            &&& if whole@.len() == 0 {
                post.final_text == pre.final_text && step == RealtimeStep::End
            } else {
                &&& config::opt_view(post.final_text) == Some(whole@)
                &&& step matches RealtimeStep::PublishFinal(s) && s@ == whole@
            }
        },
        RealtimeMessage::Failure(reason) => {
            &&& post == pre
            &&& step matches RealtimeStep::Fail { published, message } && published@ == reason@
                && message@ == "Mistral realtime error: "@ + reason@
        },
        RealtimeMessage::Unknown(kind) => {
            &&& post == pre
            &&& step matches RealtimeStep::PublishWarning(s) && s@
                == "Ignored realtime event type: "@ + kind@
        },
    }
}

/// The text that a session ends with: the complete transcript, or else what was gathered.
pub open spec fn session_text(s: RealtimeSession) -> Seq<char> {
    match s.final_text {
        Some(whole) => whole@,
        None => text::trimmed(s.partial@),
    }
}

impl RealtimeSession {
    /// A session with nothing in it.
    pub fn new() -> (r: RealtimeSession)
        ensures
            r.partial@.len() == 0,
            r.final_text is None,
            !r.audio_ended,
    {
        RealtimeSession { partial: String::new(), final_text: None, audio_ended: false }
    }

    /// Takes the audio that came next, or its end, and says what is to be sent. The end is sent
    /// once, and no audio after it.
    pub fn on_audio(&mut self, chunk: Option<Vec<i16>>) -> (r: AudioStep)
        requires
            chunk matches Some(samples) ==> base64_length(2 * samples@.len()) <= isize::MAX,
        ensures
            final(self).partial == old(self).partial,
            final(self).final_text == old(self).final_text,
            final(self).audio_ended == (old(self).audio_ended || chunk is None),
            if old(self).audio_ended {
                r == AudioStep::Skip
            } else {
                match chunk {
                    Some(samples) => if samples@.len() == 0 {
                        r == AudioStep::Skip
                    } else {
                        r matches AudioStep::Send(s) && s@ == json::json_rendered(
                            append_tree(samples@),
                        )
                    },
                    None => r matches AudioStep::Send(s) && s@ == json::json_rendered(end_tree()),
                }
            },
    {
        if self.audio_ended {
            return AudioStep::Skip;
        }
        match chunk {
            Some(samples) => if samples.len() == 0 {
                AudioStep::Skip
            } else {
                let audio = encode_base64(&pcm_to_bytes(&samples));
                let message = json::pair_value(
                    "type",
                    json::text_value("input_audio.append"),
                    "audio",
                    json::text_value(audio.as_str()),
                );
                AudioStep::Send(json::render_value(&message))
            },
            None => {
                self.audio_ended = true;
                AudioStep::Send(json::render_value(&json::text_member("type", "input_audio.end")))
            },
        }
    }

    /// Whether waiting for the complete transcript is over, `since_end_ms` after the audio ended.
    pub fn timed_out(&self, since_end_ms: u64) -> (r: bool)
        ensures
            r == (self.audio_ended && since_end_ms >= 12_000),
    {
        self.audio_ended && since_end_ms >= DONE_TIMEOUT_MS
    }

    /// Takes what a message says.
    pub fn on_message(&mut self, m: RealtimeMessage) -> (r: RealtimeStep)
        ensures
            stepped(*old(self), *final(self), m, r),
    {
        match m {
            RealtimeMessage::Control => RealtimeStep::Continue,
            RealtimeMessage::Delta(more) => {
                self.partial = text::join(self.partial.as_str(), more.as_str());
                RealtimeStep::PublishPartial(self.partial.clone())
            },
            RealtimeMessage::Done(whole) => if whole.as_str().is_empty() {
                RealtimeStep::End
            } else {
                self.final_text = Some(whole.clone());
                RealtimeStep::PublishFinal(whole)
            },
            RealtimeMessage::Failure(reason) => {
                let message = text::join("Mistral realtime error: ", reason.as_str());
                RealtimeStep::Fail { published: reason, message }
            },
            RealtimeMessage::Unknown(kind) => RealtimeStep::PublishWarning(
                text::join("Ignored realtime event type: ", kind.as_str()),
            ),
        }
    }

    /// Takes a frame of the connection.
    pub fn on_frame(&mut self, frame: Frame) -> (r: RealtimeStep)
        ensures
            match frame {
                Frame::Control => *final(self) == *old(self) && r == RealtimeStep::Continue,
                Frame::Close => *final(self) == *old(self) && r == RealtimeStep::End,
                _ => exists|m: RealtimeMessage|
                    payload_says(frame_payload(frame), m) && stepped(
                        *old(self),
                        *final(self),
                        m,
                        r,
                    ),
            },
    {
        let payload = match frame {
            Frame::Text(s) => s,
            Frame::Binary(bytes) => match text::utf8_text(bytes) {
                Some(s) => s,
                None => String::new(),
            },
            Frame::Control => {
                return RealtimeStep::Continue;
            },
            Frame::Close => {
                return RealtimeStep::End;
            },
        };
        let m = read_payload(payload.as_str());
        let ghost said = m;
        let r = self.on_message(m);
        assert(payload@ =~= frame_payload(frame));
        assert(payload_says(frame_payload(frame), said));
        r
    }

    /// The text that the session ends with.
    pub fn finish(&self) -> (r: RealtimeRunResult)
        ensures
            r.final_text@ == session_text(*self),
    {
        let final_text = match &self.final_text {
            Some(whole) => whole.clone(),
            None => text::trim(self.partial.as_str()),
        };
        RealtimeRunResult { final_text }
    }
}

impl MistralRealtimeClient {
    /// The address of the socket: the base address with its web scheme replaced by the socket
    /// scheme, the endpoint's path, and the model as its only query pair.
    pub fn websocket_url(&self) -> (r: Result<String, UrlError>)
        requires
            web_url::socket_room(self.api_base_url@, self.model@),
        ensures
            web_url::socket_outcome(self.api_base_url@, self.model@, r),
    {
        web_url::socket_url(self.api_base_url.as_str(), self.model.as_str())
    }

    /// As `websocket_url`, for any base address and model: nothing where the address would grow
    /// beyond what can be counted.
    pub fn checked_websocket_url(&self) -> (r: Option<Result<String, UrlError>>)
        ensures
            match r {
                Some(outcome) => web_url::socket_room(self.api_base_url@, self.model@)
                    && web_url::socket_outcome(self.api_base_url@, self.model@, outcome),
                None => !web_url::socket_room(self.api_base_url@, self.model@),
            },
    {
        web_url::checked_socket_url(self.api_base_url.as_str(), self.model.as_str())
    }

    /// The header that authorises the connection.
    pub fn authorization(&self) -> (r: String)
        ensures
            r@ == "Bearer "@ + self.api_key@,
    {
        text::join("Bearer ", self.api_key.as_str())
    }

    /// The header that names this program.
    pub fn user_agent(version: &str) -> (r: String)
        ensures
            r@ == "audetic/"@ + version@,
    {
        text::join("audetic/", version)
    }

    /// The message that announces the audio format.
    pub fn session_update(&self) -> (r: String)
        ensures
            r@ == json::json_rendered(session_tree(self.sample_rate_hz)),
    {
        let format = json::pair_value(
            "encoding",
            json::text_value("pcm_s16le"),
            "sample_rate",
            json::unsigned_value(self.sample_rate_hz as u64),
        );
        let session = json::single_value("audio_format", format);
        json::render_value(
            &json::pair_value("type", json::text_value("session.update"), "session", session),
        )
    }
}

/// The two bytes that are sent for a sample make up the sample again.
pub proof fn bytes_hold_every_sample(samples: Seq<i16>, i: int)
    requires
        0 <= i < samples.len(),
    ensures
        pcm_bytes(samples).len() == 2 * samples.len(),
        pcm_bytes(samples)[2 * i] + 256 * pcm_bytes(samples)[2 * i + 1] == sample_bits(samples[i]),
{
    assert((2 * i) / 2 == i && (2 * i + 1) / 2 == i);
    assert((2 * i) % 2 == 0 && (2 * i + 1) % 2 == 1);
}

/// All texts, one behind the other.
pub open spec fn joined(texts: Seq<Seq<char>>) -> Seq<char>
    decreases texts.len(),
{
    if texts.len() == 0 {
        Seq::empty()
    } else {
        joined(texts.drop_last()) + texts.last()
    }
}

/// The two have gathered the same transcript, whether or not the audio has ended.
pub open spec fn same_transcript(a: RealtimeSession, b: RealtimeSession) -> bool {
    a.partial@ == b.partial@ && config::opt_view(a.final_text) == config::opt_view(b.final_text)
}

/// The session takes a text as more of the transcript, after whatever has left its transcript as it
/// was.
pub open spec fn takes_more(pre: RealtimeSession, post: RealtimeSession, text: Seq<char>) -> bool {
    exists|at: RealtimeSession, more: String, step: RealtimeStep|
        #![trigger stepped(at, post, RealtimeMessage::Delta(more), step)]
        same_transcript(pre, at) && more@ == text && stepped(
            at,
            post,
            RealtimeMessage::Delta(more),
            step,
        )
}

/// The sessions follow each other: each takes one more of the texts as more of the transcript. The
/// audio may end anywhere between them.
pub open spec fn takes(sessions: Seq<RealtimeSession>, texts: Seq<Seq<char>>) -> bool {
    &&& sessions.len() == texts.len() + 1
    &&& forall|i: int|
        #![trigger texts[i]]
        0 <= i < texts.len() ==> takes_more(sessions[i], sessions[i + 1], texts[i])
}

/// The transcript so far is all that the service has sent of it, in order.
pub proof fn transcript_is_all_that_came(sessions: Seq<RealtimeSession>, texts: Seq<Seq<char>>)
    requires
        takes(sessions, texts),
        sessions[0].partial@.len() == 0,
        sessions[0].final_text is None,
    ensures
        sessions.last().partial@ == joined(texts),
        sessions.last().final_text is None,
        session_text(sessions.last()) == text::trimmed(joined(texts)),
    decreases texts.len(),
{
    if texts.len() == 0 {
        assert(sessions.last().partial@ =~= joined(texts));
    } else {
        let fewer = texts.drop_last();
        let earlier = sessions.drop_last();
        assert forall|i: int| #![trigger fewer[i]] 0 <= i < fewer.len() implies takes_more(
            earlier[i],
            earlier[i + 1],
            fewer[i],
        ) by {
            assert(texts[i] == fewer[i]);
            assert(earlier[i] == sessions[i] && earlier[i + 1] == sessions[i + 1]);
        }
        transcript_is_all_that_came(earlier, fewer);
        let last = texts.len() - 1;
        assert(texts[last] == texts.last());
    }
}

/// Messages that hold no part of the transcript leave it as it was.
pub proof fn other_messages_keep_the_transcript(
    pre: RealtimeSession,
    post: RealtimeSession,
    m: RealtimeMessage,
    step: RealtimeStep,
)
    requires
        stepped(pre, post, m, step),
        m is Control || m is Unknown || m is Failure,
    ensures
        same_transcript(pre, post),
{
}

/// The complete transcript, once the service has sent it, is what the session ends with, whatever
/// was sent of it before.
pub proof fn complete_transcript_wins(
    pre: RealtimeSession,
    post: RealtimeSession,
    whole: String,
    step: RealtimeStep,
)
    requires
        stepped(pre, post, RealtimeMessage::Done(whole), step),
        whole@.len() > 0,
    ensures
        session_text(post) == whole@,
        step matches RealtimeStep::PublishFinal(s) && s@ == whole@,
{
}

} // verus!
