//! Laws of the protocol of the realtime transcription service.
use vstd::prelude::*;
use vstd::string::*;
use vstd::utf8::*;

use crate::json::{self, JsonTree};
use crate::laws::texts;
use crate::streaming::mistral_realtime::{
    self, AudioStep, Frame, MistralRealtimeClient, RealtimeRunResult, RealtimeSession, RealtimeStep,
};
use crate::text;

verus! {

/// The frame carries this text.
pub open spec fn carries(frame: Frame, payload: Seq<char>) -> bool {
    match frame {
        Frame::Text(s) => s@ == payload,
        Frame::Binary(bytes) => valid_utf8(bytes@) && decode_utf8(bytes@) == payload,
        _ => false,
    }
}

/// The frame carries a JSON object with these members.
pub open spec fn carries_object(
    frame: Frame,
    payload: Seq<char>,
    members: Map<Seq<char>, JsonTree>,
) -> bool {
    &&& carries(frame, payload)
    &&& payload.contains('{')
    &&& json::json_parsed(payload) == Some(JsonTree::Object(members))
}

/// The member of this name is this text.
pub open spec fn has_member(
    members: Map<Seq<char>, JsonTree>,
    name: Seq<char>,
    text: Seq<char>,
) -> bool {
    members.dom().contains(name) && members[name] == JsonTree::Text(text)
}

/// No member of this name is a text.
pub open spec fn lacks_text(members: Map<Seq<char>, JsonTree>, name: Seq<char>) -> bool {
    !members.dom().contains(name) || !(members[name] is Text)
}

/// The frame is a message that holds a part of the transcript.
pub open spec fn sends_text(
    frame: Frame,
    payload: Seq<char>,
    members: Map<Seq<char>, JsonTree>,
    text: Seq<char>,
) -> bool {
    &&& carries_object(frame, payload, members)
    &&& has_member(members, "type"@, "transcription.text.delta"@) || has_member(
        members,
        "type"@,
        "transcription.segment"@,
    )
    &&& has_member(members, "text"@, text)
}

proof fn lemma_kinds()
    ensures
        "transcription.text.delta"@.len() == 24,
        "transcription.segment"@.len() == 21,
        "transcription.done"@.len() == 18,
        "error"@.len() == 5,
        "session.created"@.len() == 15,
        "session.updated"@.len() == 15,
        "transcription.language"@.len() == 22,
{
    reveal_strlit("transcription.text.delta");
    reveal_strlit("transcription.segment");
    reveal_strlit("transcription.done");
    reveal_strlit("error");
    reveal_strlit("session.created");
    reveal_strlit("session.updated");
    reveal_strlit("transcription.language");
}

proof fn lemma_payload(frame: Frame, payload: Seq<char>)
    requires
        carries(frame, payload),
        payload.contains('{'),
    ensures
        mistral_realtime::frame_payload(frame) == payload,
        text::trimmed(payload).len() > 0,
{
    texts::lemma_trimmed(payload);
    let i = choose|i: int| 0 <= i < payload.len() && payload[i] == '{';
    assert(!texts::white(payload[i]));
}

/// A message with a part of the transcript adds exactly that part to the transcript, every
/// character of it, and the transcript so far is published.
pub proof fn transcript_grows_by_what_was_sent(
    s: &mut RealtimeSession,
    frame: Frame,
    r: RealtimeStep,
    payload: Seq<char>,
    members: Map<Seq<char>, JsonTree>,
    text: Seq<char>,
)
    requires
        call_ensures(RealtimeSession::on_frame, (s, frame), r),
        sends_text(frame, payload, members, text),
        text.len() > 0,
    ensures
        final(s).partial@ == old(s).partial@ + text,
        final(s).final_text == old(s).final_text,
        final(s).audio_ended == old(s).audio_ended,
        r matches RealtimeStep::PublishPartial(p) && p@ == old(s).partial@ + text,
{
    lemma_kinds();
    lemma_payload(frame, payload);
}

/// All texts, one behind the other.
pub open spec fn chained(texts: Seq<Seq<char>>) -> Seq<char>
    decreases texts.len(),
{
    if texts.len() == 0 {
        Seq::empty()
    } else {
        chained(texts.drop_last()) + texts.last()
    }
}

/// Over all messages with a part of the transcript, whatever comes between them without touching
/// the transcript, the transcript is what they have sent, one part behind the other.
pub proof fn transcript_is_what_was_sent(
    sessions: Seq<&mut RealtimeSession>,
    frames: Seq<Frame>,
    steps: Seq<RealtimeStep>,
    payloads: Seq<Seq<char>>,
    members: Seq<Map<Seq<char>, JsonTree>>,
    texts: Seq<Seq<char>>,
)
    requires
        sessions.len() == frames.len() == steps.len() == payloads.len() == members.len()
            == texts.len(),
        sessions.len() > 0,
        sessions[0].partial@.len() == 0,
        forall|i: int|
            0 <= i < sessions.len() ==> #[trigger] call_ensures(
                RealtimeSession::on_frame,
                (sessions[i], frames[i]),
                steps[i],
            ),
        forall|i: int|
            0 <= i < sessions.len() ==> sends_text(
                frames[i],
                payloads[i],
                members[i],
                #[trigger] texts[i],
            ) && texts[i].len() > 0,
        forall|i: int|
            #![trigger sessions[i]]
            0 < i < sessions.len() ==> sessions[i].partial@ == final(sessions[i - 1]).partial@,
    ensures
        final(sessions.last()).partial@ == chained(texts),
        steps.last() matches RealtimeStep::PublishPartial(p) && p@ == chained(texts),
    decreases sessions.len(),
{
    let n = sessions.len() - 1;
    assert(call_ensures(RealtimeSession::on_frame, (sessions[n], frames[n]), steps[n]));
    assert(texts[n] == texts.last());
    lemma_kinds();
    lemma_payload(frames[n], payloads[n]);
    if n == 0 {
        assert(texts.drop_last() =~= Seq::empty());
        assert(chained(texts.drop_last()) =~= sessions[0].partial@);
    } else {
        let s = sessions.drop_last();
        let f = frames.drop_last();
        let t = steps.drop_last();
        assert forall|i: int| 0 <= i < s.len() implies #[trigger] call_ensures(
            RealtimeSession::on_frame,
            (s[i], f[i]),
            t[i],
        ) by {
            assert(call_ensures(RealtimeSession::on_frame, (sessions[i], frames[i]), steps[i]));
        }
        assert forall|i: int| 0 <= i < s.len() implies sends_text(
            f[i],
            payloads.drop_last()[i],
            members.drop_last()[i],
            #[trigger] texts.drop_last()[i],
        ) && texts.drop_last()[i].len() > 0 by {
            assert(texts[i] == texts.drop_last()[i]);
        }
        assert forall|i: int| #![trigger s[i]] 0 < i < s.len() implies s[i].partial@
            == final(s[i - 1]).partial@ by {
            assert(sessions[i].partial@ == final(sessions[i - 1]).partial@);
        }
        transcript_is_what_was_sent(
            s,
            f,
            t,
            payloads.drop_last(),
            members.drop_last(),
            texts.drop_last(),
        );
        assert(sessions[n].partial@ == final(sessions[n - 1]).partial@);
        assert(s.last() == sessions[n - 1]);
    }
}

/// A session ends with the complete transcript where the service has sent one, and else with all
/// that was gathered, white space at its ends aside.
pub proof fn session_ends_with_its_transcript(s: RealtimeSession, r: RealtimeRunResult)
    requires
        call_ensures(RealtimeSession::finish, (&s,), r),
    ensures
        s.final_text matches Some(whole) ==> r.final_text@ == whole@,
        s.final_text is None ==> texts::is_core(s.partial@, r.final_text@),
{
    texts::lemma_trimmed(s.partial@);
}

/// The message that the transcript is complete ends the session. What it holds beside white space
/// becomes the text of the session; the parts that were gathered stay.
pub proof fn complete_transcript_is_taken(
    s: &mut RealtimeSession,
    frame: Frame,
    r: RealtimeStep,
    payload: Seq<char>,
    members: Map<Seq<char>, JsonTree>,
    text: Seq<char>,
    core: Seq<char>,
)
    requires
        call_ensures(RealtimeSession::on_frame, (s, frame), r),
        carries_object(frame, payload, members),
        has_member(members, "type"@, "transcription.done"@),
        has_member(members, "text"@, text) || lacks_text(members, "text"@) && text.len() == 0,
        texts::is_core(text, core),
    ensures
        final(s).partial@ == old(s).partial@,
        final(s).audio_ended == old(s).audio_ended,
        core.len() > 0 ==> (final(s).final_text matches Some(w) && w@ == core) && (
        r matches RealtimeStep::PublishFinal(w) && w@ == core),
        core.len() == 0 ==> final(s).final_text == old(s).final_text && r == RealtimeStep::End,
{
    lemma_kinds();
    lemma_payload(frame, payload);
    texts::lemma_trimmed(text);
    texts::core_is_unique(text, core, text::trimmed(text));
    assert(lacks_text(members, "text"@) ==> text =~= Seq::empty());
}

/// An error of the service is published with the reason that it gives, or else with a standing one,
/// and fails the session with the same reason.
pub proof fn service_error_is_told(
    s: &mut RealtimeSession,
    frame: Frame,
    r: RealtimeStep,
    payload: Seq<char>,
    members: Map<Seq<char>, JsonTree>,
    reason: Seq<char>,
)
    requires
        call_ensures(RealtimeSession::on_frame, (s, frame), r),
        carries_object(frame, payload, members),
        has_member(members, "type"@, "error"@),
        if members.dom().contains("error"@) && members["error"@] is Object && !lacks_text(
            members["error"@]->Object_0,
            "message"@,
        ) {
            has_member(members["error"@]->Object_0, "message"@, reason)
        } else {
            reason == "Unknown realtime transcription error"@
        },
    ensures
        *final(s) == *old(s),
        r matches RealtimeStep::Fail { published, message } && published@ == reason && message@
            == "Mistral realtime error: "@ + reason,
{
    lemma_kinds();
    lemma_payload(frame, payload);
}

/// Messages of the known other kinds, messages without a kind or without text, what is no JSON
/// document, and frames without a payload change nothing.
pub proof fn other_frames_change_nothing(
    s: &mut RealtimeSession,
    frame: Frame,
    r: RealtimeStep,
    payload: Seq<char>,
    members: Map<Seq<char>, JsonTree>,
)
    requires
        call_ensures(RealtimeSession::on_frame, (s, frame), r),
        ({
            ||| frame is Control
            ||| frame matches Frame::Binary(bytes) && !valid_utf8(bytes@)
            ||| carries(frame, payload) && texts::all_white(payload)
            ||| carries(frame, payload) && json::json_parsed(payload) is None
            ||| carries(frame, payload) && json::json_parsed(payload) is Some && !(
            json::json_parsed(payload)->0 is Object)
            ||| carries_object(frame, payload, members) && lacks_text(members, "type"@)
            ||| carries_object(frame, payload, members) && (has_member(
                members,
                "type"@,
                "session.created"@,
            ) || has_member(members, "type"@, "session.updated"@) || has_member(
                members,
                "type"@,
                "transcription.language"@,
            ))
            ||| carries_object(frame, payload, members) && (has_member(
                members,
                "type"@,
                "transcription.text.delta"@,
            ) || has_member(members, "type"@, "transcription.segment"@)) && (lacks_text(
                members,
                "text"@,
            ) || has_member(members, "text"@, Seq::empty()))
        }),
    ensures
        *final(s) == *old(s),
        r == RealtimeStep::Continue,
{
    lemma_kinds();
    if carries(frame, payload) {
        texts::lemma_trimmed(payload);
        if payload.contains('{') {
            lemma_payload(frame, payload);
        }
    }
    if let Frame::Binary(bytes) = frame {
        if !valid_utf8(bytes@) {
            texts::lemma_trimmed(Seq::empty());
        }
    }
    reveal_strlit("session.created");
    reveal_strlit("session.updated");
    assert("session.created"@.len() != "transcription.language"@.len());
}

/// A message of a kind that is not known is warned of, and a closed connection ends the session.
pub proof fn unknown_kinds_are_warned_of(
    s: &mut RealtimeSession,
    frame: Frame,
    r: RealtimeStep,
    payload: Seq<char>,
    members: Map<Seq<char>, JsonTree>,
    kind: Seq<char>,
)
    requires
        call_ensures(RealtimeSession::on_frame, (s, frame), r),
        ({
            ||| frame is Close
            ||| {
                &&& carries_object(frame, payload, members)
                &&& has_member(members, "type"@, kind)
                &&& kind.len() > 0
                &&& kind != "transcription.text.delta"@ && kind != "transcription.segment"@
                &&& kind != "transcription.done"@ && kind != "error"@
                &&& kind != "session.created"@ && kind != "session.updated"@
                &&& kind != "transcription.language"@
            }
        }),
    ensures
        *final(s) == *old(s),
        frame is Close ==> r == RealtimeStep::End,
        !(frame is Close) ==> (r matches RealtimeStep::PublishWarning(w) && w@
            == "Ignored realtime event type: "@ + kind),
{
    if !(frame is Close) {
        lemma_payload(frame, payload);
    }
}

/// Audio is sent as the bytes of its samples, each low byte before its high one, in base64; then
/// its end is sent, once, and no audio after it. Nothing of this touches the transcript.
pub proof fn audio_is_sent_whole(
    s: &mut RealtimeSession,
    chunk: Option<Vec<i16>>,
    r: AudioStep,
    bytes: Seq<u8>,
)
    requires
        call_ensures(RealtimeSession::on_audio, (s, chunk), r),
        chunk matches Some(samples) ==> bytes.len() == 2 * samples@.len() && forall|i: int|
            0 <= i < samples@.len() ==> (bytes[2 * i] + 256 * bytes[2 * i + 1] - (
            #[trigger] samples@[i])) % 0x1_0000 == 0,
    ensures
        final(s).partial == old(s).partial,
        final(s).final_text == old(s).final_text,
        final(s).audio_ended == (old(s).audio_ended || chunk is None),
        old(s).audio_ended ==> r == AudioStep::Skip,
        chunk matches Some(samples) ==> samples@.len() == 0 ==> r == AudioStep::Skip,
        !old(s).audio_ended && chunk is Some && bytes.len() > 0 ==> (r matches AudioStep::Send(t)
            && t@ == json::json_rendered(
            JsonTree::Object(
                map![
                    "type"@ => JsonTree::Text("input_audio.append"@),
                    "audio"@ => JsonTree::Text(mistral_realtime::base64_text(bytes)),
                ],
            ),
        )),
        !old(s).audio_ended && chunk is None ==> (r matches AudioStep::Send(t) && t@
            == json::json_rendered(
            JsonTree::Object(map!["type"@ => JsonTree::Text("input_audio.end"@)]),
        )),
{
    if let Some(samples) = chunk {
        let all = mistral_realtime::pcm_bytes(samples@);
        assert forall|j: int| 0 <= j < bytes.len() implies bytes[j] == #[trigger] all[j] by {
            let i = j / 2;
            let x = samples@[i];
            assert(j == 2 * i || j == 2 * i + 1);
            let b = bytes[2 * i] + 256 * bytes[2 * i + 1];
            assert((b - x) % 0x1_0000 == 0);
            assert(b == mistral_realtime::sample_bits(x));
            assert((2 * i) / 2 == i && (2 * i + 1) / 2 == i);
            assert((2 * i) % 2 == 0 && (2 * i + 1) % 2 == 1);
        }
        assert(all =~= bytes);
    }
}

/// Base64 keeps every bit: each three bytes are, as one number, the four characters of their group
/// by their places in the alphabet, which holds every character once.
pub proof fn base64_keeps_every_bit(bytes: Seq<u8>, g: int, places: Seq<int>)
    requires
        0 <= g,
        3 * g + 3 <= bytes.len(),
        places.len() == 4,
        forall|k: int|
            0 <= k < 4 ==> 0 <= #[trigger] places[k] < 64 && mistral_realtime::base64_text(
                bytes,
            )[4 * g + k] == "ABCDEFGHIJKLMNOPQRSTUVWXYZabcdefghijklmnopqrstuvwxyz0123456789+/"@[places[k]],
    ensures
        bytes[3 * g] * 65536 + bytes[3 * g + 1] * 256 + bytes[3 * g + 2] == places[0] * 262144
            + places[1] * 4096 + places[2] * 64 + places[3],
{
    let a = mistral_realtime::base64_alphabet();
    let t = mistral_realtime::base64_text(bytes);
    let (b0, b1, b2) = (bytes[3 * g] as int, bytes[3 * g + 1] as int, bytes[3 * g + 2] as int);
    assert(bytes.len() >= 3 * g + 3);
    assert((bytes.len() + 2) / 3 >= g + 1);
    assert(t.len() >= 4 * g + 4);
    assert forall|k: int| 0 <= k < 4 implies #[trigger] places[k]
        == mistral_realtime::six_bits(b0, b1, b2, k) by {
        assert((4 * g + k) / 4 == g && (4 * g + k) % 4 == k);
        let v = mistral_realtime::six_bits(b0, b1, b2, k);
        assert(0 <= v < 64);
        assert(t[4 * g + k] == a[v]);
        lemma_alphabet(places[k], v);
    }
    assert(places[0] == b0 / 4);
    assert(places[1] == (b0 % 4) * 16 + b1 / 16);
    assert(places[2] == (b1 % 16) * 4 + b2 / 64);
    assert(places[3] == b2 % 64);
}

proof fn lemma_alphabet(i: int, j: int)
    requires
        0 <= i < 64,
        0 <= j < 64,
        mistral_realtime::base64_alphabet()[i] == mistral_realtime::base64_alphabet()[j],
    ensures
        i == j,
{
    reveal_strlit("ABCDEFGHIJKLMNOPQRSTUVWXYZabcdefghijklmnopqrstuvwxyz0123456789+/");
    let a = mistral_realtime::base64_alphabet();
    assert forall|k: int| 0 <= k < 64 implies (#[trigger] a[k]) as int == (if k < 26 {
        65 + k
    } else if k < 52 {
        71 + k
    } else if k < 62 {
        k - 4
    } else if k == 62 {
        43
    } else {
        47
    }) by {}
}

/// What the connection announces: who asks, with which program, and the format of the audio.
pub proof fn connection_is_announced(
    c: MistralRealtimeClient,
    version: &str,
    authorization: String,
    agent: String,
    update: String,
)
    requires
        call_ensures(MistralRealtimeClient::authorization, (&c,), authorization),
        call_ensures(MistralRealtimeClient::user_agent, (version,), agent),
        call_ensures(MistralRealtimeClient::session_update, (&c,), update),
    ensures
        authorization@ == "Bearer "@ + c.api_key@,
        agent@ == "audetic/"@ + version@,
        update@ == json::json_rendered(
            JsonTree::Object(
                map![
                    "type"@ => JsonTree::Text("session.update"@),
                    "session"@ => JsonTree::Object(
                        map![
                            "audio_format"@ => JsonTree::Object(
                                map![
                                    "encoding"@ => JsonTree::Text("pcm_s16le"@),
                                    "sample_rate"@ => JsonTree::Integer(c.sample_rate_hz as int),
                                ],
                            ),
                        ],
                    ),
                ],
            ),
        ),
{
}

/// The complete transcript is waited for until twelve seconds after the end of the audio.
pub proof fn waiting_ends_after_twelve_seconds(s: RealtimeSession, since_end_ms: u64, r: bool)
    requires
        call_ensures(RealtimeSession::timed_out, (&s, since_end_ms), r),
    ensures
        r <==> s.audio_ended && since_end_ms >= 12 * 1000,
{
}

/// A new session has gathered nothing.
pub proof fn new_session_is_empty(s: RealtimeSession)
    requires
        call_ensures(RealtimeSession::new, (), s),
    ensures
        s.partial@ == Seq::<char>::empty(),
        s.final_text is None,
        !s.audio_ended,
{
    assert(s.partial@ =~= Seq::<char>::empty());
}

/// The last bytes, fewer than three, fill what they need of the last group, the bits that are
/// missing being zeros, and the rest of the group is padding.
pub proof fn base64_pads_the_last_group(bytes: Seq<u8>, g: int, p0: int, p1: int, p2: int)
    requires
        0 <= g,
        3 * g < bytes.len() < 3 * g + 3,
        0 <= p0 < 64,
        0 <= p1 < 64,
        0 <= p2 < 64,
        mistral_realtime::base64_text(bytes)[4 * g]
            == "ABCDEFGHIJKLMNOPQRSTUVWXYZabcdefghijklmnopqrstuvwxyz0123456789+/"@[p0],
        mistral_realtime::base64_text(bytes)[4 * g + 1]
            == "ABCDEFGHIJKLMNOPQRSTUVWXYZabcdefghijklmnopqrstuvwxyz0123456789+/"@[p1],
        bytes.len() == 3 * g + 2 ==> mistral_realtime::base64_text(bytes)[4 * g + 2]
            == "ABCDEFGHIJKLMNOPQRSTUVWXYZabcdefghijklmnopqrstuvwxyz0123456789+/"@[p2],
    ensures
        mistral_realtime::base64_text(bytes).len() == 4 * g + 4,
        mistral_realtime::base64_text(bytes)[4 * g + 3] == '=',
        bytes.len() == 3 * g + 1 ==> mistral_realtime::base64_text(bytes)[4 * g + 2] == '='
            && bytes[3 * g] * 16 == p0 * 64 + p1,
        bytes.len() == 3 * g + 2 ==> (bytes[3 * g] * 256 + bytes[3 * g + 1]) * 4 == p0 * 4096 + p1
            * 64 + p2,
{
    let t = mistral_realtime::base64_text(bytes);
    let (b0, b1) = (bytes[3 * g] as int, mistral_realtime::byte_at(bytes, 3 * g + 1));
    assert((bytes.len() + 2) / 3 == g + 1);
    assert(t.len() == 4 * g + 4);
    assert((4 * g) / 4 == g && (4 * g) % 4 == 0);
    assert((4 * g + 1) / 4 == g && (4 * g + 1) % 4 == 1);
    assert((4 * g + 2) / 4 == g && (4 * g + 2) % 4 == 2);
    assert((4 * g + 3) / 4 == g && (4 * g + 3) % 4 == 3);
    let v0 = mistral_realtime::six_bits(b0, b1, 0, 0);
    let v1 = mistral_realtime::six_bits(b0, b1, 0, 1);
    let v2 = mistral_realtime::six_bits(b0, b1, 0, 2);
    assert(0 <= v0 < 64 && 0 <= v1 < 64 && 0 <= v2 < 64);
    lemma_alphabet(p0, v0);
    lemma_alphabet(p1, v1);
    if bytes.len() == 3 * g + 2 {
        lemma_alphabet(p2, v2);
    }
}

/// The samples of a chunk are written as two bytes each, the low one first, and a chunk can be sent
/// where its text, four characters for every three bytes, can be allocated.
pub proof fn samples_are_written_as_bytes(samples: &Vec<i16>, r: Vec<u8>, n: usize, fits: bool, i: int)
    requires
        call_ensures(mistral_realtime::pcm_to_bytes, (samples,), r),
        call_ensures(mistral_realtime::encodable, (n,), fits),
    ensures
        r@.len() == 2 * samples@.len(),
        0 <= i < samples@.len() ==> (r@[2 * i] + 256 * r@[2 * i + 1] - samples@[i]) % 0x1_0000 == 0,
        fits <==> (2 * n + 2) / 3 * 4 <= isize::MAX,
{
    if 0 <= i < samples@.len() {
        mistral_realtime::bytes_hold_every_sample(samples@, i);
    }
}

} // verus!
