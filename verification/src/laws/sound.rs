//! Laws of the way of the sound: recording, chunks, levels and the volume of other programs.
use vstd::prelude::*;
use vstd::string::*;

use crate::audio::ducking::{
    self, AudioDuckingController, DuckState, SinkStep, VolumeReport,
};
use crate::audio::level_monitor;
use crate::audio::recording::RecordingPhase;
use crate::audio::stream_manager::{AudioStreamManager, RecorderError, RecordingState};
use crate::config;
use crate::json::{self, JsonTree};
use crate::laws::texts;
use crate::streaming::events::StreamEvent;
use crate::streaming::hub::StreamHub;
use crate::streaming::pump::{
    self, AudioPump, AudioPumpConfig, ChunkQueue, PumpStep, SendOutcome, Taken,
};
use crate::streaming::rate::{self, RateConverter};
use crate::text::{self, CharClass};

verus! {

/// The samples of some chunks, one behind the other.
pub open spec fn together(chunks: Seq<Vec<i16>>) -> Seq<i16>
    decreases chunks.len(),
{
    if chunks.len() == 0 {
        Seq::empty()
    } else {
        together(chunks.drop_last()) + chunks.last()@
    }
}

/// The samples of all chunks of some rounds, one behind the other.
pub open spec fn all_sent(steps: Seq<PumpStep>) -> Seq<i16>
    decreases steps.len(),
{
    if steps.len() == 0 {
        Seq::empty()
    } else {
        all_sent(steps.drop_last()) + together(steps.last().chunks@)
    }
}

proof fn lemma_together(chunks: Seq<Vec<i16>>)
    ensures
        together(chunks) == pump::flattened(pump::chunk_views(chunks)),
    decreases chunks.len(),
{
    let v = pump::chunk_views(chunks);
    if chunks.len() > 0 {
        lemma_together(chunks.drop_last());
        assert(v.drop_last() =~= pump::chunk_views(chunks.drop_last()));
        assert(v.last() == chunks.last()@);
    }
}

/// The rounds of a pump follow each other.
proof fn lemma_run(
    config: &AudioPumpConfig,
    hz: u32,
    first: AudioPump,
    pumps: Seq<&mut AudioPump>,
    stops: Seq<bool>,
    rounds: Seq<Vec<i16>>,
    steps: Seq<PumpStep>,
)
    requires
        pumps.len() == stops.len() == rounds.len() == steps.len(),
        pumps.len() > 0,
        call_ensures(AudioPump::new, (config, hz), first),
        *pumps[0] == first,
        forall|i: int|
            0 <= i < pumps.len() ==> #[trigger] call_ensures(
                AudioPump::tick,
                (pumps[i], stops[i], rounds[i]),
                steps[i],
            ),
        forall|i: int|
            #![trigger pumps[i]]
            0 < i < pumps.len() ==> *pumps[i] == *final(pumps[i - 1]),
    ensures
        ({
            let end = *final(pumps.last());
            let run = pump::pumped(
                pump::chunk_views(rounds),
                hz,
                config.sample_rate_hz,
                first.chunk_size,
            );
            &&& end.pending@ == run.waiting
            &&& all_sent(steps) == run.sent
            &&& end.chunk_size == first.chunk_size
            &&& end.grace_rounds == first.grace_rounds
            &&& end.rate.from_hz == hz && end.rate.to_hz == config.sample_rate_hz
            &&& end.rate.at == run.at && end.rate.at >= 0
        }),
    decreases pumps.len(),
{
    let n = pumps.len() - 1;
    let v = pump::chunk_views(rounds);
    assert(call_ensures(AudioPump::tick, (pumps[n], stops[n], rounds[n]), steps[n]));
    assert(v.last() == rounds[n]@);
    assert(v.drop_last() =~= pump::chunk_views(rounds.drop_last()));
    lemma_together(steps[n].chunks@);
    assert(steps.last() == steps[n]);
    assert(pumps.last() == pumps[n]);
    if n == 0 {
        reveal_with_fuel(pump::pumped, 2);
        reveal_with_fuel(all_sent, 2);
        assert(steps.drop_last() =~= Seq::empty());
        assert(v.drop_last() =~= Seq::empty());
        assert(first.pending@ =~= Seq::empty());
    } else {
        let p = pumps.drop_last();
        let s = stops.drop_last();
        let t = rounds.drop_last();
        let u = steps.drop_last();
        assert forall|i: int| 0 <= i < p.len() implies #[trigger] call_ensures(
            AudioPump::tick,
            (p[i], s[i], t[i]),
            u[i],
        ) by {
            assert(call_ensures(AudioPump::tick, (pumps[i], stops[i], rounds[i]), steps[i]));
        }
        assert forall|i: int| #![trigger p[i]] 0 < i < p.len() implies *p[i] == *final(p[i - 1]) by {
            assert(*pumps[i] == *final(pumps[i - 1]));
        }
        lemma_run(config, hz, first, p, s, t, u);
        assert(p.last() == pumps[n - 1]);
        assert(*pumps[n] == *final(pumps[n - 1]));
    }
    pump::pumping_keeps_every_sample(v, hz, config.sample_rate_hz, first.chunk_size);
}

/// Over all rounds, what left the pump in chunks and what waits in it are the recorded samples, one
/// behind the other, at the rate of the provider: as long as what was recorded, up to one sample, and
/// each the sample that was recorded at its time.
pub proof fn sound_reaches_the_provider_whole(
    config: &AudioPumpConfig,
    hz: u32,
    first: AudioPump,
    pumps: Seq<&mut AudioPump>,
    stops: Seq<bool>,
    rounds: Seq<Vec<i16>>,
    steps: Seq<PumpStep>,
    i: int,
)
    requires
        pumps.len() == stops.len() == rounds.len() == steps.len(),
        pumps.len() > 0,
        hz > 0 && config.sample_rate_hz > 0,
        call_ensures(AudioPump::new, (config, hz), first),
        *pumps[0] == first,
        forall|i: int|
            0 <= i < pumps.len() ==> #[trigger] call_ensures(
                AudioPump::tick,
                (pumps[i], stops[i], rounds[i]),
                steps[i],
            ),
        forall|i: int|
            #![trigger pumps[i]]
            0 < i < pumps.len() ==> *pumps[i] == *final(pumps[i - 1]),
    ensures
        ({
            let recorded = together(rounds);
            let out = all_sent(steps) + final(pumps.last()).pending@;
            let to = config.sample_rate_hz;
            &&& recorded.len() * to <= out.len() * hz
            &&& out.len() * hz < recorded.len() * to + hz
            &&& 0 <= i < out.len() ==> 0 <= (i * hz) / (to as int) < recorded.len() && out[i]
                == recorded[(i * hz) / (to as int)]
        }),
{
    lemma_run(config, hz, first, pumps, stops, rounds, steps);
    let v = pump::chunk_views(rounds);
    let to = config.sample_rate_hz;
    lemma_together(rounds);
    pump::pumping_keeps_every_sample(v, hz, to, first.chunk_size);
    let recorded = together(rounds);
    let out = all_sent(steps) + final(pumps.last()).pending@;
    assert(out == rate::at_rate(recorded, hz, to, 0));
    rate::rate_keeps_the_duration(recorded, hz, to);
    if 0 <= i < out.len() {
        rate::rate_picks_what_was_playing(recorded, hz, to, i);
    }
}

/// A chunk holds the samples of its milliseconds, none is longer or shorter, and less than a chunk
/// waits. The pump ends once it was told to and nothing waits, or after so many silent rounds more;
/// a round in which something was recorded starts the count again.
pub proof fn chunks_are_whole(
    config: &AudioPumpConfig,
    hz: u32,
    first: AudioPump,
    p: &mut AudioPump,
    stop: bool,
    samples: Vec<i16>,
    r: PumpStep,
    k: int,
)
    requires
        call_ensures(AudioPump::new, (config, hz), first),
        call_ensures(AudioPump::tick, (p, stop, samples), r),
    ensures
        config.sample_rate_hz * config.chunk_ms / 1000 <= usize::MAX ==> first.chunk_size
            == config.sample_rate_hz * config.chunk_ms / 1000,
        first.pending@.len() == 0 && first.idle_rounds == 0,
        config.silence_timeout_ms / 20 <= usize::MAX ==> first.grace_rounds == (
        if config.silence_timeout_ms / 20 >= 5 {
            config.silence_timeout_ms / 20
        } else {
            5
        }),
        0 <= k < r.chunks@.len() ==> r.chunks@[k]@.len() == old(p).chunk_size,
        old(p).chunk_size > 0 ==> final(p).pending@.len() < old(p).chunk_size,
        old(p).chunk_size == 0 ==> r.chunks@.len() == 0,
        final(p).chunk_size == old(p).chunk_size && final(p).grace_rounds == old(p).grace_rounds,
        samples@.len() > 0 ==> final(p).idle_rounds == 0,
        samples@.len() == 0 && !stop ==> final(p).idle_rounds == old(p).idle_rounds,
        samples@.len() == 0 && stop && old(p).idle_rounds < usize::MAX ==> final(p).idle_rounds
            == old(p).idle_rounds + 1,
        r.done <==> stop && (final(p).pending@.len() == 0 || samples@.len() == 0 && final(
        p).idle_rounds > old(p).grace_rounds),
{
    let (a, b) = (config.sample_rate_hz as int, config.chunk_ms as int);
    assert(0 <= a * b) by (nonlinear_arith)
        requires
            a >= 0,
            b >= 0,
    ;
    let v = pump::chunk_views(r.chunks@);
    assert(v.len() == r.chunks@.len());
    if 0 <= k < v.len() {
        let fed = old(p).fed(samples@);
        let size = old(p).chunk_size as int;
        assert(v[k] == r.chunks@[k]@);
        assert(v[k] == pump::nth_chunk(fed, old(p).chunk_size, k));
        vstd::arithmetic::div_mod::lemma_fundamental_div_mod(fed.len() as int, size);
        assert(0 <= k * size && k * size + size <= fed.len()) by (nonlinear_arith)
            requires
                0 <= k < fed.len() as int / size,
                fed.len() == size * (fed.len() as int / size) + fed.len() as int % size,
                0 <= fed.len() as int % size,
                size > 0,
        ;
    }
}

/// What is left in a pump is handed out whole, if anything is.
pub proof fn rest_is_handed_out(p: AudioPump, r: Option<Vec<i16>>)
    requires
        call_ensures(AudioPump::remainder, (p,), r),
    ensures
        r is Some <==> p.pending@.len() > 0,
        r matches Some(rest) ==> rest@ == p.pending@,
{
}

/// The rate of samples is changed as if they came at once: the parts that two calls give, one behind
/// the other, are what one call gives for both.
pub proof fn rate_is_changed_without_a_seam(
    a: &mut RateConverter,
    b: &mut RateConverter,
    c: &mut RateConverter,
    first: &Vec<i16>,
    second: &Vec<i16>,
    both: &Vec<i16>,
    ra: Vec<i16>,
    rb: Vec<i16>,
    rc: Vec<i16>,
)
    requires
        call_ensures(RateConverter::convert, (a, first), ra),
        call_ensures(RateConverter::convert, (b, second), rb),
        call_ensures(RateConverter::convert, (c, both), rc),
        *old(b) == *final(a),
        *old(c) == *old(a),
        both@ == first@ + second@,
    ensures
        rc@ == ra@ + rb@,
        final(c).at == final(b).at,
        final(c).from_hz == old(a).from_hz && final(c).to_hz == old(a).to_hz,
{
    rate::parts_convert_as_one(
        first@,
        second@,
        old(a).from_hz,
        old(a).to_hz,
        old(a).at as int,
    );
}

/// A new converter keeps the duration of what it converts and picks the samples by their times; at
/// the same rate, or an unknown one, it changes nothing.
pub proof fn rate_is_changed_evenly(
    from_hz: u32,
    to_hz: u32,
    first: RateConverter,
    c: &mut RateConverter,
    samples: &Vec<i16>,
    r: Vec<i16>,
    i: int,
)
    requires
        call_ensures(RateConverter::new, (from_hz, to_hz), first),
        *old(c) == first,
        call_ensures(RateConverter::convert, (c, samples), r),
    ensures
        from_hz == to_hz || from_hz == 0 || to_hz == 0 ==> r@ == samples@,
        from_hz > 0 && to_hz > 0 ==> samples@.len() * to_hz <= r@.len() * from_hz && r@.len()
            * from_hz < samples@.len() * to_hz + from_hz,
        from_hz > 0 && to_hz > 0 && 0 <= i < r@.len() ==> 0 <= (i * from_hz) / (to_hz as int)
            < samples@.len() && r@[i] == samples@[(i * from_hz) / (to_hz as int)],
{
    if from_hz > 0 && to_hz > 0 {
        rate::rate_keeps_the_duration(samples@, from_hz, to_hz);
        if 0 <= i < r@.len() {
            rate::rate_picks_what_was_playing(samples@, from_hz, to_hz, i);
        }
    }
    if from_hz == to_hz {
        rate::same_rate_changes_nothing(samples@, from_hz);
    }
}

/// The same chunks, by their samples.
pub open spec fn same_chunks(a: Seq<Vec<i16>>, b: Seq<Vec<i16>>) -> bool {
    a.len() == b.len() && forall|i: int| 0 <= i < a.len() ==> (#[trigger] a[i])@ == b[i]@
}

proof fn lemma_chunks(q: ChunkQueue)
    ensures
        q@.chunks.len() == q.chunks@.len(),
        forall|i: int| 0 <= i < q.chunks@.len() ==> #[trigger] q@.chunks[i] == q.chunks@[i]@,
        forall|i: int| 0 <= i < q.chunks@.len() ==> q@.chunks[i] == (#[trigger] q.chunks@[i])@,
{
}

/// A chunk that is offered is queued behind all that wait. Where the queue was full, the one that had
/// waited longest is gone, and no other. A queue that nobody empties any more takes nothing.
pub proof fn chunks_are_queued(q: &mut ChunkQueue, chunk: Vec<i16>, r: SendOutcome, i: int)
    requires
        old(q).wf(),
        call_ensures(ChunkQueue::offer, (q, chunk), r),
    ensures
        ({
            let before = old(q).chunks@;
            let after = final(q).chunks@;
            let n = before.len();
            let full = n >= old(q).capacity;
            &&& final(q).capacity == old(q).capacity && final(q).ended == old(q).ended
                && final(q).abandoned == old(q).abandoned
            &&& old(q).abandoned ==> r == SendOutcome::Closed && same_chunks(after, before)
            &&& !old(q).abandoned && !full ==> {
                &&& after.len() == n + 1 && after[n as int]@ == chunk@
                &&& 0 <= i < n ==> after[i]@ == before[i]@
                &&& r matches SendOutcome::Sent { depth } && depth == n + 1
            }
            &&& !old(q).abandoned && full && n > 0 ==> {
                &&& after.len() == n && after[n - 1]@ == chunk@
                &&& 0 <= i < n - 1 ==> after[i]@ == before[i + 1]@
                &&& r matches SendOutcome::Full { depth } && depth == n
            }
            &&& !old(q).abandoned && full && n == 0 ==> after.len() == 0 && (
            r matches SendOutcome::Full { depth } && depth == 0)
        }),
{
    lemma_chunks(*old(q));
    lemma_chunks(*final(q));
    let pushed = old(q)@.chunks.push(chunk@);
    let n = old(q).chunks@.len() as int;
    if 0 <= i < n {
        assert(pushed[i] == old(q)@.chunks[i]);
    }
    if 0 <= i < n - 1 {
        assert(pushed.drop_first()[i] == pushed[i + 1]);
    }
    assert(n > 0 ==> pushed.drop_first()[n - 1] == chunk@);
    assert(pushed[n] == chunk@);
}

/// Chunks are taken in the order in which they wait. Nothing is taken where none waits, and the end
/// is told once no more will come.
pub proof fn chunks_are_taken(
    q: &mut ChunkQueue,
    e: &mut ChunkQueue,
    d: &mut ChunkQueue,
    c: &ChunkQueue,
    capacity: usize,
    fresh: ChunkQueue,
    room: bool,
    r: Taken,
    i: int,
)
    requires
        call_ensures(ChunkQueue::take, (q,), r),
        call_ensures(ChunkQueue::end, (e,), ()),
        call_ensures(ChunkQueue::abandon, (d,), ()),
        call_ensures(ChunkQueue::has_room, (c,), room),
        call_ensures(ChunkQueue::new, (capacity,), fresh),
    ensures
        ({
            let before = old(q).chunks@;
            let after = final(q).chunks@;
            &&& before.len() > 0 ==> (r matches Taken::Chunk(x) && x@ == before[0]@) && after.len()
                == before.len() - 1 && (0 <= i < after.len() ==> after[i]@ == before[i + 1]@)
            &&& before.len() == 0 ==> after.len() == 0 && (r is Ended <==> old(q).ended) && (
            r is Nothing <==> !old(q).ended)
            &&& final(q).capacity == old(q).capacity && final(q).ended == old(q).ended
                && final(q).abandoned == old(q).abandoned
        }),
        final(e).ended && final(e).abandoned == old(e).abandoned && final(e).capacity == old(
        e).capacity && same_chunks(final(e).chunks@, old(e).chunks@),
        final(d).abandoned && final(d).ended == old(d).ended && final(d).capacity == old(d).capacity
            && same_chunks(final(d).chunks@, old(d).chunks@),
        room <==> c.chunks@.len() < c.capacity,
        fresh.capacity == capacity && fresh.chunks@.len() == 0 && !fresh.ended && !fresh.abandoned,
{
    lemma_chunks(*old(q));
    lemma_chunks(*final(q));
    lemma_chunks(*old(e));
    lemma_chunks(*final(e));
    lemma_chunks(*old(d));
    lemma_chunks(*final(d));
    lemma_chunks(*c);
    lemma_chunks(fresh);
    if 0 <= i < old(q).chunks@.len() - 1 {
        assert(old(q)@.chunks.drop_first()[i] == old(q)@.chunks[i + 1]);
    }
}

/// The depth of the queue is noted after each chunk, and a dropped one is counted; every twenty-fifth
/// of them is warned of. Only where nobody takes chunks any more does the pump stop.
pub proof fn dropped_chunks_are_noted(
    h: &mut StreamHub,
    job: &str,
    outcome: SendOutcome,
    r: (Option<StreamEvent>, bool),
)
    requires
        call_ensures(pump::note_send, (h, job, outcome), r),
    ensures
        r.1 <==> outcome != SendOutcome::Closed,
        ({
            let before = old(h).state;
            let after = final(h).state;
            let dropped = outcome is Full;
            &&& dropped && before.dropped_chunks < u64::MAX ==> after.dropped_chunks
                == before.dropped_chunks + 1
            &&& !dropped ==> after.dropped_chunks == before.dropped_chunks
            &&& outcome matches SendOutcome::Sent { depth } ==> after.queue_depth == depth
            &&& outcome matches SendOutcome::Full { depth } ==> after.queue_depth == depth
            &&& outcome is Closed ==> after.queue_depth == before.queue_depth
            &&& r.0 is Some <==> dropped && after.dropped_chunks as int % 25 == 0
            &&& r.0 is None ==> final(h).next_id == old(h).next_id
            &&& r.0 matches Some(e) ==> {
                &&& e.id == old(h).next_id && e.event_type@ == "warning"@
                &&& e.job_id is Some && e.job_id->0@ == job@
                &&& json::json_tree(e.data) == JsonTree::Object(
                    map!["message"@ => JsonTree::Text("Audio chunk dropped due to full queue"@)],
                )
            }
            &&& after.active == before.active && config::opt_view(after.job_id)
                == config::opt_view(before.job_id)
            &&& after.connected_clients == before.connected_clients && after.sessions_started
                == before.sessions_started && after.sessions_stopped == before.sessions_stopped
            &&& after.partial_events == before.partial_events && after.final_events
                == before.final_events && after.error_events == before.error_events
            &&& config::opt_view(after.last_error) == config::opt_view(before.last_error)
        }),
{
    assert(config::opt_view(final(h).state.job_id) == final(h).state@.job_id);
    assert(config::opt_view(final(h).state.last_error) == final(h).state@.last_error);
    assert(config::opt_view(old(h).state.job_id) == old(h).state@.job_id);
    assert(config::opt_view(old(h).state.last_error) == old(h).state@.last_error);
}

/// The level is published where something was recorded and 33 milliseconds have gone by. While
/// nothing is recorded or processed, the newest level is.
pub proof fn levels_are_due(
    since: u64,
    count: usize,
    due: bool,
    phase: RecordingPhase,
    published: bool,
    asked: u16,
    gain: u16,
    before: Option<u64>,
    measured: &Vec<u64>,
    latest: Option<u64>,
)
    requires
        call_ensures(pump::level_due, (since, count), due),
        call_ensures(level_monitor::idle_level_published, (phase,), published),
        call_ensures(level_monitor::input_gain_percent, (asked,), gain),
        call_ensures(level_monitor::latest_level::<u64>, (before, measured), latest),
    ensures
        due <==> count > 0 && since >= 33,
        published <==> phase == RecordingPhase::Idle || phase == RecordingPhase::Error,
        25 <= gain <= 300,
        25 <= asked <= 300 ==> gain == asked,
        asked < 25 ==> gain == 25,
        asked > 300 ==> gain == 300,
        measured@.len() == 0 ==> latest == before,
        measured@.len() > 0 ==> latest == Some(measured@[measured@.len() - 1]),
{
}

/// A recording starts only from rest, without samples of an earlier one; it stops only while it
/// runs. A refusal says why and changes nothing.
pub proof fn recordings_start_and_stop(
    a: &mut AudioStreamManager,
    b: &mut AudioStreamManager,
    c: &mut AudioStreamManager,
    started: Result<(), RecorderError>,
    stopped: Result<(), RecorderError>,
)
    requires
        call_ensures(AudioStreamManager::start_recording, (a,), started),
        call_ensures(AudioStreamManager::recording_started, (b,), ()),
        call_ensures(AudioStreamManager::stop_recording, (c,), stopped),
    ensures
        started is Ok <==> old(a).state == RecordingState::Idle,
        started is Ok ==> final(a).samples@.len() == 0,
        started is Err ==> final(a).samples@ == old(a).samples@,
        old(a).state == RecordingState::Recording ==> started == Err::<(), RecorderError>(
            RecorderError::AlreadyRecording,
        ),
        old(a).state == RecordingState::Stopping ==> started == Err::<(), RecorderError>(
            RecorderError::StillStopping,
        ),
        final(a).state == old(a).state,
        final(b).state == RecordingState::Recording && final(b).samples@ == old(b).samples@,
        stopped is Ok <==> old(c).state == RecordingState::Recording,
        stopped is Ok ==> final(c).state == RecordingState::Stopping,
        stopped is Err ==> final(c).state == old(c).state,
        old(c).state == RecordingState::Idle ==> stopped == Err::<(), RecorderError>(
            RecorderError::NotRecording,
        ),
        old(c).state == RecordingState::Stopping ==> stopped == Err::<(), RecorderError>(
            RecorderError::AlreadyStopping,
        ),
        final(c).samples@ == old(c).samples@,
        same_format(*old(a), *final(a)) && same_format(*old(b), *final(b)) && same_format(
            *old(c),
            *final(c),
        ),
{
    assert(final(a).samples@ == final(a)@.samples && final(b).samples@ == final(b)@.samples
        && final(c).samples@ == final(c)@.samples);
    assert(old(a).samples@ == old(a)@.samples && old(b).samples@ == old(b)@.samples
        && old(c).samples@ == old(c)@.samples);
    assert(final(a).state == final(a)@.state && final(b).state == final(b)@.state && final(c).state
        == final(c)@.state);
}

/// The format of the recordings stays.
pub open spec fn same_format(a: AudioStreamManager, b: AudioStreamManager) -> bool {
    a.sample_rate_hz == b.sample_rate_hz && a.channels == b.channels
}

/// What is captured comes behind what is held, and what is taken is all that is held, which then is
/// nothing. The state stays.
pub proof fn samples_are_held_and_taken(
    a: &mut AudioStreamManager,
    b: &mut AudioStreamManager,
    bits: Vec<u32>,
    r: Vec<u32>,
    hz: u32,
    channels: usize,
    fresh: AudioStreamManager,
    told: u32,
)
    requires
        call_ensures(AudioStreamManager::samples_recorded, (a, bits), ()),
        call_ensures(AudioStreamManager::drain_samples, (b,), r),
        call_ensures(AudioStreamManager::new, (hz, channels), fresh),
        call_ensures(AudioStreamManager::sample_rate_hz, (&fresh,), told),
    ensures
        final(a).samples@ == old(a).samples@ + bits@ && final(a).state == old(a).state,
        r@ == old(b).samples@ && final(b).samples@.len() == 0 && final(b).state == old(b).state,
        same_format(*old(a), *final(a)) && same_format(*old(b), *final(b)),
        fresh.state == RecordingState::Idle && fresh.samples@.len() == 0 && fresh.sample_rate_hz
            == hz && fresh.channels == channels && told == hz,
{
    assert(final(a).samples@ == final(a)@.samples && final(b).samples@ == final(b)@.samples);
    assert(old(a).samples@ == old(a)@.samples && old(b).samples@ == old(b)@.samples);
    assert(fresh.samples@ == fresh@.samples);
    assert(final(a).state == final(a)@.state && final(b).state == final(b)@.state && fresh.state
        == fresh@.state);
}

/// A recording that was stopped hands out all it holds, and still holds it, until it has ended; then
/// the recorder is at rest and holds nothing. Without samples it is at rest at once, and that is
/// told. Discarding stops a recording that runs, and nothing else.
pub proof fn recordings_end(
    a: &mut AudioStreamManager,
    b: &mut AudioStreamManager,
    c: &mut AudioStreamManager,
    r: Result<Vec<u32>, RecorderError>,
    stops: bool,
)
    requires
        call_ensures(AudioStreamManager::samples_captured, (a,), r),
        call_ensures(AudioStreamManager::recording_ended, (b,), ()),
        call_ensures(AudioStreamManager::stop_recording_discard, (c,), stops),
    ensures
        old(a).samples@.len() == 0 ==> (r matches Err(e) && e == RecorderError::NoSamples)
            && final(a).state == RecordingState::Idle && final(a).samples@.len() == 0,
        old(a).samples@.len() > 0 ==> (r matches Ok(s) && s@ == old(a).samples@) && final(a).state
            == old(a).state && final(a).samples@ == old(a).samples@,
        final(b).state == RecordingState::Idle && final(b).samples@.len() == 0,
        stops <==> old(c).state == RecordingState::Recording,
        stops ==> final(c).state == RecordingState::Stopping,
        !stops ==> final(c).state == old(c).state,
        final(c).samples@ == old(c).samples@,
        same_format(*old(a), *final(a)) && same_format(*old(b), *final(b)) && same_format(
            *old(c),
            *final(c),
        ),
{
    assert(final(a).samples@ == final(a)@.samples && final(b).samples@ == final(b)@.samples
        && final(c).samples@ == final(c)@.samples);
    assert(old(a).samples@ == old(a)@.samples && old(b).samples@ == old(b)@.samples
        && old(c).samples@ == old(c)@.samples);
    assert(final(a).state == final(a)@.state && final(b).state == final(b)@.state && final(c).state
        == final(c)@.state);
}

/// The messages of the recorder.
pub proof fn recorder_errors_are_told(e: RecorderError, r: String)
    requires
        call_ensures(RecorderError::message, (e,), r),
    ensures
        e == RecorderError::AlreadyRecording ==> r@ == "Recording already in progress"@,
        e == RecorderError::StillStopping ==> r@ == "Previous recording still stopping"@,
        e == RecorderError::NotRecording ==> r@ == "No recording in progress"@,
        e == RecorderError::AlreadyStopping ==> r@ == "Recording already stopping"@,
        e == RecorderError::NoSamples ==> r@ == "No audio samples recorded"@,
{
}

/// The volume is lowered where that is switched on and it is not lowered already, to the percentage
/// that was set, within 5 and 95. What it was is remembered until it is restored, and is restored
/// once.
pub proof fn volume_is_lowered_and_restored(
    enabled: bool,
    percent: u8,
    fresh: AudioDuckingController,
    c: &AudioDuckingController,
    lower: Option<u8>,
    a: &mut AudioDuckingController,
    bits: u32,
    muted: bool,
    b: &mut AudioDuckingController,
    back: Option<DuckState>,
    level: u8,
)
    requires
        call_ensures(AudioDuckingController::new, (enabled, percent), fresh),
        call_ensures(ducking::clamp_duck_level, (percent,), level),
        call_ensures(AudioDuckingController::activate, (c,), lower),
        call_ensures(AudioDuckingController::ducked, (a, bits, muted), ()),
        call_ensures(AudioDuckingController::restore, (b,), back),
    ensures
        5 <= level <= 95,
        5 <= percent <= 95 ==> level == percent,
        percent < 5 ==> level == 5,
        percent > 95 ==> level == 95,
        fresh.enabled == enabled && fresh.duck_percent == level && fresh.state is None,
        lower is Some <==> c.enabled && !(c.state is Some && c.state->0.active),
        lower matches Some(p) ==> p == c.duck_percent,
        final(a).state is Some && final(a).state->0.active && final(a).state->0.previous_volume_bits
            == bits && final(a).state->0.previous_muted == muted,
        final(a).enabled == old(a).enabled && final(a).duck_percent == old(a).duck_percent,
        old(b).enabled ==> back == old(b).state && final(b).state is None,
        !old(b).enabled ==> back is None && final(b).state == old(b).state,
        final(b).enabled == old(b).enabled && final(b).duck_percent == old(b).duck_percent,
{
}

/// Lowering sets the volume alone, and only where it differs. Restoring sets the volume where it
/// differs, to the one that was remembered, and the mute switch where it differs, to what it was.
pub proof fn only_what_differs_is_set(
    target: u32,
    differs: bool,
    lowered: Vec<SinkStep>,
    state: DuckState,
    muted: bool,
    restored: Vec<SinkStep>,
)
    requires
        call_ensures(ducking::duck_default_sink, (target, differs), lowered),
        call_ensures(ducking::restore_default_sink, (state, differs, muted), restored),
    ensures
        !differs ==> lowered@.len() == 0,
        differs ==> lowered@.len() == 1 && lowered@[0] == SinkStep::SetVolume(target),
        ({
            let switches = muted != state.previous_muted;
            let v = if differs {
                1int
            } else {
                0int
            };
            let m = if switches {
                1int
            } else {
                0int
            };
            &&& restored@.len() == v + m
            &&& differs ==> restored@[0] == SinkStep::SetVolume(state.previous_volume_bits)
            &&& switches ==> restored@[v] == SinkStep::SetMute(state.previous_muted)
        }),
{
}

/// The words of a report that may hold its number: each word without the characters at its ends that
/// are neither digits nor points, unless nothing is left of it.
pub open spec fn is_number_text(word: Seq<char>, number: Seq<char>) -> bool {
    exists|from: int, to: int|
        0 <= from < to <= word.len() && number == #[trigger] word.subrange(from, to) && in_decimal(
            word[from],
        ) && in_decimal(word[to - 1]) && forall|i: int|
            0 <= i < from || to <= i < word.len() ==> !in_decimal(#[trigger] word[i])
}

/// A digit or a point.
pub open spec fn in_decimal(c: char) -> bool {
    '0' <= c <= '9' || c == '.'
}

proof fn lemma_number_text(word: Seq<char>)
    ensures
        ({
            let cleaned = text::trim_class(word, CharClass::NotInDecimal);
            &&& cleaned.len() > 0 ==> is_number_text(word, cleaned)
            &&& cleaned.len() == 0 ==> forall|i: int|
                0 <= i < word.len() ==> !in_decimal(#[trigger] word[i])
        }),
{
    let k = CharClass::NotInDecimal;
    let t = text::trim_start_class(word, k);
    let cleaned = text::trim_class(word, k);
    texts::lemma_start(word, k);
    texts::lemma_end(t, k);
    let from = word.len() - t.len();
    let to = from + cleaned.len();
    assert(cleaned =~= word.subrange(from, to));
    assert forall|i: int| 0 <= i < from || to <= i < word.len() implies !in_decimal(
        #[trigger] word[i],
    ) by {
        if i < from {
            assert(k.has(word[i]));
        } else {
            assert(t[i - from] == word[i]);
            assert(k.has(t[i - from]));
        }
    }
    if cleaned.len() > 0 {
        assert(t[0] == word[from]);
        assert(t[cleaned.len() - 1] == word[to - 1]);
        assert(!k.has(word[from]));
        assert(!k.has(t[cleaned.len() - 1]));
    }
}

/// The report of a volume says that the sound is muted where it holds the mark for that, in any case;
/// its first word with a digit or a point gives the first text that may be the volume.
pub proof fn volume_report_is_read(
    output: &str,
    low: Seq<char>,
    words: Vec<String>,
    r: VolumeReport,
    first: int,
)
    requires
        call_ensures(ducking::parse_wpctl_volume, (output,), r),
        call_ensures(text::words, (output,), words),
        texts::is_lower(output@, low),
        0 <= first <= words@.len(),
        forall|i: int, j: int|
            0 <= i < first && 0 <= j < words@[i]@.len() ==> !in_decimal(#[trigger] words@[i]@[j]),
    ensures
        r.muted <==> texts::holds(low, "[muted]"@),
        first == words@.len() ==> r.candidates@.len() == 0,
        first < words@.len() && (exists|j: int|
            0 <= j < words@[first]@.len() && in_decimal(#[trigger] words@[first]@[j]))
            ==> r.candidates@.len() > 0 && is_number_text(words@[first]@, r.candidates@[0]@),
{
    texts::lemma_lowered(output@);
    texts::lower_is_unique(output@, low, text::lowered(output@));
    texts::lemma_holds(low, "[muted]"@);
    let all = text::views(words@);
    let c = text::views(r.candidates@);
    assert(c.len() == r.candidates@.len());
    assert forall|i: int, j: int| 0 <= i < first && 0 <= j < all[i].len() implies !in_decimal(
        #[trigger] all[i][j],
    ) by {
        assert(!in_decimal(words@[i]@[j]));
    }
    lemma_candidates(all, first);
    assert(c.len() > 0 ==> c[0] == r.candidates@[0]@);
    if first < words@.len() {
        assert(all[first] == words@[first]@);
        lemma_number_text(all[first]);
    }
}

/// One more word in a report adds the text that it may hold the volume as, behind the others.
pub proof fn volume_report_grows_by_words(
    a: &str,
    b: &str,
    wa: Vec<String>,
    wb: Vec<String>,
    ra: VolumeReport,
    rb: VolumeReport,
    word: Seq<char>,
)
    requires
        call_ensures(ducking::parse_wpctl_volume, (a,), ra),
        call_ensures(ducking::parse_wpctl_volume, (b,), rb),
        call_ensures(text::words, (a,), wa),
        call_ensures(text::words, (b,), wb),
        text::views(wb@) == text::views(wa@).push(word),
    ensures
        (forall|j: int| 0 <= j < word.len() ==> !in_decimal(#[trigger] word[j])) ==> text::views(
            rb.candidates@,
        ) == text::views(ra.candidates@),
        (exists|j: int| 0 <= j < word.len() && in_decimal(#[trigger] word[j])) ==> exists|
            number: Seq<char>,
        | #[trigger]
            is_number_text(word, number) && text::views(rb.candidates@) == text::views(
                ra.candidates@,
            ).push(number),
{
    let v = text::views(wb@);
    assert(v.drop_last() =~= text::views(wa@));
    assert(v.last() == word);
    lemma_number_text(word);
    let cleaned = text::trim_class(word, CharClass::NotInDecimal);
    if cleaned.len() > 0 {
        assert(is_number_text(word, cleaned));
        let (from, to) = choose|from: int, to: int|
            0 <= from < to <= word.len() && cleaned == #[trigger] word.subrange(from, to)
                && in_decimal(word[from]) && in_decimal(word[to - 1]) && forall|i: int|
                0 <= i < from || to <= i < word.len() ==> !in_decimal(#[trigger] word[i]);
        assert(in_decimal(word[from]));
    }
}

proof fn lemma_candidates(words: Seq<Seq<char>>, first: int)
    requires
        0 <= first <= words.len(),
        forall|i: int, j: int|
            0 <= i < first && 0 <= j < words[i].len() ==> !in_decimal(#[trigger] words[i][j]),
    ensures
        first == words.len() ==> ducking::number_texts(words).len() == 0,
        first < words.len() && text::trim_class(words[first], CharClass::NotInDecimal).len() > 0
            ==> ducking::number_texts(words).len() > 0 && ducking::number_texts(words)[0]
            == text::trim_class(words[first], CharClass::NotInDecimal),
    decreases words.len(),
{
    if words.len() > 0 {
        let shorter = words.drop_last();
        let last = text::trim_class(words.last(), CharClass::NotInDecimal);
        lemma_number_text(words.last());
        let n = words.len() - 1;
        assert forall|i: int, j: int| 0 <= i < first && i < n && 0 <= j < shorter[i].len() implies !in_decimal(
            #[trigger] shorter[i][j],
        ) by {
            assert(!in_decimal(words[i][j]));
        }
        if first <= n {
            lemma_candidates(shorter, first);
        } else {
            lemma_candidates(shorter, n);
            if last.len() > 0 {
                let (from, to) = choose|from: int, to: int|
                    0 <= from < to <= words[n].len() && last == #[trigger] words[n].subrange(
                        from,
                        to,
                    ) && in_decimal(words[n][from]) && in_decimal(words[n][to - 1]) && forall|
                        i: int,
                    |
                        0 <= i < from || to <= i < words[n].len() ==> !in_decimal(
                            #[trigger] words[n][i],
                        );
                assert(!in_decimal(words[n][from]));
            }
        }
    }
}

} // verus!
