//! The audio pump: it brings the samples of the recorder to the rate of the provider, cuts them into
//! chunks and queues these.
use std::collections::VecDeque;

use vstd::prelude::*;
use vstd::string::*;

use crate::streaming::events::StreamEvent;
use crate::streaming::events;
use crate::streaming::hub::{self, StatusView, StreamHub};
use crate::streaming::rate::{self, RateConverter};

verus! {

/// How the samples are cut and how long the pump waits for more.
#[derive(Debug, Clone, Copy)]
pub struct AudioPumpConfig {
    pub sample_rate_hz: u32,
    pub chunk_ms: u32,
    pub max_chunks: usize,
    pub silence_timeout_ms: u64,
}

/// The samples of a chunk, as many as fit into a machine word.
pub open spec fn chunk_samples(sample_rate_hz: u32, chunk_ms: u32) -> usize {
    ((sample_rate_hz as int * chunk_ms as int) / 1000) as usize
}

/// The silent rounds that the pump waits through after it was told to stop.
pub open spec fn grace_rounds(silence_timeout_ms: u64) -> usize {
    (if silence_timeout_ms / 20 >= 5 {
        silence_timeout_ms / 20
    } else {
        5
    }) as usize
}

/// How many whole chunks can be cut from `fed`.
pub open spec fn chunk_count(fed: Seq<i16>, chunk_size: usize) -> int {
    if chunk_size > 0 {
        fed.len() as int / chunk_size as int
    } else {
        0
    }
}

/// The `i`-th chunk cut from `fed`.
pub open spec fn nth_chunk(fed: Seq<i16>, chunk_size: usize, i: int) -> Seq<i16> {
    fed.subrange(i * chunk_size, i * chunk_size + chunk_size)
}

/// All whole chunks that can be cut from `fed`.
pub open spec fn chunks_of(fed: Seq<i16>, chunk_size: usize) -> Seq<Seq<i16>> {
    Seq::new(chunk_count(fed, chunk_size) as nat, |i: int| nth_chunk(fed, chunk_size, i))
}

/// What is left of `fed` after the whole chunks were cut.
pub open spec fn rest_of(fed: Seq<i16>, chunk_size: usize) -> Seq<i16> {
    fed.skip(chunk_count(fed, chunk_size) * chunk_size)
}

/// The contents of each chunk.
pub open spec fn chunk_views(chunks: Seq<Vec<i16>>) -> Seq<Seq<i16>> {
    Seq::new(chunks.len(), |i: int| chunks[i]@)
}

/// What one round of the pump gives: the chunks to be queued, and whether it was the last.
pub struct PumpStep {
    pub chunks: Vec<Vec<i16>>,
    pub done: bool,
}

/// The samples that wait to fill a chunk, and the silent rounds since the pump was told to stop.
pub struct AudioPump {
    pub rate: RateConverter,
    pub chunk_size: usize,
    pub grace_rounds: usize,
    pub pending: Vec<i16>,
    pub idle_rounds: usize,
}

proof fn lemma_count_step(done: int, chunk_size: int, len: int)
    requires
        chunk_size > 0,
        done >= 0,
        done * chunk_size <= len,
    ensures
        (done + 1) * chunk_size <= len ==> done < len / chunk_size,
        (done + 1) * chunk_size > len ==> done == len / chunk_size,
        (done + 1) * chunk_size == done * chunk_size + chunk_size,
{
    assert((done + 1) * chunk_size == done * chunk_size + chunk_size) by (nonlinear_arith);
    vstd::arithmetic::div_mod::lemma_fundamental_div_mod(len, chunk_size);
    let q = len / chunk_size;
    let m = len % chunk_size;
    assert(len == chunk_size * q + m && 0 <= m < chunk_size);
    if (done + 1) * chunk_size <= len {
        assert(done < q) by (nonlinear_arith)
            requires
                len == chunk_size * q + m,
                0 <= m < chunk_size,
                (done + 1) * chunk_size <= len,
        ;
    } else {
        assert(done == q) by (nonlinear_arith)
            requires
                len == chunk_size * q + m,
                0 <= m < chunk_size,
                (done + 1) * chunk_size > len,
                done * chunk_size <= len,
        ;
    }
}

impl AudioPump {
    /// Less than a whole chunk waits.
    pub open spec fn wf(self) -> bool {
        &&& self.chunk_size > 0 ==> self.pending@.len() < self.chunk_size
        &&& self.rate.wf()
    }

    /// All that waits or is cut after these samples of the recorder: they are brought to the rate of
    /// the provider first.
    pub open spec fn fed(self, samples: Seq<i16>) -> Seq<i16> {
        self.pending@ + rate::at_rate(
            samples,
            self.rate.from_hz,
            self.rate.to_hz,
            self.rate.at as int,
        )
    }

    /// A pump with nothing waiting, for a recorder that takes so many samples per second.
    pub fn new(config: &AudioPumpConfig, recorder_rate_hz: u32) -> (r: AudioPump)
        ensures
            r.wf(),
            r.rate == (RateConverter {
                from_hz: recorder_rate_hz,
                to_hz: config.sample_rate_hz,
                at: 0,
            }),
            r.chunk_size == chunk_samples(config.sample_rate_hz, config.chunk_ms),
            r.grace_rounds == grace_rounds(config.silence_timeout_ms),
            r.pending@.len() == 0,
            r.idle_rounds == 0,
    {
        let rate: u64 = config.sample_rate_hz as u64;
        let ms: u64 = config.chunk_ms as u64;
        assert(rate * ms <= u64::MAX) by (nonlinear_arith)
            requires
                rate <= 0xffff_ffff,
                ms <= 0xffff_ffff,
        ;
        let chunk_size: usize = (rate * ms / 1000) as usize;
        let rounds: u64 = config.silence_timeout_ms / 20;
        let grace: u64 = if rounds >= 5 {
            rounds
        } else {
            5
        };
        AudioPump {
            rate: RateConverter::new(recorder_rate_hz, config.sample_rate_hz),
            chunk_size,
            grace_rounds: grace as usize,
            pending: Vec::new(),
            idle_rounds: 0,
        }
    }

    /// One round: takes the samples that were recorded since the last one. Silent rounds are
    /// counted once the pump was told to stop; the pump is done when nothing waits any more or
    /// when it has waited long enough for the rest of a chunk.
    pub fn tick(&mut self, should_stop: bool, samples: Vec<i16>) -> (r: PumpStep)
        requires
            old(self).wf(),
        ensures
            final(self).wf(),
            final(self).rate == (RateConverter {
                at: rate::at_after(
                    samples@.len(),
                    old(self).rate.from_hz,
                    old(self).rate.to_hz,
                    old(self).rate.at as int,
                ) as u64,
                ..old(self).rate
            }),
            final(self).rate.at == rate::at_after(
                samples@.len(),
                old(self).rate.from_hz,
                old(self).rate.to_hz,
                old(self).rate.at as int,
            ),
            final(self).chunk_size == old(self).chunk_size,
            final(self).grace_rounds == old(self).grace_rounds,
            chunk_views(r.chunks@) == chunks_of(old(self).fed(samples@), old(self).chunk_size),
            final(self).pending@ == rest_of(old(self).fed(samples@), old(self).chunk_size),
            final(self).idle_rounds == (if samples@.len() > 0 {
                0
            } else if should_stop && old(self).idle_rounds < usize::MAX {
                (old(self).idle_rounds + 1) as usize
            } else {
                old(self).idle_rounds
            }),
            r.done == (should_stop && (final(self).pending@.len() == 0 || (samples@.len() == 0
                && final(self).idle_rounds > old(self).grace_rounds))),
    {
        let ghost fed = self.fed(samples@);
        let silent = samples.len() == 0;
        if silent {
            if should_stop {
                self.idle_rounds = self.idle_rounds.saturating_add(1);
            }
        } else {
            self.idle_rounds = 0;
        }
        let converted = self.rate.convert(&samples);
        let mut waiting: Vec<i16> = Vec::new();
        let mut buffer: Vec<i16> = Vec::new();
        std::mem::swap(&mut buffer, &mut self.pending);
        let mut i: usize = 0;
        while i < converted.len()
            invariant
                i <= converted@.len(),
                buffer@ == old(self).pending@ + converted@.take(i as int),
            decreases converted@.len() - i,
        {
            buffer.push(converted[i]);
            assert(converted@.take(i + 1) == converted@.take(i as int).push(converted@[i as int]));
            i += 1;
        }
        assert(buffer@ =~= fed);
        let total: usize = buffer.len();
        let size: usize = self.chunk_size;
        let mut chunks: Vec<Vec<i16>> = Vec::new();
        let mut at: usize = 0;
        let ghost mut done: int = 0;
        while size > 0 && total - at >= size
            invariant
                total == buffer@.len(),
                buffer@ == fed,
                at <= total,
                at == done * size,
                done >= 0,
                size == 0 ==> done == 0,
                done == chunks@.len(),
                forall|k: int|
                    0 <= k < done ==> (#[trigger] chunks@[k])@ == nth_chunk(fed, size, k),
            decreases total - at,
        {
            let mut chunk: Vec<i16> = Vec::new();
            let mut j: usize = 0;
            while j < size
                invariant
                    j <= size,
                    at + size <= total,
                    total == buffer@.len(),
                    chunk@ == buffer@.subrange(at as int, at + j),
                decreases size - j,
            {
                chunk.push(buffer[at + j]);
                assert(buffer@.subrange(at as int, at + j + 1) == buffer@.subrange(
                    at as int,
                    at + j,
                ).push(buffer@[at + j]));
                j += 1;
            }
            chunks.push(chunk);
            proof {
                lemma_count_step(done, size as int, total as int);
                done = done + 1;
            }
            at += size;
        }
        proof {
            if size > 0 {
                lemma_count_step(done, size as int, total as int);
            }
            assert(done == chunk_count(fed, size));
            assert(chunk_views(chunks@) =~= chunks_of(fed, size));
        }
        let mut k: usize = at;
        while k < total
            invariant
                at <= k <= total,
                total == buffer@.len(),
                waiting@ == buffer@.subrange(at as int, k as int),
            decreases total - k,
        {
            waiting.push(buffer[k]);
            assert(buffer@.subrange(at as int, k + 1) == buffer@.subrange(at as int, k as int).push(
                buffer@[k as int],
            ));
            k += 1;
        }
        assert(waiting@ =~= rest_of(fed, size));
        self.pending = waiting;
        let empty = self.pending.len() == 0;
        let done_now = should_stop && (empty || (silent && self.idle_rounds > self.grace_rounds));
        PumpStep { chunks, done: done_now }
    }

    /// What is left when the pump has ended, if anything is.
    pub fn remainder(self) -> (r: Option<Vec<i16>>)
        ensures
            match r {
                Some(rest) => rest@ == self.pending@ && rest@.len() > 0,
                None => self.pending@.len() == 0,
            },
    {
        if self.pending.len() == 0 {
            None
        } else {
            Some(self.pending)
        }
    }
}

/// What became of a chunk that was offered to the queue.
#[derive(Debug, Clone, Copy, PartialEq, Eq, Structural)]
pub enum SendOutcome {
    /// It is queued; so many chunks wait now.
    Sent { depth: usize },
    /// The queue was full. The chunk that had waited longest was dropped, and this one is queued;
    /// so many chunks wait now.
    Full { depth: usize },
    /// Nobody takes chunks any more.
    Closed,
}

/// What the taker of chunks gets.
#[derive(Debug)]
pub enum Taken {
    /// The chunk that has waited longest.
    Chunk(Vec<i16>),
    /// Nothing waits now, but more may come.
    Nothing,
    /// Nothing waits, and nothing will come.
    Ended,
}

/// The chunks that wait to be sent, the oldest first. `ended` says that no more will be offered,
/// `abandoned` that no more will be taken.
#[derive(Debug)]
pub struct ChunkQueue {
    pub capacity: usize,
    pub chunks: VecDeque<Vec<i16>>,
    pub ended: bool,
    pub abandoned: bool,
}

/// A queue, by the samples of its chunks.
#[verifier::ext_equal]
pub struct QueueView {
    pub capacity: usize,
    pub chunks: Seq<Seq<i16>>,
    pub ended: bool,
    pub abandoned: bool,
}

impl View for ChunkQueue {
    type V = QueueView;

    open spec fn view(&self) -> QueueView {
        QueueView {
            capacity: self.capacity,
            chunks: chunk_views(self.chunks@),
            ended: self.ended,
            abandoned: self.abandoned,
        }
    }
}

/// A chunk that is offered makes the queue overflow.
pub open spec fn overflows(q: QueueView) -> bool {
    q.chunks.len() >= q.capacity
}

/// The queue after a chunk was offered: the chunk stands at the end, and where the queue was full,
/// the oldest chunk is gone.
pub open spec fn offered(q: QueueView, chunk: Seq<i16>) -> QueueView {
    if q.abandoned {
        q
    } else if overflows(q) {
        QueueView { chunks: q.chunks.push(chunk).drop_first(), ..q }
    } else {
        QueueView { chunks: q.chunks.push(chunk), ..q }
    }
}

/// The queue after its oldest chunk was taken, if there is one.
pub open spec fn taken(q: QueueView) -> QueueView {
    if q.chunks.len() > 0 {
        QueueView { chunks: q.chunks.drop_first(), ..q }
    } else {
        q
    }
}

impl ChunkQueue {
    /// No more chunks wait than the queue holds.
    pub open spec fn wf(self) -> bool {
        self.chunks@.len() <= self.capacity
    }

    /// A queue in which nothing waits.
    pub fn new(capacity: usize) -> (r: ChunkQueue)
        ensures
            r@ == (QueueView {
                capacity,
                chunks: Seq::empty(),
                ended: false,
                abandoned: false,
            }),
            r.wf(),
    {
        let r = ChunkQueue { capacity, chunks: VecDeque::new(), ended: false, abandoned: false };
        assert(r@.chunks =~= Seq::empty());
        r
    }

    /// Offers a chunk. It never waits: a full queue drops its oldest chunk.
    pub fn offer(&mut self, chunk: Vec<i16>) -> (r: SendOutcome)
        requires
            old(self).wf(),
        ensures
            final(self)@ == offered(old(self)@, chunk@),
            final(self).wf(),
            r == (if old(self).abandoned {
                SendOutcome::Closed
            } else if overflows(old(self)@) {
                SendOutcome::Full { depth: final(self).chunks@.len() as usize }
            } else {
                SendOutcome::Sent { depth: final(self).chunks@.len() as usize }
            }),
    {
        if self.abandoned {
            return SendOutcome::Closed;
        }
        let full = self.chunks.len() >= self.capacity;
        let ghost before = self.chunks@;
        self.chunks.push_back(chunk);
        assert(chunk_views(self.chunks@) =~= chunk_views(before).push(chunk@));
        if full {
            let ghost more = self.chunks@;
            let _ = self.chunks.pop_front();
            assert(chunk_views(self.chunks@) =~= chunk_views(more).drop_first());
            SendOutcome::Full { depth: self.chunks.len() }
        } else {
            SendOutcome::Sent { depth: self.chunks.len() }
        }
    }

    /// Whether a chunk can be offered without an older one being dropped.
    pub fn has_room(&self) -> (r: bool)
        ensures
            r == !overflows(self@),
    {
        self.chunks.len() < self.capacity
    }

    /// Takes the oldest chunk.
    pub fn take(&mut self) -> (r: Taken)
        ensures
            final(self)@ == taken(old(self)@),
            old(self).wf() ==> final(self).wf(),
            if old(self)@.chunks.len() > 0 {
                r matches Taken::Chunk(c) && c@ == old(self)@.chunks[0]
            } else if old(self).ended {
                r == Taken::Ended
            } else {
                r == Taken::Nothing
            },
    {
        let ghost before = self.chunks@;
        match self.chunks.pop_front() {
            Some(chunk) => {
                assert(chunk_views(self.chunks@) =~= chunk_views(before).drop_first());
                Taken::Chunk(chunk)
            },
            None => if self.ended {
                Taken::Ended
            } else {
                Taken::Nothing
            },
        }
    }

    /// No more chunks will be offered. Those that wait can still be taken.
    pub fn end(&mut self)
        ensures
            final(self)@ == (QueueView { ended: true, ..old(self)@ }),
            old(self).wf() ==> final(self).wf(),
    {
        self.ended = true;
    }

    /// No more chunks will be taken.
    pub fn abandon(&mut self)
        ensures
            final(self)@ == (QueueView { abandoned: true, ..old(self)@ }),
            old(self).wf() ==> final(self).wf(),
    {
        self.abandoned = true;
    }
}

/// How many dropped chunks there are to a warning.
pub const DROPS_PER_WARNING: u64 = 25;

/// The status after a chunk was offered.
pub open spec fn status_after_send(v: StatusView, outcome: SendOutcome) -> StatusView {
    match outcome {
        SendOutcome::Sent { depth } => StatusView { queue_depth: depth, ..v },
        SendOutcome::Full { depth } => StatusView {
            queue_depth: depth,
            dropped_chunks: hub::counted(v.dropped_chunks),
            ..v
        },
        SendOutcome::Closed => v,
    }
}

/// A warning is published after a chunk was offered: on every twenty-fifth dropped chunk.
pub open spec fn warns(v: StatusView, outcome: SendOutcome) -> bool {
    outcome is Full && hub::counted(v.dropped_chunks) % DROPS_PER_WARNING == 0
}

/// Notes in the hub what became of a chunk. Gives the event to be published, if any, and whether
/// the pump goes on.
pub fn note_send(hub: &mut StreamHub, job_id: &str, outcome: SendOutcome) -> (r: (
    Option<StreamEvent>,
    bool,
))
    ensures
        final(hub).state@ == status_after_send(old(hub).state@, outcome),
        r.1 == !(outcome is Closed),
        r.0 is Some == warns(old(hub).state@, outcome),
        match r.0 {
            Some(e) => events::is_event(
                e,
                old(hub).next_id,
                "warning"@,
                Some(job_id@),
                hub::message_tree("Audio chunk dropped due to full queue"@),
            ) && final(hub).next_id == hub::following(old(hub).next_id),
            None => final(hub).next_id == old(hub).next_id,
        },
        old(hub).wf() ==> final(hub).wf(),
{
    match outcome {
        SendOutcome::Sent { depth } => {
            hub.set_queue_depth(depth);
            (None, true)
        },
        SendOutcome::Full { depth } => {
            hub.set_queue_depth(depth);
            hub.increment_dropped_chunks();
            if hub.state.dropped_chunks % DROPS_PER_WARNING == 0 {
                let event = hub.warning(Some(job_id), "Audio chunk dropped due to full queue");
                (Some(event), true)
            } else {
                (None, true)
            }
        },
        SendOutcome::Closed => (None, false),
    }
}

/// An overflow loses the oldest chunk and nothing else: what waited before, from the second chunk
/// on, and then the new chunk wait now, as many as before.
pub proof fn overflow_drops_the_oldest(q: QueueView, chunk: Seq<i16>)
    requires
        !q.abandoned,
        overflows(q),
        q.chunks.len() > 0,
    ensures
        offered(q, chunk).chunks == q.chunks.drop_first().push(chunk),
        offered(q, chunk).chunks.len() == q.chunks.len(),
{
    assert(q.chunks.push(chunk).drop_first() =~= q.chunks.drop_first().push(chunk));
}

/// Chunks are taken in the order in which they were offered: a chunk that is offered to a queue with
/// room is taken after all that waited before it.
pub proof fn chunks_keep_their_order(q: QueueView, chunk: Seq<i16>)
    requires
        !q.abandoned,
        !overflows(q),
    ensures
        q.chunks.len() > 0 ==> offered(q, chunk).chunks[0] == q.chunks[0] && taken(
            offered(q, chunk),
        ).chunks == taken(q).chunks.push(chunk),
        q.chunks.len() == 0 ==> offered(q, chunk).chunks == seq![chunk],
{
    if q.chunks.len() > 0 {
        assert(q.chunks.push(chunk).drop_first() =~= q.chunks.drop_first().push(chunk));
    } else {
        assert(q.chunks.push(chunk) =~= seq![chunk]);
    }
}

/// Whether the sound level is to be published: there are samples, and the last time is long
/// enough ago.
pub fn level_due(since_last_ms: u64, sample_count: usize) -> (r: bool)
    ensures
        r == (sample_count > 0 && since_last_ms >= 33),
{
    sample_count > 0 && since_last_ms >= 33
}

/// All samples of some chunks, in order.
pub open spec fn flattened(chunks: Seq<Seq<i16>>) -> Seq<i16>
    decreases chunks.len(),
{
    if chunks.len() == 0 {
        Seq::empty()
    } else {
        flattened(chunks.drop_last()) + chunks.last()
    }
}

proof fn lemma_flat_prefix(fed: Seq<i16>, chunk_size: usize, n: nat)
    requires
        chunk_size > 0,
        n * chunk_size <= fed.len(),
    ensures
        flattened(Seq::new(n, |i: int| nth_chunk(fed, chunk_size, i))) == fed.take(
            (n * chunk_size) as int,
        ),
    decreases n,
{
    let all = Seq::new(n, |i: int| nth_chunk(fed, chunk_size, i));
    if n == 0 {
        assert(fed.take(0) =~= Seq::<i16>::empty());
        assert(0 * chunk_size == 0);
    } else {
        let m = (n - 1) as nat;
        assert(n * chunk_size == m * chunk_size + chunk_size) by (nonlinear_arith)
            requires
                n == m + 1,
        ;
        lemma_flat_prefix(fed, chunk_size, m);
        assert(all.drop_last() =~= Seq::new(m, |i: int| nth_chunk(fed, chunk_size, i)));
        assert(fed.take((n * chunk_size) as int) =~= fed.take((m * chunk_size) as int) + nth_chunk(
            fed,
            chunk_size,
            m as int,
        ));
    }
}

/// Cutting loses and reorders nothing: the chunks followed by what is left are what was fed.
pub proof fn cutting_keeps_every_sample(fed: Seq<i16>, chunk_size: usize)
    ensures
        flattened(chunks_of(fed, chunk_size)) + rest_of(fed, chunk_size) == fed,
{
    let n = chunk_count(fed, chunk_size);
    if chunk_size > 0 {
        vstd::arithmetic::div_mod::lemma_fundamental_div_mod(fed.len() as int, chunk_size as int);
        assert(n >= 0 && n * chunk_size <= fed.len()) by (nonlinear_arith)
            requires
                fed.len() == chunk_size * (fed.len() as int / chunk_size as int) + fed.len() as int
                    % chunk_size as int,
                n == fed.len() as int / chunk_size as int,
                chunk_size > 0,
        ;
        lemma_flat_prefix(fed, chunk_size, n as nat);
        assert(chunks_of(fed, chunk_size) =~= Seq::new(
            n as nat,
            |i: int| nth_chunk(fed, chunk_size, i),
        ));
        assert(fed.take(n * chunk_size) + fed.skip(n * chunk_size) =~= fed);
    } else {
        assert(chunks_of(fed, chunk_size) =~= Seq::empty());
        assert(Seq::<i16>::empty() + fed.skip(0) =~= fed);
    }
}

/// What a pump has done.
pub struct PumpRun {
    /// The samples that have left it in chunks.
    pub sent: Seq<i16>,
    /// Those that wait.
    pub waiting: Seq<i16>,
    /// Where the next sample is due.
    pub at: int,
}

/// What a pump has done after it was fed `rounds` by the recorder.
pub open spec fn pumped(
    rounds: Seq<Seq<i16>>,
    from_hz: u32,
    to_hz: u32,
    chunk_size: usize,
) -> PumpRun
    decreases rounds.len(),
{
    if rounds.len() == 0 {
        PumpRun { sent: Seq::empty(), waiting: Seq::empty(), at: 0 }
    } else {
        let before = pumped(rounds.drop_last(), from_hz, to_hz, chunk_size);
        let fed = before.waiting + rate::at_rate(rounds.last(), from_hz, to_hz, before.at);
        PumpRun {
            sent: before.sent + flattened(chunks_of(fed, chunk_size)),
            waiting: rest_of(fed, chunk_size),
            at: rate::at_after(rounds.last().len(), from_hz, to_hz, before.at),
        }
    }
}

/// Over any number of rounds, the chunks followed by what waits are all samples that were
/// recorded, in order, at the rate of the provider: the rounds leave no trace in them.
pub proof fn pumping_keeps_every_sample(
    rounds: Seq<Seq<i16>>,
    from_hz: u32,
    to_hz: u32,
    chunk_size: usize,
)
    ensures
        ({
            let run = pumped(rounds, from_hz, to_hz, chunk_size);
            &&& run.sent + run.waiting == rate::at_rate(flattened(rounds), from_hz, to_hz, 0)
            &&& run.at == rate::at_after(flattened(rounds).len(), from_hz, to_hz, 0)
            &&& run.at >= 0
        }),
    decreases rounds.len(),
{
    if rounds.len() > 0 {
        pumping_keeps_every_sample(rounds.drop_last(), from_hz, to_hz, chunk_size);
        let before = pumped(rounds.drop_last(), from_hz, to_hz, chunk_size);
        let earlier = flattened(rounds.drop_last());
        let more = rate::at_rate(rounds.last(), from_hz, to_hz, before.at);
        let fed = before.waiting + more;
        cutting_keeps_every_sample(fed, chunk_size);
        assert((before.sent + flattened(chunks_of(fed, chunk_size))) + rest_of(fed, chunk_size)
            =~= before.sent + (flattened(chunks_of(fed, chunk_size)) + rest_of(fed, chunk_size)));
        assert(before.sent + (before.waiting + more) =~= (before.sent + before.waiting) + more);
        rate::parts_convert_as_one(earlier, rounds.last(), from_hz, to_hz, 0);
        rate::parts_convert_as_one(rounds.last(), Seq::empty(), from_hz, to_hz, before.at);
    } else {
        assert(0 * to_hz == 0 && 0 * from_hz == 0);
        assert(Seq::<i16>::empty() + Seq::<i16>::empty() =~= Seq::<i16>::empty());
        assert(rate::at_rate(Seq::empty(), from_hz, to_hz, 0) =~= Seq::<i16>::empty());
    }
}

} // verus!
