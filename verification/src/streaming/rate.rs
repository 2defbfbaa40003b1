//! Bringing samples from the rate of the recorder to the rate of the provider.
use vstd::prelude::*;

verus! {

/// How many multiples of `step`, counted from `at` on, lie before `end`.
pub open spec fn steps_before(end: int, step: int, at: int) -> nat {
    if end <= at {
        0
    } else {
        ((end - at + step - 1) / step) as nat
    }
}

/// How many samples are kept of `count` samples. `at` is where the first of them falls, in parts of
/// a sample of which `to_hz` make a whole.
pub open spec fn kept(count: nat, from_hz: u32, to_hz: u32, at: int) -> nat {
    steps_before(count * to_hz, from_hz as int, at)
}

/// The samples at another rate: the ones that were playing when the samples of the new rate are
/// due, of which the first is due `at` parts of a sample after the first that is given. Where a rate
/// is not known, the samples stay as they are.
pub open spec fn at_rate(samples: Seq<i16>, from_hz: u32, to_hz: u32, at: int) -> Seq<i16> {
    if from_hz == 0 || to_hz == 0 {
        samples
    } else {
        Seq::new(
            kept(samples.len(), from_hz, to_hz, at),
            |i: int| samples[(at + i * from_hz) / to_hz as int],
        )
    }
}

/// Where the next sample is due after `count` samples.
pub open spec fn at_after(count: nat, from_hz: u32, to_hz: u32, at: int) -> int {
    if from_hz == 0 || to_hz == 0 {
        at
    } else {
        at + kept(count, from_hz, to_hz, at) * from_hz - count * to_hz
    }
}

/// Changes the rate of samples that come bit by bit.
#[derive(Debug, Clone, Copy, PartialEq, Eq, Structural)]
pub struct RateConverter {
    pub from_hz: u32,
    pub to_hz: u32,
    /// Where the next sample is due, in parts of a sample of which `to_hz` make a whole.
    pub at: u64,
}

proof fn lemma_steps(end: int, step: int, at: int)
    requires
        step > 0,
    ensures
        at + steps_before(end, step, at) * step >= end,
        steps_before(end, step, at) > 0 ==> at + (steps_before(end, step, at) - 1) * step < end,
{
    let n = steps_before(end, step, at);
    if end > at {
        let gap = end - at + step - 1;
        vstd::arithmetic::div_mod::lemma_fundamental_div_mod(gap, step);
        let q = gap / step;
        let m = gap % step;
        assert(q >= 0) by (nonlinear_arith)
            requires
                gap == step * q + m,
                0 <= m < step,
                gap >= 0,
        ;
        assert(q * step == step * q) by (nonlinear_arith);
        assert((q - 1) * step == step * q - step) by (nonlinear_arith);
    }
}

proof fn lemma_steps_are(end: int, step: int, at: int, n: nat)
    requires
        step > 0,
        at + n * step >= end,
        n > 0 ==> at + (n - 1) * step < end,
    ensures
        n == steps_before(end, step, at),
{
    let k = steps_before(end, step, at);
    lemma_steps(end, step, at);
    if n > k {
        assert((n - 1) * step >= k * step) by (nonlinear_arith)
            requires
                n - 1 >= k,
                step > 0,
        ;
    }
    if k > n {
        assert((k - 1) * step >= n * step) by (nonlinear_arith)
            requires
                k - 1 >= n,
                step > 0,
        ;
    }
}

proof fn lemma_whole(place: int, rest: int, to: int, j: int)
    requires
        to > 0,
        place == rest + j * to,
        0 <= rest < to,
    ensures
        place / to == j,
{
    vstd::arithmetic::div_mod::lemma_fundamental_div_mod_converse(place, to, j, rest);
}

impl RateConverter {
    /// The next sample is due before a whole step has passed.
    pub open spec fn wf(self) -> bool {
        self.at == 0 || self.at < self.from_hz
    }

    /// A converter whose first sample is due at once.
    pub fn new(from_hz: u32, to_hz: u32) -> (r: RateConverter)
        ensures
            r == (RateConverter { from_hz, to_hz, at: 0 }),
            r.wf(),
    {
        RateConverter { from_hz, to_hz, at: 0 }
    }

    /// The samples that follow, at the new rate.
    pub fn convert(&mut self, samples: &Vec<i16>) -> (r: Vec<i16>)
        requires
            old(self).wf(),
        ensures
            final(self).wf(),
            final(self).from_hz == old(self).from_hz,
            final(self).to_hz == old(self).to_hz,
            r@ == at_rate(samples@, old(self).from_hz, old(self).to_hz, old(self).at as int),
            final(self).at == at_after(
                samples@.len(),
                old(self).from_hz,
                old(self).to_hz,
                old(self).at as int,
            ),
    {
        if self.from_hz == 0 || self.to_hz == 0 {
            return samples.clone();
        }
        let from: u64 = self.from_hz as u64;
        let to: u64 = self.to_hz as u64;
        let ghost start = self.at as int;
        let mut at: u64 = self.at;
        let mut r: Vec<i16> = Vec::new();
        let mut j: usize = 0;
        assert(0 * from == 0 && 0 * to == 0);
        while j < samples.len()
            invariant
                j <= samples@.len(),
                0 < from <= u32::MAX,
                0 < to <= u32::MAX,
                start >= 0,
                at < from,
                at == start + r@.len() * from - j * to,
                forall|i: int|
                    0 <= i < r@.len() ==> #[trigger] r@[i] == samples@[(start + i * from)
                        / to as int],
            decreases samples@.len() - j,
        {
            while at < to
                invariant
                    j < samples@.len(),
                    0 < from <= u32::MAX,
                    0 < to <= u32::MAX,
                    at < to + from,
                    at == start + r@.len() * from - j * to,
                    forall|i: int|
                        0 <= i < r@.len() ==> #[trigger] r@[i] == samples@[(start + i * from)
                            / to as int],
                decreases to + from - at,
            {
                let ghost n = r@.len() as int;
                proof {
                    lemma_whole(start + n * from, at as int, to as int, j as int);
                    assert((n + 1) * from == n * from + from) by (nonlinear_arith);
                }
                r.push(samples[j]);
                at += from;
            }
            at -= to;
            assert((j + 1) * to == j * to + to) by (nonlinear_arith);
            j += 1;
        }
        proof {
            let n = r@.len();
            assert((n - 1) * from == n * from - from) by (nonlinear_arith);
            lemma_steps_are(samples@.len() * to, from as int, start, n);
            assert(r@ =~= at_rate(samples@, self.from_hz, self.to_hz, start));
        }
        self.at = at;
        r
    }
}

/// Samples that come in two parts are brought to the other rate as if they came at once.
pub proof fn parts_convert_as_one(
    a: Seq<i16>,
    b: Seq<i16>,
    from_hz: u32,
    to_hz: u32,
    at: int,
)
    requires
        at >= 0,
    ensures
        at_rate(a + b, from_hz, to_hz, at) == at_rate(a, from_hz, to_hz, at) + at_rate(
            b,
            from_hz,
            to_hz,
            at_after(a.len(), from_hz, to_hz, at),
        ),
        at_after((a + b).len(), from_hz, to_hz, at) == at_after(
            b.len(),
            from_hz,
            to_hz,
            at_after(a.len(), from_hz, to_hz, at),
        ),
        at_after(a.len(), from_hz, to_hz, at) >= 0,
{
    if from_hz > 0 && to_hz > 0 {
        let (from, to) = (from_hz as int, to_hz as int);
        let (la, lb) = (a.len() * to, b.len() * to);
        let lab = (a + b).len() * to;
        assert(lab == la + lb) by (nonlinear_arith)
            requires
                la == a.len() * to,
                lb == b.len() * to,
                lab == (a.len() + b.len()) * to,
        ;
        assert(la >= 0 && lb >= 0) by (nonlinear_arith)
            requires
                la == a.len() * to,
                lb == b.len() * to,
                to > 0,
        ;
        let k = kept(a.len(), from_hz, to_hz, at);
        lemma_steps(la, from, at);
        let next = at_after(a.len(), from_hz, to_hz, at);
        assert(next == at + k * from - la);
        let m = kept(b.len(), from_hz, to_hz, next);
        lemma_steps(lb, from, next);
        assert((k + m) * from == k * from + m * from) by (nonlinear_arith);
        assert((k + m - 1) * from == k * from + (m - 1) * from) by (nonlinear_arith);
        lemma_steps_are(lab, from, at, k + m);
        let whole = at_rate(a + b, from_hz, to_hz, at);
        let first = at_rate(a, from_hz, to_hz, at);
        let second = at_rate(b, from_hz, to_hz, next);
        assert(whole.len() == first.len() + second.len());
        assert forall|i: int| 0 <= i < whole.len() implies whole[i] == (first + second)[i] by {
            if i < k {
                let place = at + i * from;
                assert(0 <= i * from <= (k - 1) * from) by (nonlinear_arith)
                    requires
                        0 <= i <= k - 1,
                        from > 0,
                ;
                assert(0 <= place / to < a.len()) by (nonlinear_arith)
                    requires
                        0 <= place < la,
                        la == a.len() * to,
                        to > 0,
                ;
            } else {
                let i2 = i - k;
                let place = next + i2 * from;
                assert(i * from == k * from + i2 * from) by (nonlinear_arith)
                    requires
                        i == k + i2,
                ;
                assert(0 <= i2 * from <= (m - 1) * from) by (nonlinear_arith)
                    requires
                        0 <= i2 <= m - 1,
                        from > 0,
                ;
                assert(at + i * from == place + a.len() * to);
                vstd::arithmetic::div_mod::lemma_fundamental_div_mod(place, to);
                let q = place / to;
                assert(0 <= q < b.len()) by (nonlinear_arith)
                    requires
                        0 <= place < lb,
                        lb == b.len() * to,
                        to > 0,
                        q == place / to,
                ;
                assert((q + a.len()) * to == to * q + a.len() * to) by (nonlinear_arith);
                lemma_whole(place + a.len() * to, place % to, to, q + a.len());
            }
        }
        assert(whole =~= first + second);
    }
}

/// A change of rate keeps the duration: the samples at the new rate last as long as those at the old
/// one, up to one sample.
pub proof fn rate_keeps_the_duration(samples: Seq<i16>, from_hz: u32, to_hz: u32)
    requires
        from_hz > 0,
        to_hz > 0,
    ensures
        samples.len() * to_hz <= at_rate(samples, from_hz, to_hz, 0).len() * from_hz,
        at_rate(samples, from_hz, to_hz, 0).len() * from_hz < samples.len() * to_hz + from_hz,
{
    let n = at_rate(samples, from_hz, to_hz, 0).len();
    lemma_steps(samples.len() * to_hz, from_hz as int, 0);
    assert((n - 1) * from_hz == n * from_hz - from_hz) by (nonlinear_arith);
    assert(samples.len() * to_hz >= 0 && 0 * from_hz == 0) by (nonlinear_arith)
        requires
            to_hz > 0,
    ;
}

/// Each sample at the new rate is the one that was playing when it is due.
pub proof fn rate_picks_what_was_playing(samples: Seq<i16>, from_hz: u32, to_hz: u32, i: int)
    requires
        from_hz > 0,
        to_hz > 0,
        0 <= i < at_rate(samples, from_hz, to_hz, 0).len(),
    ensures
        0 <= (i * from_hz) / (to_hz as int) < samples.len(),
        at_rate(samples, from_hz, to_hz, 0)[i] == samples[(i * from_hz) / (to_hz as int)],
{
    let (from, to) = (from_hz as int, to_hz as int);
    let end = samples.len() * to;
    let n = at_rate(samples, from_hz, to_hz, 0).len();
    lemma_steps(end, from, 0);
    let place = i * from;
    assert(0 <= place <= (n - 1) * from) by (nonlinear_arith)
        requires
            place == i * from,
            0 <= i <= n - 1,
            from > 0,
    ;
    assert(0 <= place / to < samples.len()) by (nonlinear_arith)
        requires
            0 <= place < end,
            end == samples.len() * to,
            to > 0,
    ;
}

/// Samples that have the right rate already stay as they are.
pub proof fn same_rate_changes_nothing(samples: Seq<i16>, hz: u32)
    ensures
        at_rate(samples, hz, hz, 0) == samples,
        at_after(samples.len(), hz, hz, 0) == 0,
{
    if hz > 0 {
        let n = samples.len();
        assert((n - 1) * hz == n * hz - hz) by (nonlinear_arith);
        lemma_steps_are(n * hz, hz as int, 0, n);
        let r = at_rate(samples, hz, hz, 0);
        assert forall|i: int| 0 <= i < n implies #[trigger] r[i] == samples[i] by {
            lemma_whole(i * hz, 0, hz as int, i);
        }
        assert(r =~= samples);
    }
}

} // verus!
