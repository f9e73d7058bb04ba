use vstd::prelude::*;

verus! {

/// The refresh interval of an appended source, in milliseconds.
pub const REFRESH_INTERVAL_MS: u64 = 10;

/// The number of samples (over all channels) that `interval_ms` spans at the
/// given rate, at least one and at most `u64::MAX`.
pub open spec fn period_samples(interval_ms: nat, sample_rate: nat, channels: nat) -> nat {
    let p = interval_ms * sample_rate / 1000 * channels;
    if p == 0 {
        1
    } else if p > u64::MAX {
        u64::MAX as nat
    } else {
        p
    }
}

/// A countdown that makes a streaming source call back once every `period`
/// pulled samples, starting with the very first one.
#[derive(Clone, Copy)]
pub struct PeriodicTimer {
    pub period: u64,
    pub remaining: u64,
}

/// The timer and whether it fires, for one pulled sample.
pub open spec fn pull_spec(t: PeriodicTimer) -> (PeriodicTimer, bool) {
    if t.remaining <= 1 {
        (PeriodicTimer { period: t.period, remaining: t.period }, true)
    } else {
        (PeriodicTimer { period: t.period, remaining: (t.remaining - 1) as u64 }, false)
    }
}

/// The timer after `n` pulled samples.
pub open spec fn after(t: PeriodicTimer, n: nat) -> PeriodicTimer
    decreases n,
{
    if n == 0 {
        t
    } else {
        pull_spec(after(t, (n - 1) as nat)).0
    }
}

/// Whether the pull of sample number `i` (counting from zero) fires.
pub open spec fn fires_at(t: PeriodicTimer, i: nat) -> bool {
    pull_spec(after(t, i)).1
}

impl PeriodicTimer {
    pub open spec fn wf(&self) -> bool {
        1 <= self.remaining <= self.period
    }

    /// A timer that fires on the first pull and then every `period` pulls.
    pub fn new(period: u64) -> (r: PeriodicTimer)
        requires
            period >= 1,
        ensures
            r.wf(),
            r.period == period,
            r.remaining == 1,
    {
        PeriodicTimer { period, remaining: 1 }
    }

    /// A timer whose period is `interval_ms` of audio at `sample_rate` samples
    /// per second on `channels` interleaved channels.
    pub fn for_interval(interval_ms: u64, sample_rate: u32, channels: u16) -> (r: PeriodicTimer)
        ensures
            r.wf(),
            r.period == period_samples(interval_ms as nat, sample_rate as nat, channels as nat),
            r.remaining == 1,
    {
        proof {
            let (a, b) = (interval_ms as int, sample_rate as int);
            assert(0 <= a * b <= 0xffff_ffff_ffff_ffff * 0xffff_ffffint) by (nonlinear_arith)
                requires 0 <= a <= 0xffff_ffff_ffff_ffff, 0 <= b <= 0xffff_ffff;
        }
        let prod: u128 = interval_ms as u128 * sample_rate as u128;
        let per: u128 = prod / 1000;
        proof {
            let (a, c) = (per as int, channels as int);
            assert(0 <= a * c <= 0xffff_ffff_ffff_ffff * 0xffff_ffffint * 0xffff) by (nonlinear_arith)
                requires 0 <= a <= 0xffff_ffff_ffff_ffff * 0xffff_ffffint, 0 <= c <= 0xffff;
        }
        let p: u128 = per * channels as u128;
        let period: u64 = if p == 0 {
            1
        } else if p > u64::MAX as u128 {
            u64::MAX
        } else {
            p as u64
        };
        PeriodicTimer::new(period)
    }

    /// Counts one pulled sample; returns whether the callback is due now.
    pub fn pull(&mut self) -> (fired: bool)
        requires
            old(self).wf(),
        ensures
            final(self).wf(),
            (*final(self), fired) == pull_spec(*old(self)),
    {
        if self.remaining <= 1 {
            self.remaining = self.period;
            true
        } else {
            self.remaining = self.remaining - 1;
            false
        }
    }
}

proof fn lemma_after_step(t: PeriodicTimer, n: nat)
    requires
        t.wf(),
        n < t.remaining,
    ensures
        after(t, n) == (PeriodicTimer { period: t.period, remaining: (t.remaining - n) as u64 }),
    decreases n,
{
    if n > 0 {
        lemma_after_step(t, (n - 1) as nat);
    }
}

proof fn lemma_after_add(t: PeriodicTimer, a: nat, b: nat)
    ensures
        after(t, a + b) == after(after(t, a), b),
    decreases b,
{
    if b > 0 {
        lemma_after_add(t, a, (b - 1) as nat);
        assert(after(t, a + b) == pull_spec(after(t, (a + b - 1) as nat)).0);
    }
}

/// From any well-formed state, the callback fires within one period of pulls:
/// exactly at pull `remaining - 1`, and at no pull before it.
pub proof fn lemma_fires_within_period(t: PeriodicTimer)
    requires
        t.wf(),
    ensures
        t.remaining - 1 < t.period,
        fires_at(t, (t.remaining - 1) as nat),
        forall|i: nat| i < t.remaining - 1 ==> !#[trigger] fires_at(t, i),
{
    lemma_after_step(t, (t.remaining - 1) as nat);
    assert forall|i: nat| i < t.remaining - 1 implies !#[trigger] fires_at(t, i) by {
        lemma_after_step(t, i);
    }
}

/// Two pulls that fire are at least one period apart, and the pull one period
/// after a firing one fires again.
pub proof fn lemma_fire_spacing(t: PeriodicTimer, i: nat, j: nat)
    requires
        t.wf(),
        fires_at(t, i),
        i < j,
    ensures
        fires_at(t, j) ==> j - i >= t.period,
        fires_at(t, (i + t.period) as nat),
{
    let fresh = after(t, i + 1);
    lemma_after_step(t, 0);
    lemma_after_wf(t, i);
    assert(fresh == PeriodicTimer { period: t.period, remaining: t.period });
    lemma_after_add(t, i + 1, (j - i - 1) as nat);
    lemma_after_add(t, i + 1, (t.period - 1) as nat);
    lemma_fires_within_period(fresh);
    if j - i < t.period {
        assert(!fires_at(fresh, (j - i - 1) as nat));
        assert(after(t, j) == after(fresh, (j - i - 1) as nat));
    }
    assert(after(t, (i + t.period) as nat) == after(fresh, (t.period - 1) as nat));
}

proof fn lemma_after_wf(t: PeriodicTimer, n: nat)
    requires
        t.wf(),
    ensures
        after(t, n).wf(),
        after(t, n).period == t.period,
    decreases n,
{
    if n > 0 {
        lemma_after_wf(t, (n - 1) as nat);
    }
}

} // verus!
