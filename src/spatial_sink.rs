use vstd::prelude::*;

use crate::position::{apply_write, PositionTriple, PositionWrite, Vec3};
use crate::sink::{
    after_append, after_clear, after_finish_front, after_pause, after_play, after_set_speed,
    after_set_volume, after_stop, fresh_sink, OutputStreamHandle, PlayError, Sink, SinkView,
};
use crate::source::SpatialSource;
use crate::timer::{
    after, fires_at, lemma_fires_within_period, period_samples, pull_spec, PeriodicTimer,
    REFRESH_INTERVAL_MS,
};

verus! {

/// The state of a spatial handle: the current position triple and its queue.
pub struct SpatialSinkView<S> {
    pub positions: PositionTriple,
    pub sink: SinkView<SpatialSource<S>>,
}

/// Every queued source has a well-formed refresh timer.
pub open spec fn spatial_wf<S>(v: SpatialSinkView<S>) -> bool {
    forall|i: int| 0 <= i < v.sink.queue.len() ==> (#[trigger] v.sink.queue[i]).wf()
}

/// The handle after one position write: the queue is untouched.
pub open spec fn after_write<S>(v: SpatialSinkView<S>, w: PositionWrite) -> SpatialSinkView<S> {
    SpatialSinkView { positions: apply_write(v.positions, w), ..v }
}

/// What `append` queues: the source with a snapshot of the current triple and a
/// timer that falls due on its first sample and then once per refresh interval.
pub open spec fn appended_source<S>(
    v: SpatialSinkView<S>,
    source: S,
    sample_rate: u32,
    channels: u16,
) -> SpatialSource<S> {
    SpatialSource {
        input: source,
        positions: v.positions,
        timer: PeriodicTimer {
            period: period_samples(
                REFRESH_INTERVAL_MS as nat,
                sample_rate as nat,
                channels as nat,
            ) as u64,
            remaining: 1,
        },
    }
}

/// The handle after one pulled sample of the source now playing: its timer
/// counts the sample, and when it falls due the source takes the current triple.
pub open spec fn tick_spec<S>(v: SpatialSinkView<S>) -> (SpatialSinkView<S>, bool) {
    if v.sink.queue.len() == 0 {
        (v, false)
    } else {
        let f = v.sink.queue[0];
        let (t, fired) = pull_spec(f.timer);
        let g = SpatialSource {
            timer: t,
            positions: if fired { v.positions } else { f.positions },
            ..f
        };
        (
            SpatialSinkView {
                sink: SinkView { queue: v.sink.queue.update(0, g), ..v.sink },
                ..v
            },
            fired,
        )
    }
}

/// The handle after `n` pulled samples with no other call in between.
pub open spec fn ticks<S>(v: SpatialSinkView<S>, n: nat) -> SpatialSinkView<S>
    decreases n,
{
    if n == 0 {
        v
    } else {
        tick_spec(ticks(v, (n - 1) as nat)).0
    }
}

/// A playback handle whose sources are heard from a movable emitter by two
/// movable ears. Each appended source carries a copy of the position triple,
/// refreshed from the handle at a fixed interval of its own samples.
pub struct SpatialSink<S> {
    sink: Sink<SpatialSource<S>>,
    positions: PositionTriple,
}

impl<S> View for SpatialSink<S> {
    type V = SpatialSinkView<S>;

    closed spec fn view(&self) -> SpatialSinkView<S> {
        SpatialSinkView { positions: self.positions, sink: self.sink@ }
    }
}

impl<S> SpatialSink<S> {
    pub open spec fn wf(&self) -> bool {
        spatial_wf(self@)
    }

    /// A handle with an empty, playing queue on `stream` and the given triple;
    /// fails exactly when the queue cannot be set up on `stream`.
    pub fn try_new(
        stream: &OutputStreamHandle,
        emitter_position: Vec3,
        left_ear: Vec3,
        right_ear: Vec3,
    ) -> (r: Result<SpatialSink<S>, PlayError>)
        ensures
            r is Ok <==> stream.open,
            r matches Ok(h) ==> h.wf() && h@ == (SpatialSinkView::<S> {
                positions: PositionTriple { emitter: emitter_position, left_ear, right_ear },
                sink: fresh_sink(),
            }),
            r matches Err(e) ==> e == PlayError::NoDevice,
    {
        match Sink::try_new(stream) {
            Ok(sink) => Ok(
                SpatialSink {
                    sink,
                    positions: PositionTriple::new(emitter_position, left_ear, right_ear),
                },
            ),
            Err(e) => Err(e),
        }
    }

    /// The current triple.
    pub fn positions(&self) -> (r: PositionTriple)
        ensures
            r == self@.positions,
    {
        self.positions.snapshot()
    }

    pub fn set_emitter_position(&mut self, pos: Vec3)
        requires
            old(self).wf(),
        ensures
            final(self).wf(),
            final(self)@ == after_write(old(self)@, PositionWrite::Emitter(pos)),
    {
        self.positions.set_emitter(pos);
    }

    pub fn set_left_ear_position(&mut self, pos: Vec3)
        requires
            old(self).wf(),
        ensures
            final(self).wf(),
            final(self)@ == after_write(old(self)@, PositionWrite::LeftEar(pos)),
    {
        self.positions.set_left_ear(pos);
    }

    pub fn set_right_ear_position(&mut self, pos: Vec3)
        requires
            old(self).wf(),
        ensures
            final(self).wf(),
            final(self)@ == after_write(old(self)@, PositionWrite::RightEar(pos)),
    {
        self.positions.set_right_ear(pos);
    }

    /// Queues `source`, which plays `channels` interleaved channels at
    /// `sample_rate`, starting from a snapshot of the current triple.
    pub fn append(&mut self, source: S, sample_rate: u32, channels: u16)
        requires
            old(self).wf(),
        ensures
            final(self).wf(),
            final(self)@ == (SpatialSinkView {
                sink: after_append(
                    old(self)@.sink,
                    appended_source(old(self)@, source, sample_rate, channels),
                ),
                ..old(self)@
            }),
    {
        let timer = PeriodicTimer::for_interval(REFRESH_INTERVAL_MS, sample_rate, channels);
        let item = SpatialSource::new(source, self.positions.snapshot(), timer);
        self.sink.append(item);
        assert(forall|i: int|
            0 <= i < self@.sink.queue.len() - 1 ==> self@.sink.queue[i] == old(self)@.sink.queue[i]);
    }

    /// Counts one sample pulled from the source now playing, refreshing its
    /// triple when its timer falls due; returns whether it did.
    pub fn tick(&mut self) -> (fired: bool)
        requires
            old(self).wf(),
        ensures
            final(self).wf(),
            (final(self)@, fired) == tick_spec(old(self)@),
    {
        let current = self.positions.snapshot();
        let ghost v = self@;
        assert(v.sink.queue.len() > 0 ==> v.sink.queue[0].wf());
        match self.sink.front_mut() {
            None => false,
            Some(f) => {
                assert(f.wf());
                let fired = f.refresh(current);
                proof {
                    assert(self@.sink.queue =~= tick_spec(v).0.sink.queue);
                }
                fired
            },
        }
    }

    /// The source now playing, for the samples it produces.
    pub fn current_mut(&mut self) -> (r: Option<&mut SpatialSource<S>>)
        requires
            old(self).wf(),
        ensures
            old(self)@.sink.queue.len() == 0 ==> r is None && final(self)@ == old(self)@,
            old(self)@.sink.queue.len() > 0 ==> (r matches Some(f) && *f
                == old(self)@.sink.queue[0] && final(self)@ == (SpatialSinkView {
                sink: SinkView {
                    queue: old(self)@.sink.queue.update(0, *final(f)),
                    ..old(self)@.sink
                },
                ..old(self)@
            })),
    {
        self.sink.front_mut()
    }

    /// Removes the source now playing, once it has ended.
    pub fn finish_current(&mut self) -> (r: Option<SpatialSource<S>>)
        requires
            old(self).wf(),
        ensures
            final(self).wf(),
            old(self)@.sink.queue.len() == 0 ==> r is None && final(self)@ == old(self)@,
            old(self)@.sink.queue.len() > 0 ==> r == Some(old(self)@.sink.queue[0])
                && final(self)@ == (SpatialSinkView {
                sink: after_finish_front(old(self)@.sink),
                ..old(self)@
            }),
    {
        let r = self.sink.finish_front();
        assert(forall|i: int|
            0 <= i < self@.sink.queue.len() ==> self@.sink.queue[i] == old(self)@.sink.queue[i + 1]);
        r
    }

    pub fn volume(&self) -> (r: u32)
        ensures
            r == self@.sink.volume,
    {
        self.sink.volume()
    }

    pub fn set_volume(&mut self, value: u32)
        requires
            old(self).wf(),
        ensures
            final(self).wf(),
            final(self)@ == (SpatialSinkView {
                sink: after_set_volume(old(self)@.sink, value),
                ..old(self)@
            }),
    {
        self.sink.set_volume(value);
    }

    pub fn speed(&self) -> (r: u32)
        ensures
            r == self@.sink.speed,
    {
        self.sink.speed()
    }

    pub fn set_speed(&mut self, value: u32)
        requires
            old(self).wf(),
        ensures
            final(self).wf(),
            final(self)@ == (SpatialSinkView {
                sink: after_set_speed(old(self)@.sink, value),
                ..old(self)@
            }),
    {
        self.sink.set_speed(value);
    }

    /// Resumes playback; no effect if not paused.
    pub fn play(&mut self)
        requires
            old(self).wf(),
        ensures
            final(self).wf(),
            final(self)@ == (SpatialSinkView { sink: after_play(old(self)@.sink), ..old(self)@ }),
    {
        self.sink.play();
    }

    /// Pauses playback and keeps the queue; no effect if already paused.
    pub fn pause(&mut self)
        requires
            old(self).wf(),
        ensures
            final(self).wf(),
            final(self)@ == (SpatialSinkView { sink: after_pause(old(self)@.sink), ..old(self)@ }),
    {
        self.sink.pause();
    }

    pub fn is_paused(&self) -> (r: bool)
        ensures
            r == self@.sink.paused,
    {
        self.sink.is_paused()
    }

    /// Drops every queued source and pauses.
    pub fn clear(&mut self)
        requires
            old(self).wf(),
        ensures
            final(self).wf(),
            final(self)@ == (SpatialSinkView { sink: after_clear(old(self)@.sink), ..old(self)@ }),
            final(self)@.sink.queue.len() == 0,
            final(self)@.sink.paused,
    {
        self.sink.clear();
    }

    /// Drops every queued source.
    pub fn stop(&mut self)
        requires
            old(self).wf(),
        ensures
            final(self).wf(),
            final(self)@ == (SpatialSinkView { sink: after_stop(old(self)@.sink), ..old(self)@ }),
    {
        self.sink.stop();
    }

    /// Gives up control of the handle: the queued sources, in playing order and
    /// each with its triple and timer as they stand, to be played out to their end.
    pub fn detach(self) -> (r: Vec<SpatialSource<S>>)
        ensures
            r@ == self@.sink.queue,
    {
        self.sink.detach()
    }

    pub fn empty(&self) -> (r: bool)
        ensures
            r == (self@.sink.queue.len() == 0),
    {
        self.sink.empty()
    }

    pub fn len(&self) -> (r: usize)
        ensures
            r == self@.sink.queue.len(),
    {
        self.sink.len()
    }
}

/// Writing the emitter position and then appending a source to a handle with an
/// empty queue makes that source the one playing, and its very first sample is
/// spatialized with the emitter just written: the triple it was queued with holds
/// it, the first pull refreshes, and the refreshed triple holds it too.
pub proof fn lemma_initial_state_propagation<S>(
    v: SpatialSinkView<S>,
    e: Vec3,
    source: S,
    sample_rate: u32,
    channels: u16,
)
    requires
        spatial_wf(v),
        v.sink.queue.len() == 0,
    ensures
        ({
            let v1 = after_write(v, PositionWrite::Emitter(e));
            let v2 = SpatialSinkView {
                sink: after_append(v1.sink, appended_source(v1, source, sample_rate, channels)),
                ..v1
            };
            &&& v2.sink.queue.len() == 1
            &&& v2.sink.queue[0].input == source
            &&& v2.sink.queue[0].positions.emitter == e
            &&& tick_spec(v2).1
            &&& tick_spec(v2).0.sink.queue[0].positions.emitter == e
        }),
{
}

/// While no sample fires the timer of the source now playing, pulling leaves
/// everything but that timer as it was, and the timer counts the pulls.
proof fn lemma_ticks_before_fire<S>(v: SpatialSinkView<S>, k: nat)
    requires
        spatial_wf(v),
        v.sink.queue.len() > 0,
        k < v.sink.queue[0].timer.remaining,
    ensures
        ticks(v, k).positions == v.positions,
        ticks(v, k).sink.queue.len() == v.sink.queue.len(),
        ticks(v, k).sink.queue[0] == (SpatialSource {
            timer: after(v.sink.queue[0].timer, k),
            ..v.sink.queue[0]
        }),
    decreases k,
{
    let t = v.sink.queue[0].timer;
    assert(v.sink.queue[0].wf());
    if k > 0 {
        let j = (k - 1) as nat;
        lemma_ticks_before_fire(v, j);
        lemma_fires_within_period(t);
        assert(!fires_at(t, j));
    }
}

/// A write to an ear position reaches the source now playing within one refresh
/// period of its samples: after `remaining` pulls, at most `period`, the source's
/// triple holds the new left ear.
pub proof fn lemma_update_latency<S>(v: SpatialSinkView<S>, l: Vec3)
    requires
        spatial_wf(v),
        v.sink.queue.len() > 0,
    ensures
        ({
            let v1 = after_write(v, PositionWrite::LeftEar(l));
            let n = v.sink.queue[0].timer.remaining as nat;
            &&& n <= v.sink.queue[0].timer.period
            &&& ticks(v1, n).sink.queue[0].positions.left_ear == l
        }),
{
    let v1 = after_write(v, PositionWrite::LeftEar(l));
    let t = v.sink.queue[0].timer;
    assert(v.sink.queue[0].wf());
    assert(spatial_wf(v1));
    let k = (t.remaining - 1) as nat;
    lemma_ticks_before_fire(v1, k);
    lemma_fires_within_period(t);
    assert(fires_at(t, k));
    assert(ticks(v1, k + 1) == tick_spec(ticks(v1, k)).0);
}

} // verus!
