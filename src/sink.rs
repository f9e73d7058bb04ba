use vstd::prelude::*;

verus! {

/// The bit pattern of the single-precision value `1.0`: unity gain and unity speed.
pub const UNITY: u32 = 0x3f80_0000;

/// What a playback queue needs to know of the output stream it is bound to:
/// whether the stream is still open.
#[derive(Clone, Copy)]
pub struct OutputStreamHandle {
    pub open: bool,
}

impl OutputStreamHandle {
    pub fn new(open: bool) -> (r: OutputStreamHandle)
        ensures
            r.open == open,
    {
        OutputStreamHandle { open }
    }
}

/// Failure to set up playback.
#[derive(Clone, Copy, PartialEq, Eq, Structural)]
pub enum PlayError {
    /// The output stream that the handle points at is gone.
    NoDevice,
}

/// The state of a playback queue: the queued sources in playing order, whether
/// playback is paused, and the gain and rate multipliers as single-precision bit
/// patterns.
pub struct SinkView<T> {
    pub queue: Seq<T>,
    pub paused: bool,
    pub volume: u32,
    pub speed: u32,
}

/// The state of a queue that was just created.
pub open spec fn fresh_sink<T>() -> SinkView<T> {
    SinkView { queue: Seq::empty(), paused: false, volume: UNITY, speed: UNITY }
}

pub open spec fn after_append<T>(v: SinkView<T>, item: T) -> SinkView<T> {
    SinkView { queue: v.queue.push(item), ..v }
}

pub open spec fn after_set_volume<T>(v: SinkView<T>, value: u32) -> SinkView<T> {
    SinkView { volume: value, ..v }
}

pub open spec fn after_set_speed<T>(v: SinkView<T>, value: u32) -> SinkView<T> {
    SinkView { speed: value, ..v }
}

pub open spec fn after_play<T>(v: SinkView<T>) -> SinkView<T> {
    SinkView { paused: false, ..v }
}

pub open spec fn after_pause<T>(v: SinkView<T>) -> SinkView<T> {
    SinkView { paused: true, ..v }
}

/// Clearing drops every queued source and pauses.
pub open spec fn after_clear<T>(v: SinkView<T>) -> SinkView<T> {
    SinkView { queue: Seq::empty(), paused: true, ..v }
}

/// Stopping drops every queued source and leaves the paused state alone.
pub open spec fn after_stop<T>(v: SinkView<T>) -> SinkView<T> {
    SinkView { queue: Seq::empty(), ..v }
}

/// The source at the front has played to its end and leaves the queue.
pub open spec fn after_finish_front<T>(v: SinkView<T>) -> SinkView<T> {
    SinkView { queue: v.queue.drop_first(), ..v }
}

/// A queue of sources bound to one output stream, played in order, with global
/// pause, gain and rate controls.
pub struct Sink<T> {
    queue: Vec<T>,
    paused: bool,
    volume: u32,
    speed: u32,
}

impl<T> View for Sink<T> {
    type V = SinkView<T>;

    closed spec fn view(&self) -> SinkView<T> {
        SinkView { queue: self.queue@, paused: self.paused, volume: self.volume, speed: self.speed }
    }
}

impl<T> Sink<T> {
    /// A fresh, empty, playing queue on `stream`, if the stream is still open.
    pub fn try_new(stream: &OutputStreamHandle) -> (r: Result<Sink<T>, PlayError>)
        ensures
            r is Ok <==> stream.open,
            r matches Ok(s) ==> s@ == fresh_sink::<T>(),
            r matches Err(e) ==> e == PlayError::NoDevice,
    {
        if stream.open {
            Ok(Sink { queue: Vec::new(), paused: false, volume: UNITY, speed: UNITY })
        } else {
            Err(PlayError::NoDevice)
        }
    }

    pub fn append(&mut self, item: T)
        ensures
            final(self)@ == after_append(old(self)@, item),
    {
        self.queue.push(item);
    }

    pub fn volume(&self) -> (r: u32)
        ensures
            r == self@.volume,
    {
        self.volume
    }

    pub fn set_volume(&mut self, value: u32)
        ensures
            final(self)@ == after_set_volume(old(self)@, value),
    {
        self.volume = value;
    }

    pub fn speed(&self) -> (r: u32)
        ensures
            r == self@.speed,
    {
        self.speed
    }

    pub fn set_speed(&mut self, value: u32)
        ensures
            final(self)@ == after_set_speed(old(self)@, value),
    {
        self.speed = value;
    }

    pub fn play(&mut self)
        ensures
            final(self)@ == after_play(old(self)@),
    {
        self.paused = false;
    }

    pub fn pause(&mut self)
        ensures
            final(self)@ == after_pause(old(self)@),
    {
        self.paused = true;
    }

    pub fn is_paused(&self) -> (r: bool)
        ensures
            r == self@.paused,
    {
        self.paused
    }

    pub fn clear(&mut self)
        ensures
            final(self)@ == after_clear(old(self)@),
    {
        self.queue = Vec::new();
        self.paused = true;
    }

    pub fn stop(&mut self)
        ensures
            final(self)@ == after_stop(old(self)@),
    {
        self.queue = Vec::new();
    }

    pub fn empty(&self) -> (r: bool)
        ensures
            r == (self@.queue.len() == 0),
    {
        self.queue.len() == 0
    }

    pub fn len(&self) -> (r: usize)
        ensures
            r == self@.queue.len(),
    {
        self.queue.len()
    }

    /// The source now playing, if any.
    pub fn front_mut(&mut self) -> (r: Option<&mut T>)
        ensures
            old(self)@.queue.len() == 0 ==> r is None && final(self)@ == old(self)@,
            old(self)@.queue.len() > 0 ==> (r matches Some(f) && *f == old(self)@.queue[0]
                && final(self)@ == (SinkView {
                queue: old(self)@.queue.update(0, *final(f)),
                ..old(self)@
            })),
    {
        if self.queue.len() == 0 {
            None
        } else {
            Some(&mut self.queue[0])
        }
    }

    /// Removes the source now playing, once it has ended.
    pub fn finish_front(&mut self) -> (r: Option<T>)
        ensures
            old(self)@.queue.len() == 0 ==> r is None && final(self)@ == old(self)@,
            old(self)@.queue.len() > 0 ==> r == Some(old(self)@.queue[0])
                && final(self)@ == after_finish_front(old(self)@),
    {
        if self.queue.len() == 0 {
            None
        } else {
            Some(self.queue.remove(0))
        }
    }

    /// Gives up control: the queued sources, in playing order, to be played out.
    pub fn detach(self) -> (r: Vec<T>)
        ensures
            r@ == self@.queue,
    {
        self.queue
    }
}

} // verus!
