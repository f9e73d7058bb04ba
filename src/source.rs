use vstd::prelude::*;

use crate::position::PositionTriple;
use crate::timer::{pull_spec, PeriodicTimer};

verus! {

/// An audio source together with the position triple its spatialization reads
/// and the timer that decides when that triple is refreshed.
pub struct SpatialSource<S> {
    pub input: S,
    pub positions: PositionTriple,
    pub timer: PeriodicTimer,
}

impl<S> SpatialSource<S> {
    pub open spec fn wf(&self) -> bool {
        self.timer.wf()
    }

    pub fn new(input: S, positions: PositionTriple, timer: PeriodicTimer) -> (r: SpatialSource<S>)
        requires
            timer.wf(),
        ensures
            r.wf(),
            r == (SpatialSource { input, positions, timer }),
    {
        SpatialSource { input, positions, timer }
    }

    /// Installs a new triple; the source and its timer are untouched.
    pub fn set_positions(&mut self, positions: PositionTriple)
        ensures
            *final(self) == (SpatialSource { positions, ..*old(self) }),
    {
        self.positions = positions;
    }

    pub fn positions(&self) -> (r: PositionTriple)
        ensures
            r == self.positions,
    {
        self.positions
    }

    /// Counts one pulled sample. When the timer falls due, the triple becomes
    /// `current`; otherwise it stays as it was.
    pub fn refresh(&mut self, current: PositionTriple) -> (fired: bool)
        requires
            old(self).wf(),
        ensures
            final(self).wf(),
            final(self).input == old(self).input,
            (final(self).timer, fired) == pull_spec(old(self).timer),
            final(self).positions == (if fired { current } else { old(self).positions }),
    {
        let fired = self.timer.pull();
        if fired {
            self.set_positions(current);
        }
        fired
    }

    /// The wrapped source, for the samples it produces.
    pub fn input_mut(&mut self) -> (r: &mut S)
        ensures
            *r == old(self).input,
            *final(self) == (SpatialSource { input: *final(r), ..*old(self) }),
    {
        &mut self.input
    }

    pub fn into_inner(self) -> (r: S)
        ensures
            r == self.input,
    {
        self.input
    }
}

} // verus!
