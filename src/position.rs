use vstd::prelude::*;

verus! {

/// A point in 3D space: the IEEE-754 single-precision bit pattern of each
/// coordinate. The handle passes positions through without reading them.
pub type Vec3 = [u32; 3];

/// The position triple: where the sound comes from and where the two ears are.
#[derive(Clone, Copy)]
pub struct PositionTriple {
    pub emitter: Vec3,
    pub left_ear: Vec3,
    pub right_ear: Vec3,
}

/// One field-wise write to a position triple.
#[derive(Clone, Copy)]
pub enum PositionWrite {
    Emitter(Vec3),
    LeftEar(Vec3),
    RightEar(Vec3),
}

/// The triple after one write: the named field is replaced whole, the others stay.
pub open spec fn apply_write(t: PositionTriple, w: PositionWrite) -> PositionTriple {
    match w {
        PositionWrite::Emitter(v) => PositionTriple { emitter: v, ..t },
        PositionWrite::LeftEar(v) => PositionTriple { left_ear: v, ..t },
        PositionWrite::RightEar(v) => PositionTriple { right_ear: v, ..t },
    }
}

/// The triple after a sequence of writes, applied in order.
pub open spec fn apply_writes(t: PositionTriple, ws: Seq<PositionWrite>) -> PositionTriple
    decreases ws.len(),
{
    if ws.len() == 0 {
        t
    } else {
        apply_write(apply_writes(t, ws.drop_last()), ws.last())
    }
}

pub open spec fn writes_emitter(w: PositionWrite) -> bool {
    w is Emitter
}

pub open spec fn writes_left_ear(w: PositionWrite) -> bool {
    w is LeftEar
}

pub open spec fn writes_right_ear(w: PositionWrite) -> bool {
    w is RightEar
}

/// The vector a write installs, whichever field it names.
pub open spec fn written_value(w: PositionWrite) -> Vec3 {
    match w {
        PositionWrite::Emitter(v) => v,
        PositionWrite::LeftEar(v) => v,
        PositionWrite::RightEar(v) => v,
    }
}

/// `field` is what a reader must see for the field that `targets` selects after
/// `ws`: the value of the last write to that field, or `initial` if there is none.
pub open spec fn is_latest(
    initial: Vec3,
    ws: Seq<PositionWrite>,
    targets: spec_fn(PositionWrite) -> bool,
    field: Vec3,
) -> bool {
    ||| (forall|i: int| 0 <= i < ws.len() ==> !targets(#[trigger] ws[i])) && field == initial
    ||| exists|i: int|
        0 <= i < ws.len() && #[trigger] targets(ws[i]) && field == written_value(ws[i]) && (forall|
            j: int,
        |
            i < j < ws.len() ==> !targets(#[trigger] ws[j]))
}

impl PositionTriple {
    pub fn new(emitter: Vec3, left_ear: Vec3, right_ear: Vec3) -> (r: PositionTriple)
        ensures
            r == (PositionTriple { emitter, left_ear, right_ear }),
    {
        PositionTriple { emitter, left_ear, right_ear }
    }

    /// A copy of the whole triple.
    pub fn snapshot(&self) -> (r: PositionTriple)
        ensures
            r == *self,
    {
        *self
    }

    pub fn set_emitter(&mut self, v: Vec3)
        ensures
            *final(self) == apply_write(*old(self), PositionWrite::Emitter(v)),
    {
        self.emitter = v;
    }

    pub fn set_left_ear(&mut self, v: Vec3)
        ensures
            *final(self) == apply_write(*old(self), PositionWrite::LeftEar(v)),
    {
        self.left_ear = v;
    }

    pub fn set_right_ear(&mut self, v: Vec3)
        ensures
            *final(self) == apply_write(*old(self), PositionWrite::RightEar(v)),
    {
        self.right_ear = v;
    }

    /// Applies one write.
    pub fn apply(&mut self, w: PositionWrite)
        ensures
            *final(self) == apply_write(*old(self), w),
    {
        match w {
            PositionWrite::Emitter(v) => self.set_emitter(v),
            PositionWrite::LeftEar(v) => self.set_left_ear(v),
            PositionWrite::RightEar(v) => self.set_right_ear(v),
        }
    }
}

/// After any sequence of field-wise writes, a snapshot holds for each field the
/// whole vector of the last write to it, or the initial vector if none wrote it:
/// no vector is ever a mix of two writes, and no field is changed by a write to
/// another.
pub proof fn lemma_snapshot_consistent(init: PositionTriple, ws: Seq<PositionWrite>)
    ensures
        is_latest(init.emitter, ws, |w| writes_emitter(w), apply_writes(init, ws).emitter),
        is_latest(init.left_ear, ws, |w| writes_left_ear(w), apply_writes(init, ws).left_ear),
        is_latest(init.right_ear, ws, |w| writes_right_ear(w), apply_writes(init, ws).right_ear),
    decreases ws.len(),
{
    if ws.len() > 0 {
        let pre = ws.drop_last();
        lemma_snapshot_consistent(init, pre);
        let n = ws.len() - 1;
        assert(forall|i: int| 0 <= i < pre.len() ==> pre[i] == ws[i]);
        let t = apply_writes(init, ws);
        assert(t == apply_write(apply_writes(init, pre), ws.last()));
        match ws.last() {
            PositionWrite::Emitter(v) => {
                assert(writes_emitter(ws[n]));
            },
            PositionWrite::LeftEar(v) => {
                assert(writes_left_ear(ws[n]));
            },
            PositionWrite::RightEar(v) => {
                assert(writes_right_ear(ws[n]));
            },
        }
        // Each field is either the one just written or carried over from `pre`.
        let fe = |w| writes_emitter(w);
        let fl = |w| writes_left_ear(w);
        let fr = |w| writes_right_ear(w);
        lemma_latest_extend(init.emitter, pre, ws, fe, apply_writes(init, pre).emitter, t.emitter);
        lemma_latest_extend(init.left_ear, pre, ws, fl, apply_writes(init, pre).left_ear, t.left_ear);
        lemma_latest_extend(init.right_ear, pre, ws, fr, apply_writes(init, pre).right_ear, t.right_ear);
    }
}

proof fn lemma_latest_extend(
    initial: Vec3,
    pre: Seq<PositionWrite>,
    ws: Seq<PositionWrite>,
    targets: spec_fn(PositionWrite) -> bool,
    before: Vec3,
    after: Vec3,
)
    requires
        ws.len() > 0,
        pre == ws.drop_last(),
        is_latest(initial, pre, targets, before),
        targets(ws.last()) ==> after == written_value(ws.last()),
        !targets(ws.last()) ==> after == before,
    ensures
        is_latest(initial, ws, targets, after),
{
    let n = ws.len() - 1;
    assert(forall|i: int| 0 <= i < pre.len() ==> pre[i] == ws[i]);
    if targets(ws[n]) {
        assert(forall|j: int| n < j < ws.len() ==> !targets(#[trigger] ws[j]));
    } else if forall|i: int| 0 <= i < pre.len() ==> !targets(#[trigger] pre[i]) {
        assert(forall|i: int| 0 <= i < ws.len() ==> !targets(#[trigger] ws[i])) by {
            assert forall|i: int| 0 <= i < ws.len() implies !targets(#[trigger] ws[i]) by {
                if i < n {
                    assert(pre[i] == ws[i]);
                }
            }
        }
    } else {
        let i = choose|i: int|
            0 <= i < pre.len() && #[trigger] targets(pre[i]) && before == written_value(pre[i])
                && (forall|j: int| i < j < pre.len() ==> !targets(#[trigger] pre[j]));
        assert(targets(ws[i]));
        assert forall|j: int| i < j < ws.len() implies !targets(#[trigger] ws[j]) by {
            if j < n {
                assert(pre[j] == ws[j]);
            }
        }
    }
}

} // verus!
