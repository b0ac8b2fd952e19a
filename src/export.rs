use vstd::prelude::*;
use crate::text::{decimal_of, push_decimal};

verus! {

/// A trajectory buffer: the static roster of objects (`O`) and a sparse
/// sequence of frames, each a list of per-object entries (`P`) tagged with
/// an index that strictly increases over the run.
pub struct SimulationProc<O, P> {
    objects: Vec<O>,
    frames: Vec<(usize, Vec<P>)>,
}

impl<O, P> SimulationProc<O, P> {
    /// The stored frames, in order of insertion.
    pub closed spec fn frames(&self) -> Seq<(usize, Vec<P>)> {
        self.frames@
    }

    /// The roster of objects.
    pub closed spec fn roster(&self) -> Seq<O> {
        self.objects@
    }

    /// The frame indexes are strictly increasing.
    pub open spec fn wf(&self) -> bool {
        forall|i: int, j: int|
            0 <= i < j < self.frames().len() ==> #[trigger] self.frames()[i].0
                < #[trigger] self.frames()[j].0
    }

    /// Whether a frame with index `frame_order` would be accepted now: it is
    /// above the last stored index.
    pub open spec fn accepts(&self, frame_order: usize) -> bool {
        self.frames().len() == 0 || self.frames().last().0 < frame_order
    }

    pub fn new(objects: Vec<O>) -> (r: Self)
        ensures
            r.wf(),
            r.roster() == objects@,
            r.frames().len() == 0,
    {
        SimulationProc { objects, frames: Vec::new() }
    }

    /// Whether a frame with index `frame_order` may be stored now.
    pub fn can_add_frame(&self, frame_order: usize) -> (r: bool)
        ensures
            r == self.accepts(frame_order),
    {
        let n = self.frames.len();
        n == 0 || self.frames[n - 1].0 < frame_order
    }

    /// Stores `frame` under `frame_order`, which must exceed every index stored
    /// so far: an out-of-order or repeated index is a contract violation.
    pub fn add_frame(&mut self, frame_order: usize, frame: Vec<P>)
        requires
            old(self).wf(),
            old(self).accepts(frame_order),
        ensures
            final(self).wf(),
            final(self).roster() == old(self).roster(),
            final(self).frames() == old(self).frames().push((frame_order, frame)),
    {
        let ghost n = self.frames().len();
        proof {
            assert forall|i: int| 0 <= i < self.frames().len() implies #[trigger] self.frames()[i].0
                < frame_order by {
                if i < n - 1 {
                    assert(self.frames()[i].0 < self.frames()[n - 1].0);
                }
            }
        }
        self.frames.push((frame_order, frame));
    }

    /// The frame stored under `frame_order`, if any.
    pub fn frame(&self, frame_order: usize) -> (r: Option<&Vec<P>>)
        requires
            self.wf(),
        ensures
            match r {
                Some(f) => exists|i: int|
                    0 <= i < self.frames().len() && #[trigger] self.frames()[i].0 == frame_order
                        && self.frames()[i].1 == *f,
                None => forall|i: int|
                    0 <= i < self.frames().len() ==> #[trigger] self.frames()[i].0 != frame_order,
            },
    {
        let mut i: usize = 0;
        while i < self.frames.len()
            invariant
                i <= self.frames().len(),
                forall|k: int| 0 <= k < i ==> #[trigger] self.frames()[k].0 != frame_order,
            decreases self.frames().len() - i,
        {
            if self.frames[i].0 == frame_order {
                return Some(&self.frames[i].1);
            }
            i = i + 1;
        }
        None
    }

    /// How many frames are stored.
    pub fn frame_count(&self) -> (r: usize)
        ensures
            r == self.frames().len(),
    {
        self.frames.len()
    }

    /// The index of the `i`-th stored frame.
    pub fn frame_order_at(&self, i: usize) -> (r: usize)
        requires
            i < self.frames().len(),
        ensures
            r == self.frames()[i as int].0,
    {
        self.frames[i].0
    }

    /// The `i`-th stored frame.
    pub fn frame_at(&self, i: usize) -> (r: &Vec<P>)
        requires
            i < self.frames().len(),
        ensures
            *r == self.frames()[i as int].1,
    {
        &self.frames[i].1
    }

    /// The roster of objects.
    pub fn objects(&self) -> (r: &Vec<O>)
        ensures
            r@ == self.roster(),
    {
        &self.objects
    }
}

/// A frame is accepted exactly when its index is above every stored index:
/// an out-of-order or repeated index is refused.
pub proof fn lemma_accepts_iff_above_all<O, P>(s: SimulationProc<O, P>, frame_order: usize)
    requires
        s.wf(),
    ensures
        s.accepts(frame_order) <==> forall|i: int|
            0 <= i < s.frames().len() ==> #[trigger] s.frames()[i].0 < frame_order,
{
    if s.accepts(frame_order) {
        assert forall|i: int| 0 <= i < s.frames().len() implies #[trigger] s.frames()[i].0
            < frame_order by {
            if i < s.frames().len() - 1 {
                assert(s.frames()[i].0 < s.frames()[s.frames().len() - 1].0);
            }
        }
    } else {
        assert(s.frames()[s.frames().len() - 1].0 >= frame_order);
    }
}

/// Counts the steps of a run and says at which of them a frame is exported:
/// every `decimation`-th step, starting with the first, under the running
/// number of exported frames.
pub struct FrameClock {
    step_count: usize,
    decimation: usize,
}

impl FrameClock {
    /// Steps counted so far.
    pub closed spec fn steps(&self) -> nat {
        self.step_count as nat
    }

    /// The export period.
    pub closed spec fn period(&self) -> nat {
        self.decimation as nat
    }

    pub open spec fn wf(&self) -> bool {
        self.period() > 0
    }

    /// How many frames have been exported so far: the steps `0, d, 2d, ...`
    /// that lie below `steps`.
    pub open spec fn exported(&self) -> nat {
        ((self.steps() + self.period() - 1) as nat) / self.period()
    }

    pub fn new(decimation: usize) -> (r: Self)
        requires
            decimation > 0,
        ensures
            r.wf(),
            r.steps() == 0,
            r.period() == decimation,
    {
        FrameClock { step_count: 0, decimation }
    }

    /// Counts one step. Returns the index under which the step's frame is to
    /// be exported, or `None` if this step is not exported.
    pub fn tick(&mut self) -> (r: Option<usize>)
        requires
            old(self).wf(),
            old(self).steps() < usize::MAX,
        ensures
            final(self).wf(),
            final(self).period() == old(self).period(),
            final(self).steps() == old(self).steps() + 1,
            r == (if old(self).steps() % old(self).period() == 0 {
                Some((old(self).steps() / old(self).period()) as usize)
            } else {
                None
            }),
            r is Some ==> r->0 == old(self).exported(),
            final(self).exported() == old(self).exported() + (if r is Some { 1nat } else { 0nat }),
    {
        let n = self.step_count;
        let d = self.decimation;
        proof {
            lemma_exported_count(n as nat, d as nat);
        }
        self.step_count = n + 1;
        if n % d == 0 {
            Some(n / d)
        } else {
            None
        }
    }

    pub fn step_count(&self) -> (r: usize)
        ensures
            r == self.steps(),
    {
        self.step_count
    }
}

proof fn lemma_exported_count(n: nat, d: nat)
    requires
        d > 0,
    ensures
        n % d == 0 ==> (n + d - 1) as nat / d == n / d,
        n % d == 0 ==> (n + 1 + d - 1) as nat / d == n / d + 1,
        n % d != 0 ==> (n + 1 + d - 1) as nat / d == (n + d - 1) as nat / d,
{
    let q = n / d;
    let m = n % d;
    vstd::arithmetic::div_mod::lemma_fundamental_div_mod(n as int, d as int);
    assert(q * d == d * q) by (nonlinear_arith);
    assert((q + 1) * d == q * d + d) by (nonlinear_arith);
    if m == 0 {
        assert((n + d - 1) as nat / d == q) by {
            vstd::arithmetic::div_mod::lemma_fundamental_div_mod_converse(
                (n + d - 1) as int, d as int, q as int, (d - 1) as int);
        }
        assert((n + d) as nat / d == q + 1) by {
            vstd::arithmetic::div_mod::lemma_fundamental_div_mod_converse(
                (n + d) as int, d as int, (q + 1) as int, 0);
        }
    } else {
        assert((n + d - 1) as nat / d == q + 1) by {
            vstd::arithmetic::div_mod::lemma_fundamental_div_mod_converse(
                (n + d - 1) as int, d as int, (q + 1) as int, (m - 1) as int);
        }
        assert((n + d) as nat / d == q + 1) by {
            vstd::arithmetic::div_mod::lemma_fundamental_div_mod_converse(
                (n + d) as int, d as int, (q + 1) as int, m as int);
        }
    }
}

/// A buffer fed only with the frame indexes that a clock hands out accepts
/// every one of them: the indexes strictly increase over the whole run.
pub proof fn lemma_clock_orders_accepted<O, P>(
    clock: FrameClock,
    buffer: SimulationProc<O, P>,
    frame_order: usize,
)
    requires
        clock.wf(),
        forall|i: int|
            0 <= i < buffer.frames().len() ==> #[trigger] buffer.frames()[i].0 < clock.exported(),
        clock.steps() % clock.period() == 0,
        frame_order == clock.steps() / clock.period(),
    ensures
        buffer.accepts(frame_order),
{
    lemma_exported_count(clock.steps(), clock.period());
    if buffer.frames().len() > 0 {
        assert(buffer.frames()[buffer.frames().len() - 1].0 < clock.exported());
    }
}

/// The label of the `i`-th body in an exported frame: `_somite_` and the
/// decimal digits of `i`.
pub fn body_label(i: usize) -> (r: String)
    ensures
        r@ == "_somite_"@ + decimal_of(i as nat),
{
    let mut out = String::new();
    out.append("_somite_");
    push_decimal(&mut out, i as u128);
    out
}

} // verus!
