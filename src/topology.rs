use vstd::prelude::*;
use crate::text::{decimal_of, push_decimal};

verus! {

/// The elements of `s` strictly increase.
pub open spec fn strictly_increasing(s: Seq<usize>) -> bool {
    forall|i: int, j: int| 0 <= i < j < s.len() ==> #[trigger] s[i] < #[trigger] s[j]
}

/// Body `id` is an interior body of a chain of `n`: it has a neighbour on
/// each side, so it is the center of a joint.
pub open spec fn is_interior(n: nat, id: nat) -> bool {
    1 <= id && id + 1 < n
}

/// Why a chain layout was refused.
#[derive(Debug, PartialEq, Eq, Structural, Clone, Copy)]
pub enum TopologyError {
    /// A chain needs at least two bodies.
    TooFewBodies,
    /// Oscillator bodies must be interior bodies, in strictly increasing order.
    BadOscillatorIds,
    /// Gripper bodies must be bodies of the chain, in strictly increasing order.
    BadGripperIds,
}

/// A body index that carries no oscillator of the kind asked for.
#[derive(Debug, PartialEq, Eq, Structural, Clone, Copy)]
pub struct UnknownSegment {
    pub id: usize,
}

impl UnknownSegment {
    /// The text of the error.
    pub fn message(&self) -> (r: String)
        ensures
            r@ == "segment with id "@ + decimal_of(self.id as nat) + " does not hold an oscillator"@,
    {
        let mut out = String::new();
        out.append("segment with id ");
        push_decimal(&mut out, self.id as u128);
        out.append(" does not hold an oscillator");
        out
    }
}

/// The layout of a chain of bodies, ordered tail to head: how many there are,
/// which interior bodies carry a locomotion oscillator (driving the actuator
/// of the joint they center) and which carry a gripper. Oscillators and
/// grippers are numbered by the order of their bodies along the chain.
pub struct ChainTopology {
    body_count: usize,
    oscillator_ids: Vec<usize>,
    gripper_ids: Vec<usize>,
}

impl ChainTopology {
    pub closed spec fn bodies(&self) -> nat {
        self.body_count as nat
    }

    /// The bodies that carry a locomotion oscillator, in chain order.
    pub closed spec fn oscillators(&self) -> Seq<usize> {
        self.oscillator_ids@
    }

    /// The bodies that carry a gripper, in chain order.
    pub closed spec fn grippers(&self) -> Seq<usize> {
        self.gripper_ids@
    }

    pub open spec fn valid_oscillators(n: nat, ids: Seq<usize>) -> bool {
        strictly_increasing(ids) && forall|k: int| 0 <= k < ids.len() ==> is_interior(n, #[trigger] ids[k] as nat)
    }

    pub open spec fn valid_grippers(n: nat, ids: Seq<usize>) -> bool {
        strictly_increasing(ids) && forall|k: int| 0 <= k < ids.len() ==> #[trigger] ids[k] < n
    }

    pub open spec fn wf(&self) -> bool {
        &&& self.bodies() >= 2
        &&& Self::valid_oscillators(self.bodies(), self.oscillators())
        &&& Self::valid_grippers(self.bodies(), self.grippers())
    }

    /// Builds the layout of a chain of `body_count` bodies.
    pub fn new(body_count: usize, oscillator_ids: Vec<usize>, gripper_ids: Vec<usize>) -> (r: Result<
        Self,
        TopologyError,
    >)
        ensures
            r is Err <==> (body_count < 2 || !Self::valid_oscillators(body_count as nat, oscillator_ids@)
                || !Self::valid_grippers(body_count as nat, gripper_ids@)),
            r == Err::<Self, _>(TopologyError::TooFewBodies) <==> body_count < 2,
            r == Err::<Self, _>(TopologyError::BadOscillatorIds) <==> (body_count >= 2
                && !Self::valid_oscillators(body_count as nat, oscillator_ids@)),
            r == Err::<Self, _>(TopologyError::BadGripperIds) <==> (body_count >= 2
                && Self::valid_oscillators(body_count as nat, oscillator_ids@)
                && !Self::valid_grippers(body_count as nat, gripper_ids@)),
            r matches Ok(t) ==> t.wf() && t.bodies() == body_count && t.oscillators()
                == oscillator_ids@ && t.grippers() == gripper_ids@,
    {
        if body_count < 2 {
            return Err(TopologyError::TooFewBodies);
        }
        if !increasing_below(&oscillator_ids, 1, body_count - 1) {
            return Err(TopologyError::BadOscillatorIds);
        }
        if !increasing_below(&gripper_ids, 0, body_count) {
            return Err(TopologyError::BadGripperIds);
        }
        Ok(ChainTopology { body_count, oscillator_ids, gripper_ids })
    }

    pub fn body_count(&self) -> (r: usize)
        ensures
            r == self.bodies(),
    {
        self.body_count
    }

    pub fn oscillator_ids(&self) -> (r: &Vec<usize>)
        ensures
            r@ == self.oscillators(),
    {
        &self.oscillator_ids
    }

    pub fn gripper_ids(&self) -> (r: &Vec<usize>)
        ensures
            r@ == self.grippers(),
    {
        &self.gripper_ids
    }

    /// How many joints the chain has: one per interior body.
    pub fn joint_count(&self) -> (r: usize)
        requires
            self.wf(),
        ensures
            r == self.bodies() - 2,
    {
        self.body_count - 2
    }

    /// The number of the oscillator on body `id`.
    pub fn oscillator_index(&self, id: usize) -> (r: Result<usize, UnknownSegment>)
        requires
            self.wf(),
        ensures
            match r {
                Ok(k) => k < self.oscillators().len() && self.oscillators()[k as int] == id,
                Err(e) => e.id == id && !self.oscillators().contains(id),
            },
    {
        match find_sorted(&self.oscillator_ids, id) {
            Some(k) => Ok(k),
            None => Err(UnknownSegment { id }),
        }
    }

    /// The number of the gripper on body `id`.
    pub fn gripper_index(&self, id: usize) -> (r: Result<usize, UnknownSegment>)
        requires
            self.wf(),
        ensures
            match r {
                Ok(k) => k < self.grippers().len() && self.grippers()[k as int] == id,
                Err(e) => e.id == id && !self.grippers().contains(id),
            },
    {
        match find_sorted(&self.gripper_ids, id) {
            Some(k) => Ok(k),
            None => Err(UnknownSegment { id }),
        }
    }

    /// For each joint, tail to head (the joint centered on body `j + 1` is
    /// slot `j`), the number of the oscillator that drives its actuator, or
    /// `None` where the joint has no actuator.
    pub fn actuator_slots(&self) -> (r: Vec<Option<usize>>)
        requires
            self.wf(),
        ensures
            r.len() == self.bodies() - 2,
            forall|j: int|
                0 <= j < r.len() ==> match #[trigger] r[j] {
                    Some(k) => k < self.oscillators().len() && self.oscillators()[k as int] == j + 1,
                    None => !self.oscillators().contains((j + 1) as usize),
                },
    {
        let ids = &self.oscillator_ids;
        let n = self.body_count;
        let mut slots: Vec<Option<usize>> = Vec::new();
        let mut k: usize = 0;
        let mut i: usize = 1;
        while i + 1 < n
            invariant
                self.wf(),
                ids@ == self.oscillators(),
                n == self.bodies(),
                1 <= i <= n - 1,
                slots.len() == i - 1,
                k <= ids.len(),
                forall|m: int| 0 <= m < k ==> #[trigger] ids@[m] < i,
                forall|m: int| k <= m < ids.len() ==> #[trigger] ids@[m] >= i,
                forall|j: int|
                    0 <= j < slots.len() ==> match #[trigger] slots[j] {
                        Some(kk) => kk < ids.len() && ids@[kk as int] == j + 1,
                        None => !ids@.contains((j + 1) as usize),
                    },
            decreases n - i,
        {
            if k < ids.len() && ids[k] == i {
                slots.push(Some(k));
                k = k + 1;
                proof {
                    assert forall|m: int| k <= m < ids.len() implies #[trigger] ids@[m] >= i + 1 by {
                        assert(ids@[k - 1] < ids@[m]);
                    }
                }
            } else {
                proof {
                    assert forall|m: int| 0 <= m < ids.len() implies #[trigger] ids@[m] != i by {
                        if m >= k {
                            if m > k {
                                assert(ids@[k as int] < ids@[m]);
                            }
                        }
                    }
                    assert forall|m: int| k <= m < ids.len() implies #[trigger] ids@[m] >= i + 1 by {
                        assert(ids@[m] != i);
                    }
                }
                slots.push(None);
            }
            i = i + 1;
        }
        slots
    }
}

/// Whether `ids` strictly increases and every element lies in `[lo, hi)`.
fn increasing_below(ids: &Vec<usize>, lo: usize, hi: usize) -> (r: bool)
    ensures
        r == (strictly_increasing(ids@) && forall|k: int| 0 <= k < ids.len() ==> lo <= #[trigger] ids@[k] < hi),
{
    let mut i: usize = 0;
    while i < ids.len()
        invariant
            i <= ids.len(),
            strictly_increasing(ids@.subrange(0, i as int)),
            forall|k: int| 0 <= k < i ==> lo <= #[trigger] ids@[k] < hi,
        decreases ids.len() - i,
    {
        if ids[i] < lo || ids[i] >= hi {
            return false;
        }
        if i > 0 && ids[i - 1] >= ids[i] {
            proof {
                let a = (i - 1) as int;
                let b = i as int;
                assert(!(ids@[a] < ids@[b]));
            }
            return false;
        }
        proof {
            let s = ids@.subrange(0, i + 1);
            assert forall|a: int, b: int| 0 <= a < b < s.len() implies #[trigger] s[a] < #[trigger] s[b] by {
                if b < i {
                    assert(ids@.subrange(0, i as int)[a] < ids@.subrange(0, i as int)[b]);
                } else if a < i - 1 {
                    assert(ids@.subrange(0, i as int)[a] < ids@.subrange(0, i as int)[i - 1]);
                }
            }
        }
        i = i + 1;
    }
    proof {
        assert(ids@.subrange(0, i as int) == ids@);
    }
    true
}

/// The position of `id` in the strictly increasing `ids`, by bisection.
fn find_sorted(ids: &Vec<usize>, id: usize) -> (r: Option<usize>)
    requires
        strictly_increasing(ids@),
    ensures
        match r {
            Some(k) => k < ids.len() && ids@[k as int] == id,
            None => !ids@.contains(id),
        },
{
    let mut lo: usize = 0;
    let mut hi: usize = ids.len();
    while lo < hi
        invariant
            strictly_increasing(ids@),
            lo <= hi <= ids.len(),
            forall|m: int| 0 <= m < lo ==> #[trigger] ids@[m] < id,
            forall|m: int| hi <= m < ids.len() ==> #[trigger] ids@[m] > id,
        decreases hi - lo,
    {
        let mid = lo + (hi - lo) / 2;
        if ids[mid] == id {
            return Some(mid);
        } else if ids[mid] < id {
            proof {
                assert forall|m: int| 0 <= m < mid + 1 implies #[trigger] ids@[m] < id by {
                    if m < mid {
                        assert(ids@[m] < ids@[mid as int]);
                    }
                }
            }
            lo = mid + 1;
        } else {
            proof {
                assert forall|m: int| mid <= m < ids.len() implies #[trigger] ids@[m] > id by {
                    if m > mid {
                        assert(ids@[mid as int] < ids@[m]);
                    }
                }
            }
            hi = mid;
        }
    }
    proof {
        assert forall|m: int| 0 <= m < ids.len() implies #[trigger] ids@[m] != id by {
            if m < lo {
            } else {
            }
        }
    }
    None
}

} // verus!
