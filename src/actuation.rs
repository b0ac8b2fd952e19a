use vstd::prelude::*;
use crate::topology::{ChainTopology, UnknownSegment};

verus! {

/// What sets the target angle of a joint's actuator in one step.
#[derive(Debug, Clone, Copy, PartialEq, Eq)]
pub enum JointDrive<A> {
    /// The joint has no actuator.
    Passive,
    /// The phase of the oscillator with this number sets the target.
    Phase(usize),
    /// The caller pinned this target for the step.
    Pinned(A),
}

/// The actuated joints of a chain and the targets pinned on them by the
/// caller. A pin holds for the next step only: the step that reads it clears
/// it, and the joint then follows its oscillator again. `A` is the type of an
/// angle.
pub struct Actuation<A> {
    slots: Vec<Option<usize>>,
    pins: Vec<Option<A>>,
}

impl<A: Copy> Actuation<A> {
    /// For each joint, the number of the oscillator driving it.
    pub closed spec fn slots(&self) -> Seq<Option<usize>> {
        self.slots@
    }

    /// For each joint, the target pinned on it.
    pub closed spec fn pins(&self) -> Seq<Option<A>> {
        self.pins@
    }

    /// One pin per joint, and pins only on actuated joints.
    pub open spec fn wf(&self) -> bool {
        &&& self.pins().len() == self.slots().len()
        &&& forall|j: int| 0 <= j < self.slots().len() && #[trigger] self.slots()[j] is None ==> self.pins()[j] is None
    }

    /// The drive of joint `j` in the next step.
    pub open spec fn drive_of(&self, j: int) -> JointDrive<A> {
        match self.slots()[j] {
            None => JointDrive::Passive,
            Some(k) => match self.pins()[j] {
                Some(a) => JointDrive::Pinned(a),
                None => JointDrive::Phase(k),
            },
        }
    }

    /// No joint pinned; the slots of `topology`'s joints.
    pub fn new(topology: &ChainTopology) -> (r: Self)
        requires
            topology.wf(),
        ensures
            r.wf(),
            r.slots().len() == topology.bodies() - 2,
            forall|j: int|
                0 <= j < r.slots().len() ==> match #[trigger] r.slots()[j] {
                    Some(k) => k < topology.oscillators().len() && topology.oscillators()[k as int] == j + 1,
                    None => !topology.oscillators().contains((j + 1) as usize),
                },
            forall|j: int| 0 <= j < r.pins().len() ==> #[trigger] r.pins()[j] is None,
    {
        let slots = topology.actuator_slots();
        let pins = no_pins(slots.len());
        Actuation { slots, pins }
    }

    /// Pins `target` on the joint centered on body `id` for the next step.
    /// A body that carries no oscillator is refused and nothing changes.
    pub fn pin_target(&mut self, id: usize, target: A) -> (r: Result<(), UnknownSegment>)
        requires
            old(self).wf(),
        ensures
            final(self).wf(),
            final(self).slots() == old(self).slots(),
            r is Ok <==> (1 <= id <= old(self).slots().len() && old(self).slots()[id - 1] is Some),
            r matches Err(e) ==> e.id == id && final(self).pins() == old(self).pins(),
            r is Ok ==> final(self).pins() == old(self).pins().update(id - 1, Some(target)),
    {
        if id == 0 || id > self.slots.len() {
            return Err(UnknownSegment { id });
        }
        if self.slots[id - 1].is_none() {
            return Err(UnknownSegment { id });
        }
        self.pins.set(id - 1, Some(target));
        Ok(())
    }

    /// The drive of every joint for this step, tail to head; the pins are
    /// used up.
    pub fn take_drives(&mut self) -> (r: Vec<JointDrive<A>>)
        requires
            old(self).wf(),
        ensures
            final(self).wf(),
            final(self).slots() == old(self).slots(),
            r.len() == old(self).slots().len(),
            forall|j: int| 0 <= j < r.len() ==> #[trigger] r[j] == old(self).drive_of(j),
            forall|j: int| 0 <= j < final(self).pins().len() ==> #[trigger] final(self).pins()[j] is None,
    {
        let mut drives: Vec<JointDrive<A>> = Vec::new();
        let mut j: usize = 0;
        while j < self.slots.len()
            invariant
                self.wf(),
                j <= self.slots().len(),
                drives.len() == j,
                forall|m: int| 0 <= m < j ==> #[trigger] drives[m] == self.drive_of(m),
            decreases self.slots().len() - j,
        {
            let d = match self.slots[j] {
                None => JointDrive::Passive,
                Some(k) => match self.pins[j] {
                    Some(a) => JointDrive::Pinned(a),
                    None => JointDrive::Phase(k),
                },
            };
            drives.push(d);
            j = j + 1;
        }
        self.pins = no_pins(self.slots.len());
        drives
    }

    /// How many joints the chain has.
    pub fn joint_count(&self) -> (r: usize)
        ensures
            r == self.slots().len(),
    {
        self.slots.len()
    }
}

fn no_pins<A>(n: usize) -> (r: Vec<Option<A>>)
    ensures
        r.len() == n,
        forall|j: int| 0 <= j < n ==> #[trigger] r[j] is None,
{
    let mut pins: Vec<Option<A>> = Vec::new();
    let mut j: usize = 0;
    while j < n
        invariant
            j <= n,
            pins.len() == j,
            forall|m: int| 0 <= m < j ==> #[trigger] pins[m] is None,
        decreases n - j,
    {
        pins.push(None);
        j = j + 1;
    }
    pins
}

/// A pin holds for one step only: after the drives of a step are taken, the
/// next step's drives are the oscillator phases on every actuated joint.
pub proof fn lemma_pins_hold_one_step<A: Copy>(before: Actuation<A>, after: Actuation<A>, j: int)
    requires
        after.wf(),
        after.slots() == before.slots(),
        forall|m: int| 0 <= m < after.pins().len() ==> #[trigger] after.pins()[m] is None,
        0 <= j < after.slots().len(),
    ensures
        after.drive_of(j) == (match before.slots()[j] {
            None => JointDrive::Passive,
            Some(k) => JointDrive::<A>::Phase(k),
        }),
{
    assert(after.pins()[j] is None);
}

} // verus!
