use vstd::prelude::*;

verus! {

/// Whether a gripper engages: its oscillator is in the grip phase, the body
/// touches the ground and it is not gripping already.
pub open spec fn grip_wanted(in_grip_phase: bool, on_ground: bool, gripping: bool) -> bool {
    in_grip_phase && on_ground && !gripping
}

/// Whether a gripper lets go: its oscillator has left the grip phase while
/// it grips.
pub open spec fn release_wanted(in_grip_phase: bool, gripping: bool) -> bool {
    !in_grip_phase && gripping
}

/// The gripping state of one body: released, or anchored to the point where
/// the grip began. `P` is the type of a point.
#[derive(Debug, Clone, Copy, PartialEq, Eq)]
pub enum GripState<P> {
    Released,
    Gripped(P),
}

impl<P> GripState<P> {
    /// The state after a grip is engaged at `position`: a body that already
    /// grips keeps its anchor.
    pub open spec fn engaged(self, position: P) -> GripState<P> {
        match self {
            GripState::Released => GripState::Gripped(position),
            GripState::Gripped(anchor) => GripState::Gripped(anchor),
        }
    }

    /// The state after one evaluation of the transition table, in its order of
    /// priority: engage, else release, else no change.
    pub open spec fn stepped(self, in_grip_phase: bool, on_ground: bool, position: P) -> GripState<P> {
        if grip_wanted(in_grip_phase, on_ground, self is Gripped) {
            self.engaged(position)
        } else if release_wanted(in_grip_phase, self is Gripped) {
            GripState::Released
        } else {
            self
        }
    }

    /// A released state.
    pub fn new() -> (r: Self)
        ensures
            r is Released,
    {
        GripState::Released
    }

    pub fn is_gripping(&self) -> (r: bool)
        ensures
            r == (*self is Gripped),
    {
        match self {
            GripState::Released => false,
            GripState::Gripped(_) => true,
        }
    }

    /// Engages the grip at `position`; the anchor is written only when the
    /// grip begins.
    pub fn grip(&mut self, position: P)
        ensures
            *final(self) == old(self).engaged(position),
    {
        if !self.is_gripping() {
            *self = GripState::Gripped(position);
        }
    }

    pub fn release(&mut self)
        ensures
            *final(self) is Released,
    {
        *self = GripState::Released;
    }

    /// The anchor while gripping.
    pub fn get_gripping_point(&self) -> (r: Option<&P>)
        ensures
            match *self {
                GripState::Released => r is None,
                GripState::Gripped(anchor) => r == Some(&anchor),
            },
    {
        match self {
            GripState::Released => None,
            GripState::Gripped(anchor) => Some(anchor),
        }
    }

    /// Evaluates the transition table once. `in_grip_phase` tells whether the
    /// gripper's oscillator is in its grip phase, `on_ground` whether the body
    /// touches the ground, and `position` is where the body is now.
    pub fn update(&mut self, in_grip_phase: bool, on_ground: bool, position: P)
        ensures
            *final(self) == old(self).stepped(in_grip_phase, on_ground, position),
    {
        let gripping = self.is_gripping();
        if should_grip(in_grip_phase, on_ground, gripping) {
            self.grip(position);
        } else if should_release(in_grip_phase, gripping) {
            self.release();
        }
    }
}

/// Whether a released gripper engages now.
pub fn should_grip(in_grip_phase: bool, on_ground: bool, gripping: bool) -> (r: bool)
    ensures
        r == grip_wanted(in_grip_phase, on_ground, gripping),
{
    in_grip_phase && on_ground && !gripping
}

/// Whether a gripping gripper lets go now.
pub fn should_release(in_grip_phase: bool, gripping: bool) -> (r: bool)
    ensures
        r == release_wanted(in_grip_phase, gripping),
{
    !in_grip_phase && gripping
}

/// Engaging a grip twice in a row without a release in between leaves the
/// anchor where the first engagement put it.
pub proof fn lemma_grip_keeps_first_anchor<P>(s: GripState<P>, first: P, second: P)
    ensures
        s.engaged(first).engaged(second) == s.engaged(first),
        s is Released ==> s.engaged(first).engaged(second) == GripState::Gripped(first),
{
}

/// Leaving the ground never releases a grip: only the phase does.
pub proof fn lemma_airborne_keeps_grip<P>(s: GripState<P>, in_grip_phase: bool, position: P)
    requires
        s is Gripped,
        in_grip_phase,
    ensures
        s.stepped(in_grip_phase, false, position) == s,
{
}

/// A body in the air never starts to grip.
pub proof fn lemma_airborne_never_engages<P>(s: GripState<P>, in_grip_phase: bool, position: P)
    requires
        s is Released,
    ensures
        s.stepped(in_grip_phase, false, position) is Released,
{
}

} // verus!

verus! {

/// Evaluates the transition table once for every gripper: gripper `i` is in
/// its grip phase when `in_grip_phase[i]`, touches the ground when
/// `on_ground[i]`, and stands at `positions[i]`.
pub fn update_grippers<P: Copy>(
    grips: &mut Vec<GripState<P>>,
    in_grip_phase: &Vec<bool>,
    on_ground: &Vec<bool>,
    positions: &Vec<P>,
)
    requires
        in_grip_phase.len() == old(grips).len(),
        on_ground.len() == old(grips).len(),
        positions.len() == old(grips).len(),
    ensures
        final(grips).len() == old(grips).len(),
        forall|i: int|
            0 <= i < old(grips).len() ==> #[trigger] final(grips)[i] == old(grips)[i].stepped(
                in_grip_phase[i],
                on_ground[i],
                positions[i],
            ),
{
    let ghost before = grips@;
    let mut i: usize = 0;
    while i < grips.len()
        invariant
            grips.len() == before.len(),
            in_grip_phase.len() == before.len(),
            on_ground.len() == before.len(),
            positions.len() == before.len(),
            i <= grips.len(),
            forall|k: int|
                0 <= k < i ==> #[trigger] grips[k] == before[k].stepped(
                    in_grip_phase[k],
                    on_ground[k],
                    positions[k],
                ),
            forall|k: int| i <= k < grips.len() ==> #[trigger] grips[k] == before[k],
        decreases grips.len() - i,
    {
        let position = positions[i];
        grips[i].update(in_grip_phase[i], on_ground[i], position);
        i = i + 1;
    }
}

} // verus!
