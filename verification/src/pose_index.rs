//! The frozen outcome of a settle pass: an immutable mapping from body id
//! to final pose, built exactly once when equilibrium is declared and only
//! read afterwards.

use vstd::prelude::*;
use vstd::set_lib::lemma_int_range;

use crate::geometry::{pose_bounded, Pose};
use crate::settle::{SettleRunner, SettleState};
use crate::world::PhysicsWorld;

verus! {

/// Immutable mapping from body id to final `(position, rotation)`. The
/// only constructor is [`PoseIndex::from_settled_world`] and no method
/// mutates the entries, so the index stays read-only for the rest of the
/// process.
pub struct PoseIndex {
    poses: Vec<Pose>,
}

impl View for PoseIndex {
    type V = Map<int, Pose>;

    /// The mapping this index holds: each id in `[0, N)` to its pose.
    closed spec fn view(&self) -> Map<int, Pose> {
        Map::new(|i: int| 0 <= i < self.poses@.len(), |i: int| self.poses@[i])
    }
}

impl PoseIndex {
    /// Number of entries.
    pub closed spec fn spec_len(&self) -> nat {
        self.poses@.len()
    }

    /// Every stored pose stays inside the coordinate bound.
    pub closed spec fn wf(&self) -> bool {
        forall|i: int| 0 <= i < self.poses@.len() ==> pose_bounded(#[trigger] self.poses@[i])
    }

    /// Freezes the current poses of a settled world: one pass over all
    /// dynamic bodies, writing each body's pose under its id. The runner
    /// must have declared equilibrium; the index then has exactly one entry
    /// per dynamic body that existed during the settle pass.
    pub fn from_settled_world(world: &PhysicsWorld, runner: &SettleRunner) -> (idx: PoseIndex)
        requires
            world.wf(),
            runner.state is Settled,
        ensures
            idx.wf(),
            idx.spec_len() == world.bodies@.len(),
            forall|i: int| 0 <= i < world.bodies@.len() ==> idx@[i] == world.bodies@[i].pose,
            forall|i: int| idx@.dom().contains(i) <==> 0 <= i < world.bodies@.len(),
    {
        let mut poses: Vec<Pose> = Vec::new();
        let n = world.body_count();
        let mut i: usize = 0;
        while i < n
            invariant
                n == world.bodies@.len(),
                world.wf(),
                i <= n,
                poses@.len() == i,
                forall|k: int| 0 <= k < i ==> poses@[k] == world.bodies@[k].pose,
            decreases n - i,
        {
            poses.push(world.bodies[i].pose);
            i = i + 1;
        }
        PoseIndex { poses }
    }

    /// Number of entries, as executable code.
    pub fn len(&self) -> (n: usize)
        ensures
            n == self.spec_len(),
    {
        self.poses.len()
    }

    /// Looks an id up. Exactly the ids below the entry count are present:
    /// an id at or past it yields `None`, never a garbage pose.
    pub fn get(&self, id: usize) -> (r: Option<Pose>)
        ensures
            r is Some <==> self@.dom().contains(id as int),
            match r {
                Some(p) => id < self.spec_len() && p == self@[id as int],
                None => id >= self.spec_len(),
            },
    {
        if id < self.poses.len() {
            Option::Some(self.poses[id])
        } else {
            Option::None
        }
    }

    /// The ids present in the index are exactly `{0, ..., N-1}` for its
    /// entry count `N`: dense, no duplicates, no gaps — and there are
    /// exactly `N` of them.
    pub proof fn lemma_ids_dense(&self)
        ensures
            forall|i: int| self@.dom().contains(i) <==> 0 <= i < self.spec_len(),
            self@.dom().finite(),
            self@.dom().len() == self.spec_len(),
    {
        let n = self.spec_len() as int;
        lemma_int_range(0, n);
        assert(self@.dom() =~= vstd::set_lib::set_int_range(0, n));
    }

    /// A pose from the index, bounded storage being an invariant.
    pub proof fn lemma_entry_bounded(&self, i: int)
        requires
            self.wf(),
            self@.dom().contains(i),
        ensures
            pose_bounded(self@[i]),
    {
    }
}

/// Freezing is deterministic: any two indexes with one entry per body of
/// the same settled world, each holding that body's pose, carry the same
/// mapping. Together with the settle decisions being a function of the
/// observations, two passes over identical worlds agree exactly.
pub proof fn lemma_frozen_index_unique(w: PhysicsWorld, idx1: PoseIndex, idx2: PoseIndex)
    requires
        idx1.spec_len() == w.bodies@.len(),
        idx2.spec_len() == w.bodies@.len(),
        forall|i: int| 0 <= i < w.bodies@.len() ==> idx1@[i] == w.bodies@[i].pose,
        forall|i: int| 0 <= i < w.bodies@.len() ==> idx2@[i] == w.bodies@[i].pose,
    ensures
        idx1@ == idx2@,
{
    idx1.lemma_ids_dense();
    idx2.lemma_ids_dense();
    assert(idx1@ =~= idx2@);
}

/// The final result of the settle pass: the resting pose of each body,
/// keyed by the id the body was created under.
pub struct SimulationResult {
    pub positions: PoseIndex,
}

} // verus!
