//! The interactive pass: pairing spawn events with precomputed poses.
//!
//! A monotonic identity allocator hands out body ids in creation order; on
//! each spawn event the consumer pulls the next unconsumed id, looks its
//! settled pose up in the frozen [`PoseIndex`], and derives two placements
//! from it: a live physics placement at the position the request asked for,
//! and a visual placement in normalized box space at the settled pose.
//! Consuming more events than the index holds entries is a consistency
//! violation and is reported as a distinguished error, never answered with
//! a garbage pose.

use vstd::prelude::*;

use crate::geometry::{coord_in_range, Pose, Vec2Fix, COORD_LIMIT};
use crate::mapper::{
    normalize_x, normalize_y, sim_to_normalized, visual_rotation_offset, BoxSpec, NormCoord,
};
use crate::pose_index::PoseIndex;

verus! {

/// The one failure of the interactive pass: a spawn event asked for an id
/// with no corresponding entry in the pose index.
#[derive(Clone, Copy, Debug, PartialEq, Eq, Structural)]
pub enum SpawnError {
    PoseIndexExhausted,
}

/// A request for one new consumer-side entity.
#[derive(Clone, Copy, Debug, PartialEq, Eq, Structural)]
pub struct SpawnRequest {
    /// Where the fresh live body starts, in simulation milli-units. Not
    /// necessarily the settled position of the paired pose.
    pub target_position: Vec2Fix,
    /// Circle radius in milli-units.
    pub radius: i64,
}

impl SpawnRequest {
    pub open spec fn wf(self) -> bool {
        &&& coord_in_range(self.target_position.x)
        &&& coord_in_range(self.target_position.y)
        &&& 0 < self.radius < COORD_LIMIT
    }
}

/// The fresh dynamic body a spawned entity gets: placed at the requested
/// position, with continuous collision detection enabled.
#[derive(Clone, Copy, Debug, PartialEq, Eq, Structural)]
pub struct LivePlacement {
    pub position: Vec2Fix,
    pub radius: i64,
    pub ccd_enabled: bool,
}

/// The visual a spawned entity gets: its settled center and radius scaled
/// into the unit square of texture space, and the settled rotation its
/// texture was baked for.
#[derive(Clone, Copy, Debug, PartialEq, Eq, Structural)]
pub struct VisualPlacement {
    pub center_x: NormCoord,
    pub center_y: NormCoord,
    pub radius: NormCoord,
    pub rotation_milli: i64,
}

/// One entity created by the interactive pass.
#[derive(Clone, Copy, Debug, PartialEq, Eq, Structural)]
pub struct SpawnedEntity {
    /// The id consumed from the pose index; the join key back to the
    /// settle pass.
    pub id: usize,
    /// The settled pose the id was paired with.
    pub settled_pose: Pose,
    /// Correction added to the live body's tracked rotation when its
    /// render transform is rebuilt (see
    /// [`crate::mapper::sync_render_transform`]).
    pub rotation_offset: i64,
    pub live: LivePlacement,
    pub visual: VisualPlacement,
}

/// The entity a request and its paired settled pose give rise to.
pub open spec fn spawned_entity_spec(
    id: usize,
    req: SpawnRequest,
    pose: Pose,
    b: BoxSpec,
) -> SpawnedEntity {
    SpawnedEntity {
        id,
        settled_pose: pose,
        rotation_offset: (-pose.rotation) as i64,
        live: LivePlacement {
            position: req.target_position,
            radius: req.radius,
            ccd_enabled: true,
        },
        visual: VisualPlacement {
            center_x: normalize_x(pose.position, b),
            center_y: normalize_y(pose.position, b),
            radius: NormCoord { num: req.radius, den: b.size },
            rotation_milli: pose.rotation,
        },
    }
}

/// The monotonic id counter: shared state initialized to zero, incremented
/// by exactly one per successfully consumed spawn request.
#[derive(Clone, Copy, Debug, PartialEq, Eq, Structural)]
pub struct IdentityAllocator {
    pub next: usize,
}

impl IdentityAllocator {
    pub fn new() -> (a: IdentityAllocator)
        ensures
            a.next == 0,
    {
        IdentityAllocator { next: 0 }
    }

    /// Consumes the next unconsumed id and its pose. Succeeds exactly when
    /// the counter has not yet overrun the index; on overrun nothing is
    /// consumed and the distinguished error comes back.
    pub fn allocate(&mut self, index: &PoseIndex) -> (r: Result<(usize, Pose), SpawnError>)
        ensures
            r is Ok <==> old(self).next < index.spec_len(),
            match r {
                Ok((id, pose)) => {
                    &&& id == old(self).next
                    &&& pose == index@[id as int]
                    &&& final(self).next == old(self).next + 1
                },
                Err(e) => {
                    &&& e is PoseIndexExhausted
                    &&& *final(self) == *old(self)
                },
            },
    {
        let n = index.len();
        if self.next < n {
            match index.get(self.next) {
                Option::Some(pose) => {
                    let id = self.next;
                    self.next = self.next + 1;
                    Result::Ok((id, pose))
                },
                Option::None => {
                    proof {
                        assert(false);
                    }
                    Result::Err(SpawnError::PoseIndexExhausted)
                },
            }
        } else {
            Result::Err(SpawnError::PoseIndexExhausted)
        }
    }
}

/// What handling one spawn trigger produced.
pub enum TriggerOutcome {
    /// The guard was already set: the trigger spawns at most once per
    /// process, later triggers change nothing.
    AlreadySpawned,
    /// One entity per request, in arrival order.
    Spawned(Vec<SpawnedEntity>),
}

/// The consumer side of the interactive pass: the id counter, the declared
/// texture box, and an explicit has-run-once guard held in this state
/// object rather than in ambient module state.
pub struct SpawnConsumer {
    pub box_spec: BoxSpec,
    pub allocator: IdentityAllocator,
    pub has_spawned: bool,
}

impl SpawnConsumer {
    pub open spec fn wf(self) -> bool {
        self.box_spec.wf()
    }

    pub fn new(box_spec: BoxSpec) -> (c: SpawnConsumer)
        requires
            box_spec.wf(),
        ensures
            c.box_spec == box_spec,
            c.allocator.next == 0,
            !c.has_spawned,
            c.wf(),
    {
        SpawnConsumer { box_spec, allocator: IdentityAllocator::new(), has_spawned: false }
    }

    /// Consumes exactly one pose index entry for one request and derives
    /// both placements from it. Succeeds exactly when an unconsumed entry
    /// is left; the counter moves only on success.
    pub fn process_request(&mut self, index: &PoseIndex, req: SpawnRequest) -> (r: Result<
        SpawnedEntity,
        SpawnError,
    >)
        requires
            old(self).wf(),
            index.wf(),
            req.wf(),
        ensures
            final(self).wf(),
            final(self).box_spec == old(self).box_spec,
            final(self).has_spawned == old(self).has_spawned,
            r is Ok <==> old(self).allocator.next < index.spec_len(),
            match r {
                Ok(ent) => {
                    &&& ent == spawned_entity_spec(
                        old(self).allocator.next,
                        req,
                        index@[old(self).allocator.next as int],
                        old(self).box_spec,
                    )
                    &&& final(self).allocator.next == old(self).allocator.next + 1
                },
                Err(e) => {
                    &&& e is PoseIndexExhausted
                    &&& *final(self) == *old(self)
                },
            },
    {
        match self.allocator.allocate(index) {
            Result::Ok((id, pose)) => {
                proof {
                    index.lemma_ids_dense();
                    index.lemma_entry_bounded(id as int);
                }
                let (center_x, center_y) = sim_to_normalized(pose.position, &self.box_spec);
                let rotation_offset = visual_rotation_offset(pose.rotation);
                Result::Ok(
                    SpawnedEntity {
                        id,
                        settled_pose: pose,
                        rotation_offset,
                        live: LivePlacement {
                            position: req.target_position,
                            radius: req.radius,
                            ccd_enabled: true,
                        },
                        visual: VisualPlacement {
                            center_x,
                            center_y,
                            radius: NormCoord { num: req.radius, den: self.box_spec.size },
                            rotation_milli: pose.rotation,
                        },
                    },
                )
            },
            Result::Err(e) => Result::Err(e),
        }
    }

    /// Handles one spawn trigger: if the guard is still clear, drains the
    /// whole batch of requests in arrival order, one index entry each, and
    /// sets the guard. Succeeds exactly when enough unconsumed entries are
    /// left for the whole batch; on overrun nothing is consumed and the
    /// guard stays clear, so the caller can abort as the fatal condition
    /// demands.
    pub fn handle_spawn_trigger(&mut self, index: &PoseIndex, requests: &Vec<SpawnRequest>) -> (r:
        Result<TriggerOutcome, SpawnError>)
        requires
            old(self).wf(),
            index.wf(),
            forall|i: int| 0 <= i < requests@.len() ==> (#[trigger] requests@[i]).wf(),
        ensures
            final(self).wf(),
            final(self).box_spec == old(self).box_spec,
            old(self).has_spawned ==> {
                &&& r matches Ok(o) && o is AlreadySpawned
                &&& *final(self) == *old(self)
            },
            !old(self).has_spawned ==> {
                &&& (r matches Ok(o) && o is Spawned) <==> old(self).allocator.next
                    + requests@.len() <= index.spec_len()
                &&& match r {
                    Ok(outcome) => {
                        &&& outcome matches TriggerOutcome::Spawned(ents)
                        &&& ents@.len() == requests@.len()
                        &&& forall|i: int|
                            0 <= i < requests@.len() ==> #[trigger] ents@[i]
                                == spawned_entity_spec(
                                (old(self).allocator.next + i) as usize,
                                requests@[i],
                                index@[old(self).allocator.next + i],
                                old(self).box_spec,
                            )
                        &&& final(self).allocator.next == old(self).allocator.next
                            + requests@.len()
                        &&& final(self).has_spawned
                    },
                    Err(e) => {
                        &&& e is PoseIndexExhausted
                        &&& *final(self) == *old(self)
                    },
                }
            },
    {
        if self.has_spawned {
            return Result::Ok(TriggerOutcome::AlreadySpawned);
        }
        let n = index.len();
        if self.allocator.next > n || requests.len() > n - self.allocator.next {
            return Result::Err(SpawnError::PoseIndexExhausted);
        }
        let m = requests.len();
        let mut ents: Vec<SpawnedEntity> = Vec::new();
        let mut i: usize = 0;
        while i < m
            invariant
                self.wf(),
                index.wf(),
                m == requests@.len(),
                forall|k: int| 0 <= k < m ==> (#[trigger] requests@[k]).wf(),
                i <= m,
                self.box_spec == old(self).box_spec,
                self.has_spawned == old(self).has_spawned,
                !old(self).has_spawned,
                self.allocator.next == old(self).allocator.next + i,
                old(self).allocator.next + m <= index.spec_len(),
                ents@.len() == i,
                forall|k: int|
                    0 <= k < i ==> #[trigger] ents@[k] == spawned_entity_spec(
                        (old(self).allocator.next + k) as usize,
                        requests@[k],
                        index@[old(self).allocator.next + k],
                        old(self).box_spec,
                    ),
            decreases m - i,
        {
            let req = requests[i];
            match self.process_request(index, req) {
                Result::Ok(ent) => {
                    ents.push(ent);
                },
                Result::Err(_) => {
                    proof {
                        assert(false);
                    }
                },
            }
            i = i + 1;
        }
        self.has_spawned = true;
        Result::Ok(TriggerOutcome::Spawned(ents))
    }
}

/// The bounded FIFO channel that spawn events arrive on. Events are pushed
/// at the back, refused when the channel is full, and drained fully, in
/// arrival order, once per tick; none is dropped or reordered.
pub struct EventQueue {
    events: Vec<SpawnRequest>,
    capacity: usize,
}

impl View for EventQueue {
    type V = Seq<SpawnRequest>;

    /// The pending events, oldest first.
    closed spec fn view(&self) -> Seq<SpawnRequest> {
        self.events@
    }
}

impl EventQueue {
    /// The bound the channel was created with.
    pub closed spec fn spec_capacity(&self) -> usize {
        self.capacity
    }

    /// The channel never holds more events than its bound.
    pub closed spec fn wf(&self) -> bool {
        self@.len() <= self.capacity
    }

    pub fn new(capacity: usize) -> (q: EventQueue)
        ensures
            q@.len() == 0,
            q.spec_capacity() == capacity,
            q.wf(),
    {
        EventQueue { events: Vec::new(), capacity }
    }

    /// Number of pending events.
    pub fn len(&self) -> (n: usize)
        ensures
            n == self@.len(),
    {
        self.events.len()
    }

    /// Appends an event, or refuses it when the channel is full.
    pub fn push(&mut self, e: SpawnRequest) -> (accepted: bool)
        requires
            old(self).wf(),
        ensures
            final(self).wf(),
            final(self).spec_capacity() == old(self).spec_capacity(),
            accepted <==> old(self)@.len() < old(self).spec_capacity(),
            accepted ==> final(self)@ == old(self)@.push(e),
            !accepted ==> final(self)@ == old(self)@,
    {
        if self.events.len() < self.capacity {
            self.events.push(e);
            true
        } else {
            false
        }
    }

    /// Takes every pending event out, in arrival order, leaving the
    /// channel empty.
    pub fn drain(&mut self) -> (out: Vec<SpawnRequest>)
        requires
            old(self).wf(),
        ensures
            final(self).wf(),
            final(self).spec_capacity() == old(self).spec_capacity(),
            out@ == old(self)@,
            final(self)@.len() == 0,
    {
        let mut out: Vec<SpawnRequest> = Vec::new();
        while self.events.len() > 0
            invariant
                self.spec_capacity() == old(self).spec_capacity(),
                out@ + self.events@ == old(self)@,
            decreases self.events@.len(),
        {
            let e = self.events.remove(0);
            out.push(e);
        }
        proof {
            assert(out@ == out@ + self.events@);
        }
        out
    }
}

} // verus!
