//! The verified model of the physics world: which bodies exist, under which
//! ids, with which shapes and materials, which of them are awake, and where
//! they currently are.
//!
//! The numerical integrator (gravity, contacts, constraint solving,
//! continuous-collision correction) is an outside collaborator working in
//! floating point; it cannot be stated here. The caller mirrors this model
//! into the integrator, advances it one fixed timestep at a time, and
//! reports back each step's observation: the set of bodies still awake,
//! and, once the pass ends, their final poses.

use vstd::prelude::*;

use crate::geometry::{coord_in_range, pose_bounded, Pose, Vec2Fix, COORD_LIMIT};

verus! {

/// Per-body activation classification, driven by sustained low kinetic
/// energy inside the integrator and mirrored here from its reports.
#[derive(Clone, Copy, Debug, PartialEq, Eq, Structural)]
pub enum Activation {
    Active,
    Sleeping,
}

/// Surface material of a body, in thousandths: `500` is a friction or
/// restitution coefficient of one half.
#[derive(Clone, Copy, Debug, PartialEq, Eq, Structural)]
pub struct Material {
    pub friction_milli: i64,
    pub restitution_milli: i64,
}

/// The single static boundary: an immutable polyline the dynamic bodies
/// come to rest against.
pub struct Boundary {
    pub vertices: Vec<Vec2Fix>,
    pub material: Material,
}

/// A dynamic circular body. Ids are assigned densely in creation order and
/// never reused; the id is the sole join key between the settle pass and
/// the later spawn pass.
#[derive(Clone, Copy, Debug, PartialEq, Eq, Structural)]
pub struct DynamicBody {
    pub id: usize,
    /// Circle radius in milli-units.
    pub radius: i64,
    pub material: Material,
    pub pose: Pose,
    pub activation: Activation,
}

/// The bookkeeping side of the physics world: one optional static boundary
/// plus the dynamic bodies, stored at the index equal to their id.
pub struct PhysicsWorld {
    pub boundary: Option<Boundary>,
    pub bodies: Vec<DynamicBody>,
}

impl PhysicsWorld {
    /// Well-formedness: ids are dense and contiguous in `[0, N)`, radii are
    /// positive, and every stored pose stays inside the coordinate bound.
    pub open spec fn wf(self) -> bool {
        forall|i: int|
            0 <= i < self.bodies@.len() ==> {
                &&& (#[trigger] self.bodies@[i]).id == i
                &&& 0 < self.bodies@[i].radius < COORD_LIMIT
                &&& pose_bounded(self.bodies@[i].pose)
            }
    }

    /// An empty world: no boundary, no bodies.
    pub fn new() -> (w: PhysicsWorld)
        ensures
            w.wf(),
            w.boundary is None,
            w.bodies@.len() == 0,
    {
        PhysicsWorld { boundary: None, bodies: Vec::new() }
    }

    /// Installs the static boundary polyline. The boundary is immutable
    /// once created: a second call changes nothing and reports failure.
    pub fn add_boundary(&mut self, vertices: Vec<Vec2Fix>, material: Material) -> (ok: bool)
        ensures
            ok <==> old(self).boundary is None,
            final(self).bodies@ == old(self).bodies@,
            ok ==> {
                &&& final(self).boundary matches Some(b)
                &&& b.vertices@ == vertices@
                &&& b.material == material
            },
            !ok ==> *final(self) == *old(self),
            old(self).wf() ==> final(self).wf(),
    {
        match self.boundary {
            Option::None => {
                self.boundary = Option::Some(Boundary { vertices, material });
                true
            },
            Option::Some(_) => false,
        }
    }

    /// Creates a dynamic circular body at `position` with rotation zero,
    /// initially awake, and returns its id: the next unused one.
    pub fn add_dynamic_body(&mut self, position: Vec2Fix, radius: i64, material: Material) -> (id:
        usize)
        requires
            old(self).wf(),
            0 < radius < COORD_LIMIT,
            coord_in_range(position.x),
            coord_in_range(position.y),
            old(self).bodies@.len() < usize::MAX,
        ensures
            final(self).wf(),
            id == old(self).bodies@.len(),
            final(self).bodies@ == old(self).bodies@.push(
                DynamicBody {
                    id,
                    radius,
                    material,
                    pose: Pose { position, rotation: 0 },
                    activation: Activation::Active,
                },
            ),
            final(self).boundary == old(self).boundary,
    {
        let id = self.bodies.len();
        self.bodies.push(
            DynamicBody {
                id,
                radius,
                material,
                pose: Pose { position, rotation: 0 },
                activation: Activation::Active,
            },
        );
        id
    }

    /// Number of dynamic bodies.
    pub fn body_count(&self) -> (n: usize)
        ensures
            n == self.bodies@.len(),
    {
        self.bodies.len()
    }

    /// The activation classification of one body.
    pub fn activation(&self, id: usize) -> (a: Activation)
        requires
            id < self.bodies@.len(),
        ensures
            a == self.bodies@[id as int].activation,
    {
        self.bodies[id].activation
    }

    /// Mirrors one integrator step's report: exactly the listed bodies are
    /// awake, every other body sleeps. Ids, shapes, materials and poses are
    /// untouched.
    pub fn record_activation(&mut self, active_ids: &Vec<usize>)
        requires
            old(self).wf(),
            forall|j: int|
                0 <= j < active_ids@.len() ==> #[trigger] active_ids@[j] < old(
                    self,
                ).bodies@.len(),
        ensures
            final(self).wf(),
            final(self).boundary == old(self).boundary,
            final(self).bodies@.len() == old(self).bodies@.len(),
            forall|i: int|
                0 <= i < old(self).bodies@.len() ==> #[trigger] final(self).bodies@[i]
                    == (DynamicBody {
                    activation: if active_ids@.contains(i as usize) {
                        Activation::Active
                    } else {
                        Activation::Sleeping
                    },
                    ..old(self).bodies@[i]
                }),
    {
        let ghost orig = self.bodies@;
        let n = self.bodies.len();
        let mut i: usize = 0;
        while i < n
            invariant
                n == self.bodies@.len(),
                n == orig.len(),
                i <= n,
                self.boundary == old(self).boundary,
                forall|k: int|
                    0 <= k < i ==> #[trigger] self.bodies@[k] == (DynamicBody {
                        activation: Activation::Sleeping,
                        ..orig[k]
                    }),
                forall|k: int| i <= k < n ==> #[trigger] self.bodies@[k] == orig[k],
            decreases n - i,
        {
            let body = self.bodies[i];
            self.bodies.set(i, DynamicBody { activation: Activation::Sleeping, ..body });
            i = i + 1;
        }
        let m = active_ids.len();
        let mut j: usize = 0;
        while j < m
            invariant
                m == active_ids@.len(),
                j <= m,
                n == orig.len(),
                self.bodies@.len() == orig.len(),
                self.boundary == old(self).boundary,
                forall|jj: int| 0 <= jj < m ==> #[trigger] active_ids@[jj] < orig.len(),
                forall|k: int|
                    0 <= k < orig.len() ==> #[trigger] self.bodies@[k] == (DynamicBody {
                        activation: if active_ids@.subrange(0, j as int).contains(k as usize) {
                            Activation::Active
                        } else {
                            Activation::Sleeping
                        },
                        ..orig[k]
                    }),
            decreases m - j,
        {
            let id = active_ids[j];
            let body = self.bodies[id];
            self.bodies.set(id, DynamicBody { activation: Activation::Active, ..body });
            j = j + 1;
            proof {
                assert forall|k: int| 0 <= k < orig.len() implies #[trigger] self.bodies@[k]
                    == (DynamicBody {
                    activation: if active_ids@.subrange(0, j as int).contains(k as usize) {
                        Activation::Active
                    } else {
                        Activation::Sleeping
                    },
                    ..orig[k]
                }) by {
                    let pre = active_ids@.subrange(0, j - 1);
                    let cur = active_ids@.subrange(0, j as int);
                    assert(cur == pre.push(active_ids@[j - 1]));
                    if k == id {
                        assert(cur.contains(k as usize)) by {
                            assert(cur[j - 1] == active_ids@[j - 1]);
                        }
                    } else {
                        if pre.contains(k as usize) {
                            let w = choose|w: int| 0 <= w < pre.len() && pre[w] == k as usize;
                            assert(cur[w] == k as usize);
                            assert(cur.contains(k as usize));
                        }
                        if cur.contains(k as usize) {
                            let w = choose|w: int| 0 <= w < cur.len() && cur[w] == k as usize;
                            if w == j - 1 {
                                assert(cur[w] == active_ids@[j - 1]);
                                assert(active_ids@[j - 1] == id);
                                assert(k as usize == id);
                                assert(k == id as int);
                                assert(false);
                            } else {
                                assert(pre[w] == k as usize);
                                assert(pre.contains(k as usize));
                            }
                        }
                    }
                }
            }
        }
        proof {
            assert(active_ids@.subrange(0, m as int) == active_ids@);
        }
    }

    /// The currently active, i.e. non-sleeping, dynamic bodies: exactly
    /// the ids classified `Active`, in increasing order.
    pub fn active_ids(&self) -> (out: Vec<usize>)
        ensures
            forall|id: usize|
                #[trigger] out@.contains(id) <==> (id < self.bodies@.len()
                    && self.bodies@[id as int].activation is Active),
            forall|i: int, j: int| 0 <= i < j < out@.len() ==> out@[i] < out@[j],
    {
        let mut out: Vec<usize> = Vec::new();
        let n = self.bodies.len();
        let mut i: usize = 0;
        while i < n
            invariant
                n == self.bodies@.len(),
                i <= n,
                forall|id: usize|
                    #[trigger] out@.contains(id) <==> (id < i && self.bodies@[id as int].activation
                        is Active),
                forall|a: int, b: int| 0 <= a < b < out@.len() ==> out@[a] < out@[b],
                forall|a: int| 0 <= a < out@.len() ==> #[trigger] out@[a] < i,
            decreases n - i,
        {
            let is_active = match self.bodies[i].activation {
                Activation::Active => true,
                Activation::Sleeping => false,
            };
            if is_active {
                let ghost pre = out@;
                out.push(i);
                proof {
                    assert(out@ == pre.push(i));
                    assert forall|id: usize| #[trigger] out@.contains(id) implies (id < i + 1
                        && self.bodies@[id as int].activation is Active) by {
                        let w = choose|w: int| 0 <= w < out@.len() && out@[w] == id;
                        if w < out@.len() - 1 {
                            assert(pre[w] == id);
                            assert(pre.contains(id));
                        } else {
                            assert(id == i);
                        }
                    }
                    assert forall|id: usize| (id < i + 1 && self.bodies@[id as int].activation
                        is Active) implies #[trigger] out@.contains(id) by {
                        if id < i {
                            assert(pre.contains(id));
                            let w = choose|w: int| 0 <= w < pre.len() && pre[w] == id;
                            assert(out@[w] == id);
                        } else {
                            assert(out@[out@.len() - 1] == id);
                        }
                    }
                }
            }
            i = i + 1;
        }
        out
    }

    /// Overwrites one body's pose with the integrator's report of where it
    /// now is.
    pub fn set_pose(&mut self, id: usize, pose: Pose)
        requires
            old(self).wf(),
            id < old(self).bodies@.len(),
            pose_bounded(pose),
        ensures
            final(self).wf(),
            final(self).boundary == old(self).boundary,
            final(self).bodies@ == old(self).bodies@.update(
                id as int,
                (DynamicBody { pose, ..old(self).bodies@[id as int] }),
            ),
    {
        let body = self.bodies[id];
        self.bodies.set(id, DynamicBody { pose, ..body });
    }
}

} // verus!
