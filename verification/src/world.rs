//! The engine's internal stores (rigid bodies and colliders) and the handle
//! registry, modelled as one explicit context value owned by the frame
//! scheduler and passed by reference into each operation.
//!
//! Handles are slot indices: a store never shrinks, so a fresh handle never
//! collides with a live one.

use vstd::prelude::*;

use crate::math::Pose;
use crate::registry::{
    handle_entries, handle_map_get, handle_map_insert, handle_map_new, handle_map_remove,
    HandleMap,
};
use crate::shape::{BodyKind, ShapeDef, ShapeV};

verus! {

/// Engine-side state of one rigid body.
#[derive(Clone, Copy, PartialEq, Eq, Structural, Debug)]
pub struct BodyState {
    pub kind: BodyKind,
    pub pose: Pose,
    pub awake: bool,
}

/// Engine-side state of one collider.
pub struct ColliderState {
    pub parent: u64,
    pub shape: ShapeDef,
    pub sensor: bool,
}

/// Mathematical model of a collider.
pub ghost struct ColliderM {
    pub parent: u64,
    pub shape: ShapeV,
    pub sensor: bool,
}

impl View for ColliderState {
    type V = ColliderM;

    open spec fn view(&self) -> ColliderM {
        ColliderM { parent: self.parent, shape: self.shape@, sensor: self.sensor }
    }
}

pub open spec fn collider_slot_view(c: Option<ColliderState>) -> Option<ColliderM> {
    match c {
        Some(cs) => Some(cs@),
        None => None,
    }
}

/// The engine stores and the handle registry.
pub struct PhysicsWorld {
    bodies: Vec<Option<BodyState>>,
    colliders: Vec<Option<ColliderState>>,
    registry: HandleMap,
}

impl PhysicsWorld {
    /// The rigid-body store: handle `h` names slot `h`.
    pub closed spec fn bodies_model(self) -> Seq<Option<BodyState>> {
        self.bodies@
    }

    /// The collider store: handle `h` names slot `h`.
    pub closed spec fn colliders_model(self) -> Seq<Option<ColliderM>> {
        self.colliders@.map_values(|c: Option<ColliderState>| collider_slot_view(c))
    }

    /// The registry's entries.
    pub closed spec fn registry_model(self) -> Map<u64, u64> {
        handle_entries(self.registry)
    }

    /// The body a handle names, if it is live.
    pub open spec fn body_model(self, h: u64) -> Option<BodyState> {
        if h < self.bodies_model().len() {
            self.bodies_model()[h as int]
        } else {
            None
        }
    }

    /// The collider a handle names, if it is live.
    pub open spec fn collider_model(self, h: u64) -> Option<ColliderM> {
        if h < self.colliders_model().len() {
            self.colliders_model()[h as int]
        } else {
            None
        }
    }

    /// A world with empty stores and an empty registry.
    pub fn new() -> (w: PhysicsWorld)
        ensures
            w.bodies_model() == Seq::<Option<BodyState>>::empty(),
            w.colliders_model() == Seq::<Option<ColliderM>>::empty(),
            w.registry_model() == Map::<u64, u64>::empty(),
    {
        let w = PhysicsWorld {
            bodies: Vec::new(),
            colliders: Vec::new(),
            registry: handle_map_new(),
        };
        proof {
            assert(w.colliders_model() =~= Seq::<Option<ColliderM>>::empty());
        }
        w
    }

    /// Number of slots the rigid-body store has handed out.
    pub fn body_slots(&self) -> (n: usize)
        ensures
            n == self.bodies_model().len(),
    {
        self.bodies.len()
    }

    /// Number of slots the collider store has handed out.
    pub fn collider_slots(&self) -> (n: usize)
        ensures
            n == self.colliders_model().len(),
    {
        self.colliders.len()
    }

    /// Inserts a rigid body and returns its fresh handle.
    pub fn insert_body(&mut self, b: BodyState) -> (h: u64)
        ensures
            h as int == old(self).bodies_model().len(),
            final(self).bodies_model() == old(self).bodies_model().push(Some(b)),
            final(self).colliders_model() == old(self).colliders_model(),
            final(self).registry_model() == old(self).registry_model(),
    {
        let h = self.bodies.len() as u64;
        self.bodies.push(Some(b));
        h
    }

    /// The body a handle names, if it is live.
    pub fn get_body(&self, h: u64) -> (r: Option<&BodyState>)
        ensures
            match r {
                Some(b) => self.body_model(h) == Some(*b),
                None => self.body_model(h) is None,
            },
    {
        if h < self.bodies.len() as u64 {
            match &self.bodies[h as usize] {
                Some(b) => Some(b),
                None => None,
            }
        } else {
            None
        }
    }

    /// Writes a body's pose, optionally marking it active; a dead handle is
    /// a silent no-op. The transform push pass writes scene poses through
    /// this with `wake` set; the host writes the opaque engine step's
    /// simulation results back through it between push and pull.
    pub fn set_body_pose(&mut self, h: u64, pose: Pose, wake: bool)
        ensures
            final(self).colliders_model() == old(self).colliders_model(),
            final(self).registry_model() == old(self).registry_model(),
            match old(self).body_model(h) {
                Some(b) => final(self).bodies_model() == old(self).bodies_model().update(
                    h as int,
                    Some(BodyState { kind: b.kind, pose, awake: wake || b.awake }),
                ),
                None => final(self).bodies_model() == old(self).bodies_model(),
            },
    {
        if h < self.bodies.len() as u64 {
            let i = h as usize;
            match self.bodies[i] {
                Some(b) => {
                    self.bodies.set(
                        i,
                        Some(BodyState { kind: b.kind, pose, awake: wake || b.awake }),
                    );
                },
                None => (),
            }
        }
    }

    /// Removes a rigid body; the removal cascades to every collider attached
    /// to it. A dead handle is a silent no-op for the body store.
    pub fn remove_body(&mut self, h: u64)
        ensures
            final(self).registry_model() == old(self).registry_model(),
            final(self).bodies_model() == if (h as int) < old(self).bodies_model().len() {
                old(self).bodies_model().update(h as int, None)
            } else {
                old(self).bodies_model()
            },
            cascade_removed(old(self).colliders_model(), final(self).colliders_model(), h),
    {
        if h < self.bodies.len() as u64 {
            self.bodies.set(h as usize, None);
        }
        let mut j: usize = 0;
        while j < self.colliders.len()
            invariant
                0 <= j <= self.colliders.len(),
                self.bodies@ == (if (h as int) < old(self).bodies_model().len() {
                    old(self).bodies_model().update(h as int, None)
                } else {
                    old(self).bodies_model()
                }),
                handle_entries(self.registry) == old(self).registry_model(),
                self.colliders@.len() == old(self).colliders_model().len(),
                forall|k: int|
                    j <= k < self.colliders@.len() ==> collider_slot_view(
                        #[trigger] self.colliders@[k],
                    ) == old(self).colliders_model()[k],
                forall|k: int|
                    0 <= k < j ==> collider_slot_view(#[trigger] self.colliders@[k]) == (
                    match old(self).colliders_model()[k] {
                        Some(c) => if c.parent == h {
                            None
                        } else {
                            Some(c)
                        },
                        None => None,
                    }),
            decreases self.colliders.len() - j,
        {
            let orphaned = match &self.colliders[j] {
                Some(c) => c.parent == h,
                None => false,
            };
            if orphaned {
                self.colliders.set(j, None);
            }
            j += 1;
        }
        proof {
            assert forall|k: int| 0 <= k < self.colliders_model().len() implies #[trigger]
            self.colliders_model()[k] == (match old(self).colliders_model()[k] {
                Some(c) => if c.parent == h {
                    None
                } else {
                    Some(c)
                },
                None => None,
            }) by {
                assert(self.colliders_model()[k] == collider_slot_view(self.colliders@[k]));
            }
        }
    }

    /// Inserts a collider and returns its fresh handle.
    pub fn insert_collider(&mut self, c: ColliderState) -> (h: u64)
        ensures
            h as int == old(self).colliders_model().len(),
            final(self).colliders_model() == old(self).colliders_model().push(Some(c@)),
            final(self).bodies_model() == old(self).bodies_model(),
            final(self).registry_model() == old(self).registry_model(),
    {
        let h = self.colliders.len() as u64;
        let ghost cm = c@;
        self.colliders.push(Some(c));
        proof {
            assert(self.colliders_model() =~= old(self).colliders_model().push(Some(cm)));
        }
        h
    }

    /// The collider a handle names, if it is live.
    pub fn get_collider(&self, h: u64) -> (r: Option<&ColliderState>)
        ensures
            match r {
                Some(c) => self.collider_model(h) == Some(c@),
                None => self.collider_model(h) is None,
            },
    {
        if h < self.colliders.len() as u64 {
            match &self.colliders[h as usize] {
                Some(c) => Some(c),
                None => None,
            }
        } else {
            None
        }
    }

    /// Removes a collider; a dead handle is a silent no-op.
    pub fn remove_collider(&mut self, h: u64)
        ensures
            final(self).bodies_model() == old(self).bodies_model(),
            final(self).registry_model() == old(self).registry_model(),
            final(self).colliders_model() == if (h as int) < old(self).colliders_model().len() {
                old(self).colliders_model().update(h as int, None)
            } else {
                old(self).colliders_model()
            },
    {
        if h < self.colliders.len() as u64 {
            self.colliders.set(h as usize, None);
            proof {
                assert(self.colliders_model() =~= old(self).colliders_model().update(
                    h as int,
                    None,
                ));
            }
        }
    }

    /// Records that an entity owns a rigid-body handle.
    pub fn registry_insert(&mut self, entity: u64, body: u64)
        ensures
            final(self).bodies_model() == old(self).bodies_model(),
            final(self).colliders_model() == old(self).colliders_model(),
            final(self).registry_model() == old(self).registry_model().insert(entity, body),
    {
        handle_map_insert(&mut self.registry, entity, body);
    }

    /// Erases an entity's registry entry, returning the handle it held.
    pub fn registry_remove(&mut self, entity: u64) -> (r: Option<u64>)
        ensures
            final(self).bodies_model() == old(self).bodies_model(),
            final(self).colliders_model() == old(self).colliders_model(),
            final(self).registry_model() == old(self).registry_model().remove(entity),
            r == if old(self).registry_model().dom().contains(entity) {
                Some(old(self).registry_model()[entity])
            } else {
                None::<u64>
            },
    {
        handle_map_remove(&mut self.registry, entity)
    }

    /// The rigid-body handle an entity's registry entry holds, if any.
    pub fn registry_lookup(&self, entity: u64) -> (r: Option<u64>)
        ensures
            r == if self.registry_model().dom().contains(entity) {
                Some(self.registry_model()[entity])
            } else {
                None::<u64>
            },
    {
        handle_map_get(&self.registry, entity)
    }
}

/// The collider store `after` is the store `before` with exactly the
/// colliders attached to body `h` removed.
pub open spec fn cascade_removed(
    before: Seq<Option<ColliderM>>,
    after: Seq<Option<ColliderM>>,
    h: u64,
) -> bool {
    after.len() == before.len() && forall|k: int|
        0 <= k < before.len() ==> #[trigger] after[k] == (match before[k] {
            Some(c) => if c.parent == h {
                None
            } else {
                Some(c)
            },
            None => None,
        })
}

} // verus!
