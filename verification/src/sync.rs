//! The transform synchronizer: pushes scene-authored pose changes into the
//! engine rigid body, and pulls simulated poses back into the scene
//! transforms, reconciling parent-relative local offsets.
//!
//! Push fires only on scene-side transform mutation (the host calls it for
//! entities whose global transform changed); pull fires only from
//! engine-side simulation results and skips when the computed pose is
//! identical to the stored one, so the two never feed back into each other.

use vstd::prelude::*;

use crate::entity::{
    global_of, handle_of, opt_pose_view, opt_pose_wf, row_same_but_poses, EntityRow,
};
use crate::math::{
    lemma_q_cancel_left, lemma_q_cancel_right, lemma_q_mul_conj_self, lemma_q_mul_one_left,
    lemma_q_mul_range, pose_wf, q_conj, q_in_range, q_is_unit, q_mul, q_one, quat_conj, quat_mul,
    v_add, v_sub, vec3_sub, Pose, PoseM, Q4, V3,
};
use crate::shape::BodyKind;
use crate::world::{BodyState, PhysicsWorld};

verus! {

/// Pose composition as this core uses it: translations add, and rotations
/// compose by the quaternion product.
pub open spec fn compose_pose(p: PoseM, c: PoseM) -> PoseM {
    PoseM {
        translation: v_add(p.translation, c.translation),
        rotation: q_mul(p.rotation, c.rotation),
    }
}

/// The reconciled local translation: if the local translation equals the
/// global one there is no parent offset in effect, and the new value
/// replaces both; otherwise the parent's contribution
/// `global - local` is subtracted from the new global translation.
pub open spec fn reconcile_translation(local: V3, global: V3, new_global: V3) -> V3 {
    if local == global {
        new_global
    } else {
        v_sub(new_global, v_sub(global, local))
    }
}

/// The reconciled local rotation: if the local rotation equals the global
/// one the new value replaces both; otherwise the parent's contribution
/// `offset = global * conj(local)` is stripped off the front of the new
/// global rotation, as `conj(offset) * new_global`.
pub open spec fn reconcile_rotation(local: Q4, global: Q4, new_global: Q4) -> Q4 {
    if local == global {
        new_global
    } else {
        q_mul(q_conj(q_mul(global, q_conj(local))), new_global)
    }
}

pub open spec fn reconcile_pose(local: PoseM, global: PoseM, new_global: PoseM) -> PoseM {
    PoseM {
        translation: reconcile_translation(
            local.translation,
            global.translation,
            new_global.translation,
        ),
        rotation: reconcile_rotation(local.rotation, global.rotation, new_global.rotation),
    }
}

/// What the pull pass leaves in the scene transforms, at the model level:
/// the new local pose (if a local transform exists) and the new global
/// pose, given the simulated body pose and the stored transforms. A body
/// pose identical to the stored global one changes nothing.
pub open spec fn pull_model(body_pose: PoseM, local: Option<PoseM>, global: PoseM) -> (
    Option<PoseM>,
    PoseM,
) {
    if body_pose == global {
        (local, global)
    } else {
        (
            match local {
                Some(l) => Some(reconcile_pose(l, global, body_pose)),
                None => None,
            },
            body_pose,
        )
    }
}

/// What a push leaves in the engine store: the body at the entity's global
/// pose, marked active.
pub open spec fn push_model(b: BodyState, global: Pose) -> BodyState {
    BodyState { kind: b.kind, pose: global, awake: true }
}

/// Push (scene to engine) for one entity with a handle record: writes the
/// entity's global pose into the corresponding engine rigid body and marks
/// it active, waking a sleeping body. This is the only path by which
/// scene-authored motion affects the simulation. A missing record, global
/// transform or body is a silent no-op.
pub fn push_transform(world: &mut PhysicsWorld, row: &EntityRow)
    ensures
        row.handle is None || row.global is None ==> *final(world) == *old(world),
        row.handle is Some && row.global is Some ==> ({
            let h = handle_of(*row);
            final(world).colliders_model() == old(world).colliders_model() && final(world).registry_model() == old(world).registry_model() && match old(world).body_model(
                h.rigid_body,
            ) {
                Some(b) => final(world).bodies_model() == old(world).bodies_model().update(
                    h.rigid_body as int,
                    Some(push_model(b, global_of(*row))),
                ),
                None => final(world).bodies_model() == old(world).bodies_model(),
            }
        }),
{
    match (&row.handle, &row.global) {
        (Some(h), Some(g)) => {
            world.set_body_pose(h.rigid_body, *g, true);
        },
        _ => (),
    }
}

/// Pull is eligible only for an entity whose handle record names a live
/// dynamic body and which has a global transform; static and kinematic
/// bodies are not read back.
pub open spec fn pull_eligible(w: PhysicsWorld, row: EntityRow) -> bool {
    row.handle is Some && row.global is Some && match w.body_model(handle_of(row).rigid_body) {
        Some(b) => b.kind == BodyKind::Dynamic,
        None => false,
    }
}

/// The simulated pose of the body an eligible row's record names.
pub open spec fn pulled_body_pose(w: PhysicsWorld, row: EntityRow) -> Pose {
    match w.body_model(handle_of(row).rigid_body) {
        Some(b) => b.pose,
        None => arbitrary(),
    }
}

/// Pull (engine to scene) for one entity: reads the simulated world pose of
/// its dynamic rigid body. If the pose is unchanged from the stored global
/// one, nothing happens (this is the mechanism that prevents feedback).
/// Otherwise the local transform, if present, is reconciled so the parent's
/// contribution is not applied twice, and the global transform is
/// overwritten with the simulated pose.
pub fn pull_transform(world: &PhysicsWorld, row: &mut EntityRow)
    requires
        opt_pose_wf(old(row).local),
        opt_pose_wf(old(row).global),
        match old(row).handle {
            Some(h) => match world.body_model(h.rigid_body) {
                Some(b) => pose_wf(b.pose@),
                None => true,
            },
            None => true,
        },
    ensures
        !pull_eligible(*world, *old(row)) ==> *final(row) == *old(row),
        pull_eligible(*world, *old(row)) && pulled_body_pose(*world, *old(row)) == global_of(*old(row)) ==> *final(row) == *old(row),
        pull_eligible(*world, *old(row)) ==> ({
            let outcome = pull_model(
                pulled_body_pose(*world, *old(row))@,
                opt_pose_view(old(row).local),
                global_of(*old(row))@,
            );
            opt_pose_view(final(row).local) == outcome.0 && opt_pose_view(final(row).global)
                == Some(outcome.1) && row_same_but_poses(*old(row), *final(row))
        }),
{
    let h = match &row.handle {
        Some(h) => *h,
        None => {
            return ;
        },
    };
    let g = match &row.global {
        Some(g) => *g,
        None => {
            return ;
        },
    };
    let body = match world.get_body(h.rigid_body) {
        Some(b) => *b,
        None => {
            return ;
        },
    };
    if body.kind != BodyKind::Dynamic {
        return ;
    }
    let new_pose = body.pose;
    if new_pose == g {
        return ;
    }
    if let Some(l) = row.local {
        let mut l2 = l;
        if l.translation == g.translation {
            l2.translation = new_pose.translation;
        } else {
            let offset = vec3_sub(g.translation, l.translation);
            l2.translation = vec3_sub(new_pose.translation, offset);
        }
        if l.rotation == g.rotation {
            l2.rotation = new_pose.rotation;
        } else {
            proof {
                assert(q_in_range(q_conj(l.rotation@), 128));
                lemma_q_mul_range(g.rotation@, q_conj(l.rotation@), 128, 128);
            }
            let offr = quat_mul(g.rotation, quat_conj(l.rotation));
            l2.rotation = quat_mul(quat_conj(offr), new_pose.rotation);
        }
        row.local = Some(l2);
        proof {
            assert(l2@ =~= reconcile_pose(l@, g@, new_pose@));
        }
    }
    row.global = Some(new_pose);
}

/// Push/pull round trip: a pose pushed to the engine and pulled straight
/// back, with no engine step in between, reproduces the stored transforms
/// exactly — the body pose a push writes is identical to the stored global
/// pose, so the pull skips and nothing changes.
pub proof fn lemma_push_pull_round_trip(body: BodyState, local: Option<PoseM>, global: Pose)
    ensures
        pull_model(push_model(body, global).pose@, local, global@) == (local, global@),
{
}

/// Parent-offset preservation: with parent global pose `parent` and child
/// local pose `child`, the child's global pose is `parent` composed with
/// `child`; when the engine reports the new global pose `parent` composed
/// with `new_child`, reconciliation yields exactly `new_child` — the
/// parent's contribution is never compounded into the child's local frame.
/// The two stored rotations must be rotations proper, that is unit
/// quaternions; the translation rule needs no such premise.
pub proof fn lemma_parent_offset_preserved(parent: PoseM, child: PoseM, new_child: PoseM)
    requires
        q_is_unit(parent.rotation),
        q_is_unit(child.rotation),
    ensures
        reconcile_pose(child, compose_pose(parent, child), compose_pose(parent, new_child))
            == new_child,
{
    let g = compose_pose(parent, child);
    let g2 = compose_pose(parent, new_child);
    let rt = reconcile_translation(child.translation, g.translation, g2.translation);
    if child.translation == g.translation {
        assert(parent.translation.x == 0);
        assert(rt =~= new_child.translation);
    } else {
        assert(rt =~= new_child.translation);
    }
    let rr = reconcile_rotation(child.rotation, g.rotation, g2.rotation);
    if child.rotation == g.rotation {
        // The global rotation equals the local one, so the parent rotation
        // must be the identity.
        lemma_q_mul_conj_self(child.rotation);
        lemma_q_cancel_right(parent.rotation, child.rotation);
        assert(parent.rotation == q_one());
        lemma_q_mul_one_left(new_child.rotation);
        assert(rr == new_child.rotation);
    } else {
        lemma_q_cancel_right(parent.rotation, child.rotation);
        assert(q_mul(g.rotation, q_conj(child.rotation)) == parent.rotation);
        lemma_q_cancel_left(parent.rotation, new_child.rotation);
        assert(rr == new_child.rotation);
    }
    assert(reconcile_pose(child, g, g2) =~= new_child);
}

} // verus!
