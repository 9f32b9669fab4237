//! The lifecycle manager and the shape updater: engine handles are created
//! and destroyed in lockstep with the entity's shape/body definition, and a
//! changed definition rebuilds only the collider.

use vstd::prelude::*;

use crate::entity::{
    global_of, handle_of, kind_of, row_same_but_handle, shape_of, BodyHandle, EntityRow,
};
use crate::shape::{check_shape, clone_shape, shape_check, shape_valid, BodyKind, ShapeError};
use crate::world::{cascade_removed, BodyState, ColliderM, ColliderState, PhysicsWorld};

verus! {

/// Creation runs for an entity that has a definition and a resolved global
/// pose but no handle record yet; requiring the record's absence is what
/// makes a second run a no-op.
pub open spec fn create_eligible(row: EntityRow) -> bool {
    row.shape is Some && row.global is Some && row.handle is None
}

/// Removal runs for an entity whose definition was removed while it still
/// has a handle record.
pub open spec fn remove_eligible(row: EntityRow) -> bool {
    row.shape is None && row.handle is Some
}

/// A shape update runs for an entity whose definition changed value while
/// it already has a handle record.
pub open spec fn update_eligible(row: EntityRow) -> bool {
    row.shape is Some && row.handle is Some
}

/// Lifecycle creation for one eligible entity: constructs an engine rigid
/// body at the entity's global pose, a collider from its shape definition
/// attached to that body, records the pair in the registry, and attaches a
/// handle record. Running it again on the same entity is a no-op, because
/// eligibility requires the absence of a handle record (idempotent
/// creation). A malformed shape definition is the one fatal failure: it is
/// reported and nothing is changed.
pub fn create(world: &mut PhysicsWorld, row: &mut EntityRow) -> (r: Result<bool, ShapeError>)
    ensures
        !create_eligible(*old(row)) ==> r == Ok::<bool, ShapeError>(false) && *final(world)
            == *old(world) && *final(row) == *old(row),
        create_eligible(*old(row)) && !shape_valid(shape_of(*old(row))) ==> (shape_check(
            shape_of(*old(row)),
        ) matches Err(e) && r == Err::<bool, ShapeError>(e)) && *final(world) == *old(world)
            && *final(row) == *old(row),
        create_eligible(*old(row)) && shape_valid(shape_of(*old(row))) ==> ({
            let rb = old(world).bodies_model().len() as u64;
            let co = old(world).colliders_model().len() as u64;
            r == Ok::<bool, ShapeError>(true) && final(world).bodies_model() == old(world).bodies_model().push(
                Some(
                    (BodyState {
                        kind: kind_of(*old(row)),
                        pose: global_of(*old(row)),
                        awake: true,
                    }),
                ),
            ) && final(world).colliders_model() == old(world).colliders_model().push(
                Some(
                    (ColliderM { parent: rb, shape: shape_of(*old(row)), sensor: old(row).sensor }),
                ),
            ) && final(world).registry_model() == old(world).registry_model().insert(
                old(row).id,
                rb,
            ) && final(row).handle == Some((BodyHandle { rigid_body: rb, collider: co }))
                && row_same_but_handle(*old(row), *final(row))
        }),
{
    let eligible = row.shape.is_some() && row.global.is_some() && row.handle.is_none();
    if !eligible {
        return Ok(false);
    }
    let shape_ref = row.shape.as_ref().unwrap();
    match check_shape(shape_ref) {
        Err(e) => {
            return Err(e);
        },
        Ok(_) => (),
    }
    let pose = *row.global.as_ref().unwrap();
    let kind = match row.kind {
        Some(k) => k,
        None => BodyKind::Dynamic,
    };
    let rb = world.insert_body(BodyState { kind, pose, awake: true });
    let shape_copy = clone_shape(row.shape.as_ref().unwrap());
    let co = world.insert_collider(
        ColliderState { parent: rb, shape: shape_copy, sensor: row.sensor },
    );
    world.registry_insert(row.id, rb);
    row.handle = Some(BodyHandle { rigid_body: rb, collider: co });
    Ok(true)
}

/// Lifecycle removal for one entity whose definition was removed: deletes
/// the rigid body (which cascades to its collider), erases the registry
/// entry, and detaches the handle record. A missing registry entry is a
/// silent no-op, never an error; removing twice in succession leaves no
/// registry entry behind (removal idempotence).
pub fn remove(world: &mut PhysicsWorld, row: &mut EntityRow)
    ensures
        !remove_eligible(*old(row)) ==> *final(world) == *old(world) && *final(row) == *old(row),
        remove_eligible(*old(row)) ==> final(world).registry_model() == old(world).registry_model().remove(old(row).id),
        remove_eligible(*old(row)) && !old(world).registry_model().dom().contains(old(row).id)
            ==> final(world).bodies_model() == old(world).bodies_model() && final(world).colliders_model() == old(world).colliders_model() && *final(row) == *old(row),
        remove_eligible(*old(row)) && old(world).registry_model().dom().contains(old(row).id)
            ==> ({
            let h = old(world).registry_model()[old(row).id];
            final(world).bodies_model() == (if (h as int) < old(world).bodies_model().len() {
                old(world).bodies_model().update(h as int, None)
            } else {
                old(world).bodies_model()
            }) && cascade_removed(
                old(world).colliders_model(),
                final(world).colliders_model(),
                h,
            ) && final(row).handle is None && row_same_but_handle(*old(row), *final(row))
        }),
{
    let eligible = row.shape.is_none() && row.handle.is_some();
    if !eligible {
        return ;
    }
    match world.registry_remove(row.id) {
        Some(h) => {
            world.remove_body(h);
            row.handle = None;
        },
        None => (),
    }
}

/// The shape updater for one entity whose definition changed: destroys the
/// old collider, constructs a new one from the updated definition, and
/// attaches it to the existing rigid body. The rigid-body handle in the
/// record is never touched (shape update preserves identity); the collider
/// handle is replaced by a fresh one. A malformed definition is reported
/// and nothing is changed.
pub fn update_shape(world: &mut PhysicsWorld, row: &mut EntityRow) -> (r: Result<
    bool,
    ShapeError,
>)
    ensures
        !update_eligible(*old(row)) ==> r == Ok::<bool, ShapeError>(false) && *final(world)
            == *old(world) && *final(row) == *old(row),
        update_eligible(*old(row)) && !shape_valid(shape_of(*old(row))) ==> (shape_check(
            shape_of(*old(row)),
        ) matches Err(e) && r == Err::<bool, ShapeError>(e)) && *final(world) == *old(world)
            && *final(row) == *old(row),
        update_eligible(*old(row)) && shape_valid(shape_of(*old(row))) ==> ({
            let h = handle_of(*old(row));
            let co = old(world).colliders_model().len() as u64;
            r == Ok::<bool, ShapeError>(true) && final(world).bodies_model() == old(world).bodies_model() && final(world).registry_model() == old(world).registry_model()
                && final(world).colliders_model() == (if (h.collider as int) < old(world).colliders_model().len() {
                old(world).colliders_model().update(h.collider as int, None)
            } else {
                old(world).colliders_model()
            }).push(
                Some(
                    (ColliderM {
                        parent: h.rigid_body,
                        shape: shape_of(*old(row)),
                        sensor: old(row).sensor,
                    }),
                ),
            ) && final(row).handle == Some(
                (BodyHandle { rigid_body: h.rigid_body, collider: co }),
            ) && row_same_but_handle(*old(row), *final(row))
        }),
        update_eligible(*old(row)) && shape_valid(shape_of(*old(row))) && (handle_of(
            *old(row),
        ).collider as int) < old(world).colliders_model().len() ==> (final(row).handle matches Some(
            h1,
        ) && h1.collider != handle_of(*old(row)).collider),
{
    let eligible = row.shape.is_some() && row.handle.is_some();
    if !eligible {
        return Ok(false);
    }
    let shape_ref = row.shape.as_ref().unwrap();
    match check_shape(shape_ref) {
        Err(e) => {
            return Err(e);
        },
        Ok(_) => (),
    }
    let h = *row.handle.as_ref().unwrap();
    world.remove_collider(h.collider);
    let shape_copy = clone_shape(row.shape.as_ref().unwrap());
    let co = world.insert_collider(
        ColliderState { parent: h.rigid_body, shape: shape_copy, sensor: row.sensor },
    );
    row.handle = Some(BodyHandle { rigid_body: h.rigid_body, collider: co });
    Ok(true)
}

} // verus!
