//! Scene-side per-entity data: the components the host scene graph hands
//! into each pass, and the handle record this core attaches.

use vstd::prelude::*;

use crate::math::{pose_wf, Pose, PoseM};
use crate::shape::{BodyKind, ShapeDef};

verus! {

/// The pair of engine handles an entity owns: one rigid body and one
/// collider. Created by the lifecycle pass; only the collider field is ever
/// replaced afterwards.
#[derive(Clone, Copy, PartialEq, Eq, Structural, Debug)]
pub struct BodyHandle {
    pub rigid_body: u64,
    pub collider: u64,
}

/// One entity's components, as the host hands them to each pass.
pub struct EntityRow {
    /// Opaque identity owned by the host scene graph.
    pub id: u64,
    /// The shape/body definition, if the entity currently carries one.
    pub shape: Option<ShapeDef>,
    /// Body kind classifier, a read-only input from the host; an entity
    /// need not carry one.
    pub kind: Option<BodyKind>,
    /// Sensor flag, a read-only input from the host.
    pub sensor: bool,
    /// Scene-authored pose relative to the parent.
    pub local: Option<Pose>,
    /// Resolved world pose, owned by the host's hierarchy resolver.
    pub global: Option<Pose>,
    /// Optional parent link.
    pub parent: Option<u64>,
    /// The handle record this core attaches and detaches.
    pub handle: Option<BodyHandle>,
}

pub open spec fn opt_pose_view(o: Option<Pose>) -> Option<PoseM> {
    match o {
        Some(p) => Some(p@),
        None => None,
    }
}

pub open spec fn opt_pose_wf(o: Option<Pose>) -> bool {
    match o {
        Some(p) => pose_wf(p@),
        None => true,
    }
}

/// The two rows agree on everything but the handle record.
pub open spec fn row_same_but_handle(a: EntityRow, b: EntityRow) -> bool {
    a.id == b.id && a.shape == b.shape && a.kind == b.kind && a.sensor == b.sensor && a.local
        == b.local && a.global == b.global && a.parent == b.parent
}

/// The two rows agree on everything but the two transforms.
pub open spec fn row_same_but_poses(a: EntityRow, b: EntityRow) -> bool {
    a.id == b.id && a.shape == b.shape && a.kind == b.kind && a.sensor == b.sensor && a.parent
        == b.parent && a.handle == b.handle
}

/// The shape definition's model, on a row that carries one.
pub open spec fn shape_of(row: EntityRow) -> crate::shape::ShapeV {
    match row.shape {
        Some(s) => s@,
        None => arbitrary(),
    }
}

/// The global pose, on a row that carries one.
pub open spec fn global_of(row: EntityRow) -> Pose {
    match row.global {
        Some(g) => g,
        None => arbitrary(),
    }
}

/// The body kind a rigid body is built with: the row's classifier, or
/// dynamic where the row carries none.
pub open spec fn kind_of(row: EntityRow) -> BodyKind {
    match row.kind {
        Some(k) => k,
        None => BodyKind::Dynamic,
    }
}

/// The handle record, on a row that carries one.
pub open spec fn handle_of(row: EntityRow) -> BodyHandle {
    match row.handle {
        Some(h) => h,
        None => arbitrary(),
    }
}

} // verus!
