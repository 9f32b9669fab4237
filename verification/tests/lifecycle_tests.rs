use physics_sync::entity::{BodyHandle, EntityRow};
use physics_sync::lifecycle::{create, remove, update_shape};
use physics_sync::math::{Pose, Quat, Vec3};
use physics_sync::shape::{BodyKind, Extent2, ShapeDef, ShapeError, Tri};
use physics_sync::sync::{pull_transform, push_transform};
use physics_sync::world::PhysicsWorld;

fn identity_pose_at(x: i64, y: i64, z: i64) -> Pose {
    Pose {
        translation: Vec3 { x, y, z },
        rotation: Quat { x: 0, y: 0, z: 0, w: 1 },
    }
}

fn row_with(id: u64, shape: Option<ShapeDef>, kind: Option<BodyKind>, pose: Pose) -> EntityRow {
    EntityRow {
        id,
        shape,
        kind,
        sensor: false,
        local: Some(pose),
        global: Some(pose),
        parent: None,
        handle: None,
    }
}

fn cube_mesh() -> ShapeDef {
    let positions = vec![
        Vec3 { x: -1, y: -1, z: -1 },
        Vec3 { x: 1, y: -1, z: -1 },
        Vec3 { x: 1, y: 1, z: -1 },
        Vec3 { x: -1, y: 1, z: -1 },
        Vec3 { x: -1, y: -1, z: 1 },
        Vec3 { x: 1, y: -1, z: 1 },
        Vec3 { x: 1, y: 1, z: 1 },
        Vec3 { x: -1, y: 1, z: 1 },
    ];
    let indices = vec![
        Tri { a: 0, b: 1, c: 2 },
        Tri { a: 0, b: 2, c: 3 },
        Tri { a: 4, b: 5, c: 6 },
        Tri { a: 4, b: 6, c: 7 },
        Tri { a: 0, b: 1, c: 5 },
        Tri { a: 0, b: 5, c: 4 },
        Tri { a: 2, b: 3, c: 7 },
        Tri { a: 2, b: 7, c: 6 },
    ];
    ShapeDef::TriMesh { positions, indices }
}

#[test]
fn trimesh_collision_doesnt_crash() {
    // Two entities with the same eight-vertex, eight-triangle cube mesh at
    // the same position; one full tick must complete without fault.
    let mut world = PhysicsWorld::new();
    let pose = identity_pose_at(0, 0, 0);
    let mut a = row_with(1, Some(cube_mesh()), Some(BodyKind::Dynamic), pose);
    let mut b = row_with(2, Some(cube_mesh()), Some(BodyKind::Dynamic), pose);
    assert_eq!(create(&mut world, &mut a), Ok(true));
    assert_eq!(create(&mut world, &mut b), Ok(true));
    push_transform(&mut world, &a);
    push_transform(&mut world, &b);
    // External engine step: no movement reported.
    pull_transform(&world, &mut a);
    pull_transform(&world, &mut b);
    assert!(a.handle.is_some());
    assert!(b.handle.is_some());
    assert_eq!(a.global, Some(pose));
    assert_eq!(b.global, Some(pose));
}

#[test]
fn sphere_creation() {
    // An entity with body kind Dynamic and a unit-radius sphere at the
    // origin: after one lifecycle pass it has a handle record and the
    // constructed collider's radius equals one.
    let mut world = PhysicsWorld::new();
    let mut row = row_with(
        7,
        Some(ShapeDef::Sphere { radius: 1 }),
        Some(BodyKind::Dynamic),
        identity_pose_at(0, 0, 0),
    );
    assert_eq!(create(&mut world, &mut row), Ok(true));
    let handle = row.handle.expect("handle record attached");
    assert_eq!(world.registry_lookup(7), Some(handle.rigid_body));
    let collider = world.get_collider(handle.collider).expect("collider live");
    assert!(matches!(collider.shape, ShapeDef::Sphere { radius: 1 }));
    assert_eq!(collider.parent, handle.rigid_body);
    let body = world.get_body(handle.rigid_body).expect("body live");
    assert_eq!(body.kind, BodyKind::Dynamic);
    assert_eq!(body.pose, identity_pose_at(0, 0, 0));
}

#[test]
fn creation_is_idempotent() {
    // A second creation pass on an entity that already has a handle record
    // yields no additional rigid body or collider.
    let mut world = PhysicsWorld::new();
    let mut row = row_with(
        3,
        Some(ShapeDef::Sphere { radius: 2 }),
        Some(BodyKind::Dynamic),
        identity_pose_at(1, 2, 3),
    );
    assert_eq!(create(&mut world, &mut row), Ok(true));
    let bodies_before = world.body_slots();
    let colliders_before = world.collider_slots();
    let handle_before = row.handle;
    assert_eq!(create(&mut world, &mut row), Ok(false));
    assert_eq!(world.body_slots(), bodies_before);
    assert_eq!(world.collider_slots(), colliders_before);
    assert_eq!(row.handle, handle_before);
}

#[test]
fn creation_skips_without_global_transform() {
    let mut world = PhysicsWorld::new();
    let mut row = row_with(
        4,
        Some(ShapeDef::Sphere { radius: 2 }),
        Some(BodyKind::Dynamic),
        identity_pose_at(0, 0, 0),
    );
    row.global = None;
    assert_eq!(create(&mut world, &mut row), Ok(false));
    assert_eq!(world.body_slots(), 0);
    assert!(row.handle.is_none());
}

#[test]
fn creation_rejects_nonpositive_sphere() {
    let mut world = PhysicsWorld::new();
    let mut row = row_with(
        5,
        Some(ShapeDef::Sphere { radius: 0 }),
        Some(BodyKind::Dynamic),
        identity_pose_at(0, 0, 0),
    );
    assert_eq!(create(&mut world, &mut row), Err(ShapeError::NonPositiveExtent));
    assert_eq!(world.body_slots(), 0);
    assert!(row.handle.is_none());
}

#[test]
fn creation_rejects_bad_mesh_index() {
    let mut world = PhysicsWorld::new();
    let shape = ShapeDef::TriMesh {
        positions: vec![Vec3 { x: 0, y: 0, z: 0 }, Vec3 { x: 1, y: 0, z: 0 }],
        indices: vec![Tri { a: 0, b: 1, c: 2 }],
    };
    let mut row = row_with(6, Some(shape), Some(BodyKind::Dynamic), identity_pose_at(0, 0, 0));
    assert_eq!(create(&mut world, &mut row), Err(ShapeError::BadIndex));
}

#[test]
fn creation_rejects_empty_hull() {
    let mut world = PhysicsWorld::new();
    let shape = ShapeDef::ConvexHull { points: vec![], border_radius: None };
    let mut row = row_with(8, Some(shape), Some(BodyKind::Dynamic), identity_pose_at(0, 0, 0));
    assert_eq!(create(&mut world, &mut row), Err(ShapeError::EmptyGeometry));
}

#[test]
fn creation_rejects_ragged_grid() {
    let mut world = PhysicsWorld::new();
    let shape = ShapeDef::HeightField {
        size: Extent2 { x: 10, y: 10 },
        heights: vec![vec![0, 1], vec![0, 1, 2]],
    };
    let mut row = row_with(9, Some(shape), Some(BodyKind::Dynamic), identity_pose_at(0, 0, 0));
    assert_eq!(create(&mut world, &mut row), Err(ShapeError::RaggedGrid));
}

#[test]
fn removal_is_idempotent() {
    // Removing a definition twice in succession never faults and leaves no
    // registry entry.
    let mut world = PhysicsWorld::new();
    let mut row = row_with(
        10,
        Some(ShapeDef::Sphere { radius: 1 }),
        Some(BodyKind::Dynamic),
        identity_pose_at(0, 0, 0),
    );
    assert_eq!(create(&mut world, &mut row), Ok(true));
    let handle = row.handle.unwrap();
    row.shape = None;
    remove(&mut world, &mut row);
    assert!(row.handle.is_none());
    assert_eq!(world.registry_lookup(10), None);
    assert!(world.get_body(handle.rigid_body).is_none());
    assert!(world.get_collider(handle.collider).is_none());
    remove(&mut world, &mut row);
    assert!(row.handle.is_none());
    assert_eq!(world.registry_lookup(10), None);
}

#[test]
fn removal_without_registry_entry_is_silent() {
    // A handle record without a registry entry: the removal pass leaves it
    // alone, exactly as a raced removal would.
    let mut world = PhysicsWorld::new();
    let mut row = row_with(11, None, Some(BodyKind::Dynamic), identity_pose_at(0, 0, 0));
    row.handle = Some(BodyHandle { rigid_body: 42, collider: 43 });
    remove(&mut world, &mut row);
    assert_eq!(row.handle, Some(BodyHandle { rigid_body: 42, collider: 43 }));
}

#[test]
fn shape_update_preserves_identity() {
    // Changing the shape definition changes the collider handle but leaves
    // the rigid-body handle untouched.
    let mut world = PhysicsWorld::new();
    let mut row = row_with(
        12,
        Some(ShapeDef::Sphere { radius: 1 }),
        Some(BodyKind::Dynamic),
        identity_pose_at(0, 0, 0),
    );
    assert_eq!(create(&mut world, &mut row), Ok(true));
    let before = row.handle.unwrap();
    row.shape = Some(ShapeDef::Sphere { radius: 2 });
    assert_eq!(update_shape(&mut world, &mut row), Ok(true));
    let after = row.handle.unwrap();
    assert_eq!(after.rigid_body, before.rigid_body);
    assert_ne!(after.collider, before.collider);
    assert!(world.get_collider(before.collider).is_none());
    let collider = world.get_collider(after.collider).expect("new collider live");
    assert!(matches!(collider.shape, ShapeDef::Sphere { radius: 2 }));
    assert_eq!(collider.parent, before.rigid_body);
}

#[test]
fn shape_update_rejects_bad_shape_and_keeps_state() {
    let mut world = PhysicsWorld::new();
    let mut row = row_with(
        13,
        Some(ShapeDef::Sphere { radius: 1 }),
        Some(BodyKind::Dynamic),
        identity_pose_at(0, 0, 0),
    );
    assert_eq!(create(&mut world, &mut row), Ok(true));
    let before = row.handle.unwrap();
    row.shape = Some(ShapeDef::Capsule { half_segment: 1, radius: -1 });
    assert_eq!(
        update_shape(&mut world, &mut row),
        Err(ShapeError::NonPositiveExtent)
    );
    assert_eq!(row.handle, Some(before));
    assert!(world.get_collider(before.collider).is_some());
}

#[test]
fn registry_entries_survive_only_their_entity() {
    // The registry is written through the FNV map: entries must come back
    // for their own key and vanish on removal.
    let mut world = PhysicsWorld::new();
    let pose = identity_pose_at(0, 0, 0);
    let mut a = row_with(100, Some(ShapeDef::Sphere { radius: 1 }), None, pose);
    let mut b = row_with(200, Some(ShapeDef::Sphere { radius: 1 }), None, pose);
    assert_eq!(create(&mut world, &mut a), Ok(true));
    assert_eq!(create(&mut world, &mut b), Ok(true));
    assert_eq!(world.registry_lookup(100), Some(a.handle.unwrap().rigid_body));
    assert_eq!(world.registry_lookup(200), Some(b.handle.unwrap().rigid_body));
    assert_eq!(world.registry_lookup(300), None);
    a.shape = None;
    remove(&mut world, &mut a);
    assert_eq!(world.registry_lookup(100), None);
    assert_eq!(world.registry_lookup(200), Some(b.handle.unwrap().rigid_body));
}
