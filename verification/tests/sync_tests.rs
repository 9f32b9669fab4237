use physics_sync::entity::EntityRow;
use physics_sync::lifecycle::create;
use physics_sync::math::{Pose, Quat, Vec3};
use physics_sync::shape::{BodyKind, ShapeDef};
use physics_sync::sync::{pull_transform, push_transform};
use physics_sync::world::PhysicsWorld;

fn pose(t: (i64, i64, i64), r: (i64, i64, i64, i64)) -> Pose {
    Pose {
        translation: Vec3 { x: t.0, y: t.1, z: t.2 },
        rotation: Quat { x: r.0, y: r.1, z: r.2, w: r.3 },
    }
}

fn dynamic_sphere_row(id: u64, local: Pose, global: Pose) -> EntityRow {
    EntityRow {
        id,
        shape: Some(ShapeDef::Sphere { radius: 1 }),
        kind: Some(BodyKind::Dynamic),
        sensor: false,
        local: Some(local),
        global: Some(global),
        parent: None,
        handle: None,
    }
}

#[test]
fn push_pull_round_trip() {
    // A pose pushed to the engine and pulled straight back, with no engine
    // step in between, reproduces the stored transforms exactly.
    let mut world = PhysicsWorld::new();
    let start = pose((0, 0, 0), (0, 0, 0, 1));
    let mut row = dynamic_sphere_row(1, start, start);
    assert_eq!(create(&mut world, &mut row), Ok(true));
    let moved = pose((5, -3, 2), (0, 0, 1, 0));
    row.global = Some(moved);
    push_transform(&mut world, &row);
    pull_transform(&world, &mut row);
    assert_eq!(row.global, Some(moved));
    assert_eq!(row.local, Some(start));
}

#[test]
fn pull_skips_identical_pose() {
    let mut world = PhysicsWorld::new();
    let start = pose((4, 4, 4), (0, 0, 0, 1));
    let mut row = dynamic_sphere_row(2, start, start);
    assert_eq!(create(&mut world, &mut row), Ok(true));
    pull_transform(&world, &mut row);
    assert_eq!(row.global, Some(start));
    assert_eq!(row.local, Some(start));
}

#[test]
fn pull_applies_simulated_pose_without_parent() {
    // With no parent offset (local equals global), the simulated pose
    // replaces both transforms directly.
    let mut world = PhysicsWorld::new();
    let start = pose((0, 0, 0), (0, 0, 0, 1));
    let mut row = dynamic_sphere_row(3, start, start);
    assert_eq!(create(&mut world, &mut row), Ok(true));
    let rb = row.handle.unwrap().rigid_body;
    let simulated = pose((7, 8, 9), (1, 0, 0, 0));
    world.set_body_pose(rb, simulated, false);
    pull_transform(&world, &mut row);
    assert_eq!(row.global, Some(simulated));
    assert_eq!(row.local, Some(simulated));
}

#[test]
fn pull_preserves_parent_offset() {
    // Parent global pose P, child local pose C, child global P∘C. The
    // engine reports P∘C2: reconciliation must store exactly C2 as the new
    // local pose, not P∘C2 compounded again with P.
    let mut world = PhysicsWorld::new();
    // P: translate (10, 0, 0), rotate by the unit quaternion i.
    // C: translate (1, 2, 3), rotate by the unit quaternion k.
    // global = P∘C: translation (11, 2, 3), rotation i*k == -j.
    let local = pose((1, 2, 3), (0, 0, 1, 0));
    let global = pose((11, 2, 3), (0, -1, 0, 0));
    let mut row = dynamic_sphere_row(4, local, global);
    assert_eq!(create(&mut world, &mut row), Ok(true));
    let rb = row.handle.unwrap().rigid_body;
    // C2: translate (4, 5, 6), rotate by j. The engine reports
    // P∘C2: translation (14, 5, 6), rotation i*j == k.
    let new_global = pose((14, 5, 6), (0, 0, 1, 0));
    world.set_body_pose(rb, new_global, false);
    pull_transform(&world, &mut row);
    assert_eq!(row.global, Some(new_global));
    assert_eq!(row.local, Some(pose((4, 5, 6), (0, 1, 0, 0))));
}

#[test]
fn pull_ignores_static_bodies() {
    // Static and kinematic bodies are not read back.
    let mut world = PhysicsWorld::new();
    let start = pose((0, 0, 0), (0, 0, 0, 1));
    let mut row = dynamic_sphere_row(5, start, start);
    row.kind = Some(BodyKind::Static);
    assert_eq!(create(&mut world, &mut row), Ok(true));
    let rb = row.handle.unwrap().rigid_body;
    world.set_body_pose(rb, pose((9, 9, 9), (0, 0, 0, 1)), false);
    pull_transform(&world, &mut row);
    assert_eq!(row.global, Some(start));
    assert_eq!(row.local, Some(start));
}

#[test]
fn push_wakes_and_moves_the_body() {
    let mut world = PhysicsWorld::new();
    let start = pose((0, 0, 0), (0, 0, 0, 1));
    let mut row = dynamic_sphere_row(6, start, start);
    assert_eq!(create(&mut world, &mut row), Ok(true));
    let rb = row.handle.unwrap().rigid_body;
    let moved = pose((2, 2, 2), (0, 0, 0, 1));
    row.global = Some(moved);
    push_transform(&mut world, &row);
    let body = world.get_body(rb).expect("body live");
    assert_eq!(body.pose, moved);
    assert!(body.awake);
}

#[test]
fn push_without_record_is_silent() {
    let mut world = PhysicsWorld::new();
    let start = pose((0, 0, 0), (0, 0, 0, 1));
    let mut row = dynamic_sphere_row(7, start, start);
    row.handle = None;
    push_transform(&mut world, &row);
    assert_eq!(world.body_slots(), 0);
}
