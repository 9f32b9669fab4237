use physics_sync::entity::EntityRow;
use physics_sync::math::{Pose, Quat, Vec3};
use physics_sync::render::{add_shape_outline, DebugLines};
use physics_sync::shape::{BodyKind, DebugColor, Extent2, Rgba, ShapeDef, Tri};

fn rgba(red: u8, green: u8, blue: u8) -> Rgba {
    Rgba { red, green, blue, alpha: 255 }
}

fn palette() -> DebugColor {
    DebugColor {
        dynamic_bodies: rgba(1, 0, 0),
        static_bodies: rgba(2, 0, 0),
        kinematic_bodies: rgba(3, 0, 0),
        sensors: rgba(4, 0, 0),
        undefined_bodies: rgba(5, 0, 0),
    }
}

fn identity_pose_at(x: i64, y: i64, z: i64) -> Pose {
    Pose {
        translation: Vec3 { x, y, z },
        rotation: Quat { x: 0, y: 0, z: 0, w: 1 },
    }
}

fn shape_row(shape: ShapeDef, global: Option<Pose>) -> EntityRow {
    EntityRow {
        id: 1,
        shape: Some(shape),
        kind: Some(BodyKind::Dynamic),
        sensor: false,
        local: Some(identity_pose_at(0, 0, 0)),
        global,
        parent: None,
        handle: None,
    }
}

#[test]
fn sphere_outline_has_three_rings() {
    let mut lines = DebugLines::new();
    let row = shape_row(ShapeDef::Sphere { radius: 5 }, Some(identity_pose_at(0, 0, 0)));
    add_shape_outline(&row, None, &palette(), &mut lines);
    assert_eq!(lines.len(), 12);
    // With the identity rotation the first ring segment joins the +x and +y
    // axis points exactly.
    let first = lines.get(0);
    assert_eq!(first.start, Vec3 { x: 5, y: 0, z: 0 });
    assert_eq!(first.end, Vec3 { x: 0, y: 5, z: 0 });
    assert_eq!(first.color, rgba(1, 0, 0));
}

#[test]
fn cuboid_outline_has_twelve_edges() {
    let mut lines = DebugLines::new();
    let shape = ShapeDef::Cuboid {
        half_extents: Vec3 { x: 1, y: 2, z: 3 },
        border_radius: None,
    };
    let row = shape_row(shape, Some(identity_pose_at(10, 0, 0)));
    add_shape_outline(&row, None, &palette(), &mut lines);
    assert_eq!(lines.len(), 12);
    let first = lines.get(0);
    assert_eq!(first.start, Vec3 { x: 9, y: -2, z: -3 });
    assert_eq!(first.end, Vec3 { x: 11, y: -2, z: -3 });
}

#[test]
fn bevelled_cuboid_draws_core_and_inflated_boxes() {
    let mut lines = DebugLines::new();
    let shape = ShapeDef::Cuboid {
        half_extents: Vec3 { x: 1, y: 1, z: 1 },
        border_radius: Some(1),
    };
    let row = shape_row(shape, Some(identity_pose_at(0, 0, 0)));
    add_shape_outline(&row, None, &palette(), &mut lines);
    assert_eq!(lines.len(), 24);
    // The thirteenth segment starts the inflated box.
    let infl = lines.get(12);
    assert_eq!(infl.start, Vec3 { x: -2, y: -2, z: -2 });
    assert_eq!(infl.end, Vec3 { x: 2, y: -2, z: -2 });
}

#[test]
fn capsule_outline_has_sides_and_caps() {
    let mut lines = DebugLines::new();
    let shape = ShapeDef::Capsule { half_segment: 3, radius: 1 };
    let row = shape_row(shape, Some(identity_pose_at(0, 0, 0)));
    add_shape_outline(&row, None, &palette(), &mut lines);
    assert_eq!(lines.len(), 6);
    let side = lines.get(0);
    assert_eq!(side.start, Vec3 { x: 1, y: -3, z: 0 });
    assert_eq!(side.end, Vec3 { x: 1, y: 3, z: 0 });
    let cap = lines.get(2);
    assert_eq!(cap.start, Vec3 { x: 1, y: 3, z: 0 });
    assert_eq!(cap.end, Vec3 { x: 0, y: 4, z: 0 });
}

#[test]
fn convex_hull_outline_ignores_border_radius() {
    let points = vec![
        Vec3 { x: 0, y: 0, z: 0 },
        Vec3 { x: 4, y: 0, z: 0 },
        Vec3 { x: 0, y: 4, z: 0 },
    ];
    let mut plain = DebugLines::new();
    let row = shape_row(
        ShapeDef::ConvexHull { points: points.clone(), border_radius: None },
        Some(identity_pose_at(0, 0, 0)),
    );
    add_shape_outline(&row, None, &palette(), &mut plain);
    let mut bevelled = DebugLines::new();
    let row2 = shape_row(
        ShapeDef::ConvexHull { points, border_radius: Some(2) },
        Some(identity_pose_at(0, 0, 0)),
    );
    add_shape_outline(&row2, None, &palette(), &mut bevelled);
    assert_eq!(plain.len(), 3);
    assert_eq!(bevelled.len(), 3);
    for i in 0..3 {
        assert_eq!(plain.get(i), bevelled.get(i));
    }
    let closing = plain.get(2);
    assert_eq!(closing.start, Vec3 { x: 0, y: 4, z: 0 });
    assert_eq!(closing.end, Vec3 { x: 0, y: 0, z: 0 });
}

#[test]
fn height_field_outline_is_a_grid() {
    let mut lines = DebugLines::new();
    let shape = ShapeDef::HeightField {
        size: Extent2 { x: 4, y: 4 },
        heights: vec![vec![1, 2], vec![3, 4]],
    };
    let row = shape_row(shape, Some(identity_pose_at(0, 0, 0)));
    add_shape_outline(&row, None, &palette(), &mut lines);
    // Two rows of one segment each, plus one pair of column segments.
    assert_eq!(lines.len(), 4);
    let first = lines.get(0);
    assert_eq!(first.start, Vec3 { x: -2, y: 1, z: -2 });
    assert_eq!(first.end, Vec3 { x: 2, y: 2, z: -2 });
}

#[test]
fn ragged_height_field_draws_nothing() {
    let mut lines = DebugLines::new();
    let shape = ShapeDef::HeightField {
        size: Extent2 { x: 4, y: 4 },
        heights: vec![vec![1, 2], vec![3]],
    };
    let row = shape_row(shape, Some(identity_pose_at(0, 0, 0)));
    add_shape_outline(&row, None, &palette(), &mut lines);
    assert_eq!(lines.len(), 0);
}

#[test]
fn triangle_mesh_has_no_outline_form() {
    let mut lines = DebugLines::new();
    let shape = ShapeDef::TriMesh {
        positions: vec![Vec3 { x: 0, y: 0, z: 0 }],
        indices: vec![Tri { a: 0, b: 0, c: 0 }],
    };
    let row = shape_row(shape, Some(identity_pose_at(0, 0, 0)));
    add_shape_outline(&row, None, &palette(), &mut lines);
    assert_eq!(lines.len(), 0);
}

#[test]
fn unresolved_pose_skips_entity() {
    let mut lines = DebugLines::new();
    let mut row = shape_row(ShapeDef::Sphere { radius: 1 }, None);
    row.parent = None;
    add_shape_outline(&row, None, &palette(), &mut lines);
    assert_eq!(lines.len(), 0);
    // A parent link without a resolved parent transform still skips.
    row.parent = Some(9);
    add_shape_outline(&row, None, &palette(), &mut lines);
    assert_eq!(lines.len(), 0);
}

#[test]
fn parent_pose_composes_with_local() {
    let mut lines = DebugLines::new();
    let mut row = shape_row(ShapeDef::Sphere { radius: 2 }, None);
    row.parent = Some(9);
    row.local = Some(identity_pose_at(1, 1, 1));
    let parent_global = identity_pose_at(10, 0, 0);
    add_shape_outline(&row, Some(&parent_global), &palette(), &mut lines);
    assert_eq!(lines.len(), 12);
    let first = lines.get(0);
    assert_eq!(first.start, Vec3 { x: 13, y: 1, z: 1 });
    assert_eq!(first.end, Vec3 { x: 11, y: 3, z: 1 });
}

#[test]
fn sensor_flag_overrides_body_kind_color() {
    let mut lines = DebugLines::new();
    let mut row = shape_row(ShapeDef::Sphere { radius: 1 }, Some(identity_pose_at(0, 0, 0)));
    row.sensor = true;
    add_shape_outline(&row, None, &palette(), &mut lines);
    assert_eq!(lines.get(0).color, rgba(4, 0, 0));
}

#[test]
fn missing_body_kind_uses_undefined_color() {
    let mut lines = DebugLines::new();
    let mut row = shape_row(ShapeDef::Sphere { radius: 1 }, Some(identity_pose_at(0, 0, 0)));
    row.kind = None;
    add_shape_outline(&row, None, &palette(), &mut lines);
    assert_eq!(lines.get(0).color, rgba(5, 0, 0));
}

#[test]
fn color_table_is_keyed_by_kind_and_sensor() {
    let table = palette();
    assert_eq!(table.for_collider_type(Some(BodyKind::Dynamic), false), rgba(1, 0, 0));
    assert_eq!(table.for_collider_type(Some(BodyKind::Static), false), rgba(2, 0, 0));
    assert_eq!(table.for_collider_type(Some(BodyKind::Kinematic), false), rgba(3, 0, 0));
    assert_eq!(table.for_collider_type(Some(BodyKind::Kinematic), true), rgba(4, 0, 0));
    assert_eq!(table.for_collider_type(None, false), rgba(5, 0, 0));
}

#[test]
fn buffer_clears_between_frames() {
    let mut lines = DebugLines::new();
    let row = shape_row(ShapeDef::Sphere { radius: 1 }, Some(identity_pose_at(0, 0, 0)));
    add_shape_outline(&row, None, &palette(), &mut lines);
    assert!(lines.len() > 0);
    lines.clear();
    assert_eq!(lines.len(), 0);
}
