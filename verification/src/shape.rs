//! The shape model: the closed set of collision-shape variants, the body
//! kind classifier, the validity rule that the engine's geometry
//! constructor enforces, and the debug color table.

use vstd::prelude::*;

use crate::math::{Vec3, V3};

verus! {

/// Body kind classifier for a rigid body.
#[derive(Clone, Copy, PartialEq, Eq, Structural, Debug)]
pub enum BodyKind {
    Dynamic,
    Static,
    Kinematic,
}

/// One triangle of a mesh, as indices into a vertex list.
#[derive(Clone, Copy, PartialEq, Eq, Structural, Debug)]
pub struct Tri {
    pub a: u32,
    pub b: u32,
    pub c: u32,
}

/// A two-component extent, used by the height field.
#[derive(Clone, Copy, PartialEq, Eq, Structural, Debug)]
pub struct Extent2 {
    pub x: i64,
    pub y: i64,
}

/// A collision shape definition. Immutable once read per frame; replaced
/// wholesale on change.
pub enum ShapeDef {
    Sphere { radius: i64 },
    Cuboid { half_extents: Vec3, border_radius: Option<i64> },
    Capsule { half_segment: i64, radius: i64 },
    ConvexHull { points: Vec<Vec3>, border_radius: Option<i64> },
    HeightField { size: Extent2, heights: Vec<Vec<i64>> },
    TriMesh { positions: Vec<Vec3>, indices: Vec<Tri> },
}

/// Mathematical model of a shape definition.
pub ghost enum ShapeV {
    Sphere { radius: int },
    Cuboid { half_extents: V3, border_radius: Option<int> },
    Capsule { half_segment: int, radius: int },
    ConvexHull { points: Seq<V3>, border_radius: Option<int> },
    HeightField { size_x: int, size_y: int, heights: Seq<Seq<int>> },
    TriMesh { positions: Seq<V3>, indices: Seq<Tri> },
}

pub open spec fn opt_int(o: Option<i64>) -> Option<int> {
    match o {
        Some(b) => Some(b as int),
        None => None,
    }
}

/// The model of a point list.
pub open spec fn points_view(v: Seq<Vec3>) -> Seq<V3> {
    v.map_values(|p: Vec3| p@)
}

/// The model of one row of a height grid.
pub open spec fn row_view(row: Vec<i64>) -> Seq<int> {
    row@.map_values(|h: i64| h as int)
}

/// The model of a height grid.
pub open spec fn grid_view(g: Seq<Vec<i64>>) -> Seq<Seq<int>> {
    g.map_values(|row: Vec<i64>| row_view(row))
}

impl View for ShapeDef {
    type V = ShapeV;

    open spec fn view(&self) -> ShapeV {
        match self {
            ShapeDef::Sphere { radius } => ShapeV::Sphere { radius: *radius as int },
            ShapeDef::Cuboid { half_extents, border_radius } => ShapeV::Cuboid {
                half_extents: half_extents@,
                border_radius: opt_int(*border_radius),
            },
            ShapeDef::Capsule { half_segment, radius } => ShapeV::Capsule {
                half_segment: *half_segment as int,
                radius: *radius as int,
            },
            ShapeDef::ConvexHull { points, border_radius } => ShapeV::ConvexHull {
                points: points_view(points@),
                border_radius: opt_int(*border_radius),
            },
            ShapeDef::HeightField { size, heights } => ShapeV::HeightField {
                size_x: size.x as int,
                size_y: size.y as int,
                heights: grid_view(heights@),
            },
            ShapeDef::TriMesh { positions, indices } => ShapeV::TriMesh {
                positions: points_view(positions@),
                indices: indices@,
            },
        }
    }
}

/// Why the engine's geometry constructor rejects a shape definition.
#[derive(Clone, Copy, PartialEq, Eq, Structural, Debug)]
pub enum ShapeError {
    /// An extent, radius or size that must be positive is not, or a border
    /// radius is negative.
    NonPositiveExtent,
    /// A point, height or triangle list is too small to describe geometry.
    EmptyGeometry,
    /// A triangle index points past the end of the vertex list.
    BadIndex,
    /// The rows of a height grid do not all have the same length.
    RaggedGrid,
}

/// A shape definition that the engine's geometry constructor accepts.
pub open spec fn shape_valid(s: ShapeV) -> bool {
    match s {
        ShapeV::Sphere { radius } => radius > 0,
        ShapeV::Cuboid { half_extents, border_radius } => half_extents.x > 0
            && half_extents.y > 0 && half_extents.z > 0 && opt_nonneg(border_radius),
        ShapeV::Capsule { half_segment, radius } => radius > 0 && half_segment >= 0,
        ShapeV::ConvexHull { points, border_radius } => points.len() > 0 && opt_nonneg(
            border_radius,
        ),
        ShapeV::HeightField { size_x, size_y, heights } => size_x > 0 && size_y > 0
            && heights.len() >= 2 && heights[0].len() >= 2 && grid_rectangular(heights),
        ShapeV::TriMesh { positions, indices } => positions.len() > 0 && indices.len() > 0
            && tri_indices_ok(positions, indices),
    }
}

pub open spec fn opt_nonneg(o: Option<int>) -> bool {
    match o {
        Some(b) => b >= 0,
        None => true,
    }
}

pub open spec fn grid_rectangular(heights: Seq<Seq<int>>) -> bool {
    forall|i: int| 0 <= i < heights.len() ==> #[trigger] heights[i].len() == heights[0].len()
}

pub open spec fn tri_indices_ok(positions: Seq<V3>, indices: Seq<Tri>) -> bool {
    forall|i: int|
        0 <= i < indices.len() ==> (#[trigger] indices[i]).a < positions.len()
            && indices[i].b < positions.len() && indices[i].c < positions.len()
}

/// The exact verdict the shape checker returns, with the error each
/// malformed definition earns.
pub open spec fn shape_check(s: ShapeV) -> Result<(), ShapeError> {
    match s {
        ShapeV::Sphere { radius } => if radius <= 0 {
            Err(ShapeError::NonPositiveExtent)
        } else {
            Ok(())
        },
        ShapeV::Cuboid { half_extents, border_radius } => if !(half_extents.x > 0
            && half_extents.y > 0 && half_extents.z > 0) {
            Err(ShapeError::NonPositiveExtent)
        } else if !opt_nonneg(border_radius) {
            Err(ShapeError::NonPositiveExtent)
        } else {
            Ok(())
        },
        ShapeV::Capsule { half_segment, radius } => if radius <= 0 || half_segment < 0 {
            Err(ShapeError::NonPositiveExtent)
        } else {
            Ok(())
        },
        ShapeV::ConvexHull { points, border_radius } => if points.len() == 0 {
            Err(ShapeError::EmptyGeometry)
        } else if !opt_nonneg(border_radius) {
            Err(ShapeError::NonPositiveExtent)
        } else {
            Ok(())
        },
        ShapeV::HeightField { size_x, size_y, heights } => if size_x <= 0 || size_y <= 0 {
            Err(ShapeError::NonPositiveExtent)
        } else if heights.len() < 2 || heights[0].len() < 2 {
            Err(ShapeError::EmptyGeometry)
        } else if !grid_rectangular(heights) {
            Err(ShapeError::RaggedGrid)
        } else {
            Ok(())
        },
        ShapeV::TriMesh { positions, indices } => if positions.len() == 0 || indices.len() == 0 {
            Err(ShapeError::EmptyGeometry)
        } else if !tri_indices_ok(positions, indices) {
            Err(ShapeError::BadIndex)
        } else {
            Ok(())
        },
    }
}

/// Checks a shape definition exactly as the engine's geometry constructor
/// would: `Ok` on every definition it accepts, and the matching error on
/// every definition it rejects.
pub fn check_shape(s: &ShapeDef) -> (r: Result<(), ShapeError>)
    ensures
        r == shape_check(s@),
        r is Ok <==> shape_valid(s@),
{
    match s {
        ShapeDef::Sphere { radius } => {
            if *radius <= 0 {
                Err(ShapeError::NonPositiveExtent)
            } else {
                Ok(())
            }
        },
        ShapeDef::Cuboid { half_extents, border_radius } => {
            if !(half_extents.x > 0 && half_extents.y > 0 && half_extents.z > 0) {
                Err(ShapeError::NonPositiveExtent)
            } else if match border_radius {
                Some(b) => *b < 0,
                None => false,
            } {
                Err(ShapeError::NonPositiveExtent)
            } else {
                Ok(())
            }
        },
        ShapeDef::Capsule { half_segment, radius } => {
            if *radius <= 0 || *half_segment < 0 {
                Err(ShapeError::NonPositiveExtent)
            } else {
                Ok(())
            }
        },
        ShapeDef::ConvexHull { points, border_radius } => {
            if points.len() == 0 {
                Err(ShapeError::EmptyGeometry)
            } else if match border_radius {
                Some(b) => *b < 0,
                None => false,
            } {
                Err(ShapeError::NonPositiveExtent)
            } else {
                Ok(())
            }
        },
        ShapeDef::HeightField { size, heights } => check_height_field(size, heights),
        ShapeDef::TriMesh { positions, indices } => check_tri_mesh(positions, indices),
    }
}

fn check_height_field(size: &Extent2, heights: &Vec<Vec<i64>>) -> (r: Result<(), ShapeError>)
    ensures
        r == shape_check(
            ShapeV::HeightField {
                size_x: size.x as int,
                size_y: size.y as int,
                heights: grid_view(heights@),
            },
        ),
{
    let ghost hv = grid_view(heights@);
    if size.x <= 0 || size.y <= 0 {
        return Err(ShapeError::NonPositiveExtent);
    }
    if heights.len() < 2 {
        return Err(ShapeError::EmptyGeometry);
    }
    let cols = heights[0].len();
    assert(hv[0].len() == cols);
    if cols < 2 {
        return Err(ShapeError::EmptyGeometry);
    }
    let mut i: usize = 1;
    while i < heights.len()
        invariant
            1 <= i <= heights.len(),
            hv == grid_view(heights@),
            size.x > 0,
            size.y > 0,
            cols == hv[0].len(),
            cols >= 2,
            hv.len() == heights@.len(),
            hv.len() >= 2,
            forall|j: int| 0 <= j < hv.len() ==> #[trigger] hv[j].len() == heights@[j]@.len(),
            forall|j: int| 0 <= j < i ==> #[trigger] hv[j].len() == hv[0].len(),
        decreases heights.len() - i,
    {
        if heights[i].len() != cols {
            proof {
                assert(hv[i as int].len() != hv[0].len());
                assert(!grid_rectangular(hv));
            }
            return Err(ShapeError::RaggedGrid);
        }
        i += 1;
    }
    assert(grid_rectangular(hv));
    Ok(())
}

fn check_tri_mesh(positions: &Vec<Vec3>, indices: &Vec<Tri>) -> (r: Result<(), ShapeError>)
    ensures
        r == shape_check(
            ShapeV::TriMesh {
                positions: points_view(positions@),
                indices: indices@,
            },
        ),
{
    let ghost pv = points_view(positions@);
    assert(pv.len() == positions@.len());
    if positions.len() == 0 || indices.len() == 0 {
        return Err(ShapeError::EmptyGeometry);
    }
    let n = positions.len();
    let mut i: usize = 0;
    while i < indices.len()
        invariant
            0 <= i <= indices.len(),
            n == positions@.len(),
            pv.len() == positions@.len(),
            positions@.len() > 0,
            indices@.len() > 0,
            forall|j: int|
                0 <= j < i ==> (#[trigger] indices@[j]).a < pv.len() && indices@[j].b < pv.len()
                    && indices@[j].c < pv.len(),
        decreases indices.len() - i,
    {
        let t = indices[i];
        if !((t.a as usize) < n && (t.b as usize) < n && (t.c as usize) < n) {
            assert(!tri_indices_ok(pv, indices@));
            return Err(ShapeError::BadIndex);
        }
        i += 1;
    }
    assert(tri_indices_ok(pv, indices@));
    Ok(())
}

/// A debug draw color.
#[derive(Clone, Copy, PartialEq, Eq, Structural, Debug)]
pub struct Rgba {
    pub red: u8,
    pub green: u8,
    pub blue: u8,
    pub alpha: u8,
}

/// The lookup table of outline colors, keyed by body kind and sensor flag.
#[derive(Clone, Copy, PartialEq, Eq, Structural, Debug)]
pub struct DebugColor {
    pub dynamic_bodies: Rgba,
    pub static_bodies: Rgba,
    pub kinematic_bodies: Rgba,
    pub sensors: Rgba,
    pub undefined_bodies: Rgba,
}

/// The color the table selects for a collider.
pub open spec fn color_for(table: DebugColor, kind: Option<BodyKind>, sensor: bool) -> Rgba {
    if sensor {
        table.sensors
    } else {
        match kind {
            None => table.undefined_bodies,
            Some(BodyKind::Dynamic) => table.dynamic_bodies,
            Some(BodyKind::Static) => table.static_bodies,
            Some(BodyKind::Kinematic) => table.kinematic_bodies,
        }
    }
}

impl DebugColor {
    /// Selects the outline color for a collider of the given body kind and
    /// sensor flag.
    pub fn for_collider_type(&self, kind: Option<BodyKind>, sensor: bool) -> (c: Rgba)
        ensures
            c == color_for(*self, kind, sensor),
    {
        if sensor {
            self.sensors
        } else {
            match kind {
                None => self.undefined_bodies,
                Some(BodyKind::Dynamic) => self.dynamic_bodies,
                Some(BodyKind::Static) => self.static_bodies,
                Some(BodyKind::Kinematic) => self.kinematic_bodies,
            }
        }
    }
}

/// Clones a list of points.
fn clone_points(v: &Vec<Vec3>) -> (r: Vec<Vec3>)
    ensures
        r@ == v@,
{
    let mut r: Vec<Vec3> = Vec::new();
    let mut i: usize = 0;
    while i < v.len()
        invariant
            0 <= i <= v.len(),
            r@.len() == i,
            forall|j: int| 0 <= j < i ==> r@[j] == v@[j],
        decreases v.len() - i,
    {
        r.push(v[i]);
        i += 1;
    }
    assert(r@ =~= v@);
    r
}

fn clone_row(v: &Vec<i64>) -> (r: Vec<i64>)
    ensures
        r@ == v@,
{
    let mut r: Vec<i64> = Vec::new();
    let mut i: usize = 0;
    while i < v.len()
        invariant
            0 <= i <= v.len(),
            r@.len() == i,
            forall|j: int| 0 <= j < i ==> r@[j] == v@[j],
        decreases v.len() - i,
    {
        r.push(v[i]);
        i += 1;
    }
    assert(r@ =~= v@);
    r
}

fn clone_grid(v: &Vec<Vec<i64>>) -> (r: Vec<Vec<i64>>)
    ensures
        r@.len() == v@.len(),
        forall|j: int| 0 <= j < v@.len() ==> (#[trigger] r@[j])@ == v@[j]@,
{
    let mut r: Vec<Vec<i64>> = Vec::new();
    let mut i: usize = 0;
    while i < v.len()
        invariant
            0 <= i <= v.len(),
            r@.len() == i,
            forall|j: int| 0 <= j < i ==> (#[trigger] r@[j])@ == v@[j]@,
        decreases v.len() - i,
    {
        let row = clone_row(&v[i]);
        r.push(row);
        i += 1;
    }
    r
}

fn clone_tris(v: &Vec<Tri>) -> (r: Vec<Tri>)
    ensures
        r@ == v@,
{
    let mut r: Vec<Tri> = Vec::new();
    let mut i: usize = 0;
    while i < v.len()
        invariant
            0 <= i <= v.len(),
            r@.len() == i,
            forall|j: int| 0 <= j < i ==> r@[j] == v@[j],
        decreases v.len() - i,
    {
        r.push(v[i]);
        i += 1;
    }
    assert(r@ =~= v@);
    r
}

/// Clones a shape definition; the copy has the same model.
pub fn clone_shape(s: &ShapeDef) -> (r: ShapeDef)
    ensures
        r@ == s@,
{
    match s {
        ShapeDef::Sphere { radius } => ShapeDef::Sphere { radius: *radius },
        ShapeDef::Cuboid { half_extents, border_radius } => ShapeDef::Cuboid {
            half_extents: *half_extents,
            border_radius: *border_radius,
        },
        ShapeDef::Capsule { half_segment, radius } => ShapeDef::Capsule {
            half_segment: *half_segment,
            radius: *radius,
        },
        ShapeDef::ConvexHull { points, border_radius } => {
            let r = ShapeDef::ConvexHull {
                points: clone_points(points),
                border_radius: *border_radius,
            };
            assert(r@ =~= s@);
            r
        },
        ShapeDef::HeightField { size, heights } => {
            let grid = clone_grid(heights);
            let r = ShapeDef::HeightField { size: *size, heights: grid };
            proof {
                assert forall|j: int| 0 <= j < grid@.len() implies #[trigger] grid_view(grid@)[j]
                    == grid_view(heights@)[j] by {
                    assert(grid@[j]@ == heights@[j]@);
                }
                assert(grid_view(grid@) =~= grid_view(heights@));
                assert(r@ =~= s@);
            }
            r
        },
        ShapeDef::TriMesh { positions, indices } => {
            let r = ShapeDef::TriMesh {
                positions: clone_points(positions),
                indices: clone_tris(indices),
            };
            assert(r@ =~= s@);
            r
        },
    }
}

} // verus!
