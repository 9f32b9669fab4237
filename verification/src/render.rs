//! The debug shape renderer: resolves each entity's effective world pose,
//! selects a color from the lookup table, and emits a wireframe outline per
//! shape variant into a shared per-frame line buffer.
//!
//! Outlines are built from straight segments only, placed with the exact
//! fixed-point pose arithmetic of [`crate::math`]: boxes draw their twelve
//! edges, spheres three axis-aligned rings, capsules two cap outlines
//! joined by two side lines, convex hulls a closed polyline through their
//! points, and height fields a grid wireframe. Every emitted line lives for
//! one frame: the buffer is cleared and re-filled each frame.

use vstd::prelude::*;

use crate::entity::{opt_pose_wf, shape_of, EntityRow};
use crate::math::{
    lemma_q_mul_range, pose_wf, q_in_range, q_mul, q_rotate, quat_mul, rotate_point, v_add,
    v_in_range, vec3_add, Pose, PoseM, Quat, Q4, V3, Vec3, LP_BOUND, RQ_BOUND, R_BOUND, T_BOUND,
};
use crate::shape::{
    check_shape, color_for, grid_rectangular, grid_view, points_view, DebugColor, Extent2, Rgba,
    ShapeDef, ShapeV,
};

verus! {

/// Largest magnitude allowed for a resolved world-translation component:
/// a stored global pose, or a parent translation plus a local one.
pub const WT_BOUND: i64 = 2097152;

/// One debug line segment, with a single frame of lifetime.
#[derive(Clone, Copy, PartialEq, Eq, Structural, Debug)]
pub struct DebugLine {
    pub start: Vec3,
    pub end: Vec3,
    pub color: Rgba,
}

/// Mathematical model of a debug line segment.
#[verifier::ext_equal]
pub ghost struct LineM {
    pub start: V3,
    pub end: V3,
    pub color: Rgba,
}

impl View for DebugLine {
    type V = LineM;

    open spec fn view(&self) -> LineM {
        LineM { start: self.start@, end: self.end@, color: self.color }
    }
}

/// The shared per-frame line buffer the renderer appends to.
pub struct DebugLines {
    lines: Vec<DebugLine>,
}

impl DebugLines {
    /// The segments the buffer holds this frame, oldest first.
    pub closed spec fn model(self) -> Seq<LineM> {
        self.lines@.map_values(|l: DebugLine| l@)
    }

    /// An empty buffer.
    pub fn new() -> (b: DebugLines)
        ensures
            b.model() == Seq::<LineM>::empty(),
    {
        let b = DebugLines { lines: Vec::new() };
        proof {
            assert(b.model() =~= Seq::<LineM>::empty());
        }
        b
    }

    /// How many segments the buffer holds.
    pub fn len(&self) -> (n: usize)
        ensures
            n == self.model().len(),
    {
        self.lines.len()
    }

    /// The segment at an index.
    pub fn get(&self, i: usize) -> (l: DebugLine)
        requires
            i < self.model().len(),
        ensures
            l@ == self.model()[i as int],
    {
        self.lines[i]
    }

    /// Appends one segment.
    pub fn line(&mut self, start: Vec3, end: Vec3, color: Rgba)
        ensures
            final(self).model() == old(self).model().push(
                (LineM { start: start@, end: end@, color }),
            ),
    {
        self.lines.push(DebugLine { start, end, color });
        proof {
            assert(self.model() =~= old(self).model().push(
                LineM { start: start@, end: end@, color },
            ));
        }
    }

    /// Drops every segment: each line has one frame of lifetime, and the
    /// renderer re-emits everything the next frame.
    pub fn clear(&mut self)
        ensures
            final(self).model() == Seq::<LineM>::empty(),
    {
        self.lines.clear();
        proof {
            assert(self.model() =~= Seq::<LineM>::empty());
        }
    }
}

/// A local point carried to world space: the pose's rotation applied to the
/// point, then the pose's translation added.
pub open spec fn world_point(t: V3, q: Q4, p: V3) -> V3 {
    v_add(t, q_rotate(q, p))
}

/// The world-space segment between two local points.
pub open spec fn seg(t: V3, q: Q4, a: V3, b: V3, color: Rgba) -> LineM {
    LineM { start: world_point(t, q, a), end: world_point(t, q, b), color }
}

/// Appends the world-space segment between two local points.
fn push_seg(buf: &mut DebugLines, t: Vec3, q: Quat, a: Vec3, b: Vec3, color: Rgba)
    requires
        v_in_range(t@, WT_BOUND as int),
        q_in_range(q@, RQ_BOUND as int),
        v_in_range(a@, LP_BOUND as int),
        v_in_range(b@, LP_BOUND as int),
    ensures
        final(buf).model() == old(buf).model().push(seg(t@, q@, a@, b@, color)),
{
    let start = vec3_add(t, rotate_point(q, a));
    let end = vec3_add(t, rotate_point(q, b));
    buf.line(start, end, color);
}

/// A corner of the box with half extents `h`: each flag selects the
/// positive or the negative half extent on its axis.
pub open spec fn cnr(h: V3, px: bool, py: bool, pz: bool) -> V3 {
    V3 {
        x: if px {
            h.x
        } else {
            -h.x
        },
        y: if py {
            h.y
        } else {
            -h.y
        },
        z: if pz {
            h.z
        } else {
            -h.z
        },
    }
}

fn corner(h: Vec3, px: bool, py: bool, pz: bool) -> (r: Vec3)
    requires
        v_in_range(h@, LP_BOUND as int),
    ensures
        r@ == cnr(h@, px, py, pz),
{
    Vec3 {
        x: if px {
            h.x
        } else {
            -h.x
        },
        y: if py {
            h.y
        } else {
            -h.y
        },
        z: if pz {
            h.z
        } else {
            -h.z
        },
    }
}

/// The twelve edges of the box with half extents `h`: the bottom ring, the
/// top ring, and the four verticals.
pub open spec fn cuboid_outline(t: V3, q: Q4, h: V3, color: Rgba) -> Seq<LineM> {
    Seq::<LineM>::empty().push(seg(t, q, cnr(h, false, false, false), cnr(h, true, false, false), color)).push(
        seg(t, q, cnr(h, true, false, false), cnr(h, true, true, false), color),
    ).push(seg(t, q, cnr(h, true, true, false), cnr(h, false, true, false), color)).push(
        seg(t, q, cnr(h, false, true, false), cnr(h, false, false, false), color),
    ).push(seg(t, q, cnr(h, false, false, true), cnr(h, true, false, true), color)).push(
        seg(t, q, cnr(h, true, false, true), cnr(h, true, true, true), color),
    ).push(seg(t, q, cnr(h, true, true, true), cnr(h, false, true, true), color)).push(
        seg(t, q, cnr(h, false, true, true), cnr(h, false, false, true), color),
    ).push(seg(t, q, cnr(h, false, false, false), cnr(h, false, false, true), color)).push(
        seg(t, q, cnr(h, true, false, false), cnr(h, true, false, true), color),
    ).push(seg(t, q, cnr(h, true, true, false), cnr(h, true, true, true), color)).push(
        seg(t, q, cnr(h, false, true, false), cnr(h, false, true, true), color),
    )
}

/// Emits the twelve edges of a box.
pub fn add_cuboid(origin: Vec3, orient: Quat, half_extents: Vec3, color: Rgba, lines: &mut DebugLines)
    requires
        v_in_range(origin@, WT_BOUND as int),
        q_in_range(orient@, RQ_BOUND as int),
        v_in_range(half_extents@, LP_BOUND as int),
    ensures
        final(lines).model() == old(lines).model() + cuboid_outline(
            origin@,
            orient@,
            half_extents@,
            color,
        ),
{
    let c000 = corner(half_extents, false, false, false);
    let c100 = corner(half_extents, true, false, false);
    let c110 = corner(half_extents, true, true, false);
    let c010 = corner(half_extents, false, true, false);
    let c001 = corner(half_extents, false, false, true);
    let c101 = corner(half_extents, true, false, true);
    let c111 = corner(half_extents, true, true, true);
    let c011 = corner(half_extents, false, true, true);
    push_seg(lines, origin, orient, c000, c100, color);
    push_seg(lines, origin, orient, c100, c110, color);
    push_seg(lines, origin, orient, c110, c010, color);
    push_seg(lines, origin, orient, c010, c000, color);
    push_seg(lines, origin, orient, c001, c101, color);
    push_seg(lines, origin, orient, c101, c111, color);
    push_seg(lines, origin, orient, c111, c011, color);
    push_seg(lines, origin, orient, c011, c001, color);
    push_seg(lines, origin, orient, c000, c001, color);
    push_seg(lines, origin, orient, c100, c101, color);
    push_seg(lines, origin, orient, c110, c111, color);
    push_seg(lines, origin, orient, c010, c011, color);
    proof {
        assert(final(lines).model() =~= old(lines).model() + cuboid_outline(
            origin@,
            orient@,
            half_extents@,
            color,
        ));
    }
}

/// The box half extents inflated by the border radius on every axis.
pub open spec fn inflated(h: V3, b: int) -> V3 {
    V3 { x: h.x + b, y: h.y + b, z: h.z + b }
}

/// A bevelled box is approximated by the edges of its core box together
/// with the edges of the box inflated by the border radius.
pub open spec fn rounded_cuboid_outline(t: V3, q: Q4, h: V3, b: int, color: Rgba) -> Seq<LineM> {
    cuboid_outline(t, q, h, color) + cuboid_outline(t, q, inflated(h, b), color)
}

/// Emits the bevelled approximation of a box with a border radius.
pub fn add_rounded_cuboid(
    origin: Vec3,
    orient: Quat,
    half_extents: Vec3,
    bevel: i64,
    color: Rgba,
    lines: &mut DebugLines,
)
    requires
        v_in_range(origin@, WT_BOUND as int),
        q_in_range(orient@, RQ_BOUND as int),
        v_in_range(half_extents@, T_BOUND as int),
        -T_BOUND <= bevel <= T_BOUND,
    ensures
        final(lines).model() == old(lines).model() + rounded_cuboid_outline(
            origin@,
            orient@,
            half_extents@,
            bevel as int,
            color,
        ),
{
    add_cuboid(origin, orient, half_extents, color, lines);
    let hi = Vec3 {
        x: half_extents.x + bevel,
        y: half_extents.y + bevel,
        z: half_extents.z + bevel,
    };
    add_cuboid(origin, orient, hi, color, lines);
    proof {
        assert(final(lines).model() =~= old(lines).model() + rounded_cuboid_outline(
            origin@,
            orient@,
            half_extents@,
            bevel as int,
            color,
        ));
    }
}

/// The six axis points of the sphere of radius `r`.
pub open spec fn axis_point(r: int, axis: int, positive: bool) -> V3 {
    let s = if positive {
        r
    } else {
        -r
    };
    if axis == 0 {
        V3 { x: s, y: 0, z: 0 }
    } else if axis == 1 {
        V3 { x: 0, y: s, z: 0 }
    } else {
        V3 { x: 0, y: 0, z: s }
    }
}

/// Three great-circle rings of the sphere of radius `r`, one per coordinate
/// plane, each drawn as the four segments between its axis points.
pub open spec fn sphere_outline(t: V3, q: Q4, r: int, color: Rgba) -> Seq<LineM> {
    let px = axis_point(r, 0, true);
    let nx = axis_point(r, 0, false);
    let py = axis_point(r, 1, true);
    let ny = axis_point(r, 1, false);
    let pz = axis_point(r, 2, true);
    let nz = axis_point(r, 2, false);
    Seq::<LineM>::empty().push(seg(t, q, px, py, color)).push(seg(t, q, py, nx, color)).push(
        seg(t, q, nx, ny, color),
    ).push(seg(t, q, ny, px, color)).push(seg(t, q, px, pz, color)).push(
        seg(t, q, pz, nx, color),
    ).push(seg(t, q, nx, nz, color)).push(seg(t, q, nz, px, color)).push(
        seg(t, q, py, pz, color),
    ).push(seg(t, q, pz, ny, color)).push(seg(t, q, ny, nz, color)).push(seg(t, q, nz, py, color))
}

/// Emits the three-ring outline of a sphere.
pub fn add_sphere(origin: Vec3, orient: Quat, radius: i64, color: Rgba, lines: &mut DebugLines)
    requires
        v_in_range(origin@, WT_BOUND as int),
        q_in_range(orient@, RQ_BOUND as int),
        -T_BOUND <= radius <= T_BOUND,
    ensures
        final(lines).model() == old(lines).model() + sphere_outline(
            origin@,
            orient@,
            radius as int,
            color,
        ),
{
    let px = Vec3 { x: radius, y: 0, z: 0 };
    let nx = Vec3 { x: -radius, y: 0, z: 0 };
    let py = Vec3 { x: 0, y: radius, z: 0 };
    let ny = Vec3 { x: 0, y: -radius, z: 0 };
    let pz = Vec3 { x: 0, y: 0, z: radius };
    let nz = Vec3 { x: 0, y: 0, z: -radius };
    push_seg(lines, origin, orient, px, py, color);
    push_seg(lines, origin, orient, py, nx, color);
    push_seg(lines, origin, orient, nx, ny, color);
    push_seg(lines, origin, orient, ny, px, color);
    push_seg(lines, origin, orient, px, pz, color);
    push_seg(lines, origin, orient, pz, nx, color);
    push_seg(lines, origin, orient, nx, nz, color);
    push_seg(lines, origin, orient, nz, px, color);
    push_seg(lines, origin, orient, py, pz, color);
    push_seg(lines, origin, orient, pz, ny, color);
    push_seg(lines, origin, orient, ny, nz, color);
    push_seg(lines, origin, orient, nz, py, color);
    proof {
        assert(final(lines).model() =~= old(lines).model() + sphere_outline(
            origin@,
            orient@,
            radius as int,
            color,
        ));
    }
}

/// A capsule along the y axis: two side lines at the half-segment length,
/// and a two-segment cap outline over each end.
pub open spec fn capsule_outline(t: V3, q: Q4, hs: int, r: int, color: Rgba) -> Seq<LineM> {
    let a = V3 { x: r, y: -hs, z: 0 };
    let b = V3 { x: r, y: hs, z: 0 };
    let c = V3 { x: -r, y: -hs, z: 0 };
    let d = V3 { x: -r, y: hs, z: 0 };
    let top = V3 { x: 0, y: hs + r, z: 0 };
    let bottom = V3 { x: 0, y: -hs - r, z: 0 };
    Seq::<LineM>::empty().push(seg(t, q, a, b, color)).push(seg(t, q, c, d, color)).push(
        seg(t, q, b, top, color),
    ).push(seg(t, q, top, d, color)).push(seg(t, q, a, bottom, color)).push(
        seg(t, q, bottom, c, color),
    )
}

/// Emits the outline of a capsule.
pub fn add_capsule(
    origin: Vec3,
    orient: Quat,
    half_segment: i64,
    radius: i64,
    color: Rgba,
    lines: &mut DebugLines,
)
    requires
        v_in_range(origin@, WT_BOUND as int),
        q_in_range(orient@, RQ_BOUND as int),
        -T_BOUND <= half_segment <= T_BOUND,
        -T_BOUND <= radius <= T_BOUND,
    ensures
        final(lines).model() == old(lines).model() + capsule_outline(
            origin@,
            orient@,
            half_segment as int,
            radius as int,
            color,
        ),
{
    let a = Vec3 { x: radius, y: -half_segment, z: 0 };
    let b = Vec3 { x: radius, y: half_segment, z: 0 };
    let c = Vec3 { x: -radius, y: -half_segment, z: 0 };
    let d = Vec3 { x: -radius, y: half_segment, z: 0 };
    let top = Vec3 { x: 0, y: half_segment + radius, z: 0 };
    let bottom = Vec3 { x: 0, y: -half_segment - radius, z: 0 };
    push_seg(lines, origin, orient, a, b, color);
    push_seg(lines, origin, orient, c, d, color);
    push_seg(lines, origin, orient, b, top, color);
    push_seg(lines, origin, orient, top, d, color);
    push_seg(lines, origin, orient, a, bottom, color);
    push_seg(lines, origin, orient, bottom, c, color);
    proof {
        assert(final(lines).model() =~= old(lines).model() + capsule_outline(
            origin@,
            orient@,
            half_segment as int,
            radius as int,
            color,
        ));
    }
}

/// A closed polyline through the given points, in their given order — the
/// hull's point set drawn directly, without recomputing hull edges. Fewer
/// than two points draw nothing.
pub open spec fn ring_outline(t: V3, q: Q4, pts: Seq<V3>, color: Rgba) -> Seq<LineM> {
    if pts.len() < 2 {
        Seq::<LineM>::empty()
    } else {
        Seq::new(
            pts.len(),
            |i: int|
                seg(
                    t,
                    q,
                    pts[i],
                    pts[
                        if i + 1 == pts.len() as int {
                            0
                        } else {
                            i + 1
                        }
                    ],
                    color,
                ),
        )
    }
}

/// Emits the closed outline through a convex hull's points. A configured
/// border radius is accepted by the shape model but intentionally ignored
/// here: there is no supported way to outline the inflated hull.
#[verifier::loop_isolation(false)]
pub fn add_convex_hull(
    origin: Vec3,
    orient: Quat,
    points: &Vec<Vec3>,
    color: Rgba,
    lines: &mut DebugLines,
)
    requires
        v_in_range(origin@, WT_BOUND as int),
        q_in_range(orient@, RQ_BOUND as int),
        forall|i: int|
            0 <= i < points@.len() ==> v_in_range((#[trigger] points@[i])@, T_BOUND as int),
    ensures
        final(lines).model() == old(lines).model() + ring_outline(
            origin@,
            orient@,
            points_view(points@),
            color,
        ),
{
    let ghost ring = ring_outline(origin@, orient@, points_view(points@), color);
    let n = points.len();
    if n < 2 {
        proof {
            assert(lines.model() =~= old(lines).model() + ring);
        }
        return ;
    }
    let mut i: usize = 0;
    while i < n
        invariant
            0 <= i <= n,
            lines.model() == old(lines).model() + ring.take(i as int),
        decreases n - i,
    {
        let next = if i + 1 == n {
            0
        } else {
            i + 1
        };
        let a = points[i];
        let b = points[next];
        push_seg(lines, origin, orient, a, b, color);
        proof {
            assert(a@ == points_view(points@)[i as int]);
            assert(b@ == points_view(points@)[next as int]);
            assert(ring[i as int] == seg(origin@, orient@, a@, b@, color));
            assert(ring.take(i as int + 1) =~= ring.take(i as int).push(ring[i as int]));
            assert(lines.model() =~= old(lines).model() + ring.take(i as int + 1));
        }
        i += 1;
    }
    proof {
        assert(ring.take(n as int) =~= ring);
    }
}

/// Number of columns of a height grid.
pub open spec fn hf_cols(hs: Seq<Seq<int>>) -> int {
    hs[0].len() as int
}

/// The x spacing of grid columns: the x extent divided evenly.
pub open spec fn hf_step_x(sx: int, hs: Seq<Seq<int>>) -> int {
    sx / (hf_cols(hs) - 1)
}

/// The z spacing of grid rows: the z extent divided evenly.
pub open spec fn hf_step_z(sz: int, hs: Seq<Seq<int>>) -> int {
    sz / (hs.len() as int - 1)
}

/// Grid vertex `(i, j)`: the grid is centred on the origin in x and z, and
/// the stored height gives y.
pub open spec fn hf_vertex(sx: int, sz: int, hs: Seq<Seq<int>>, i: int, j: int) -> V3 {
    V3 {
        x: j * hf_step_x(sx, hs) - sx / 2,
        y: hs[i][j],
        z: i * hf_step_z(sz, hs) - sz / 2,
    }
}

/// The segments along grid row `i`.
pub open spec fn hf_row_segs(
    t: V3,
    q: Q4,
    sx: int,
    sz: int,
    hs: Seq<Seq<int>>,
    color: Rgba,
    i: int,
) -> Seq<LineM> {
    Seq::new(
        (hf_cols(hs) - 1) as nat,
        |j: int| seg(t, q, hf_vertex(sx, sz, hs, i, j), hf_vertex(sx, sz, hs, i, j + 1), color),
    )
}

/// The segments of the first `i` grid rows, in order.
pub open spec fn hf_rows_segs(
    t: V3,
    q: Q4,
    sx: int,
    sz: int,
    hs: Seq<Seq<int>>,
    color: Rgba,
    i: int,
) -> Seq<LineM>
    decreases i,
{
    if i <= 0 {
        Seq::<LineM>::empty()
    } else {
        hf_rows_segs(t, q, sx, sz, hs, color, i - 1) + hf_row_segs(t, q, sx, sz, hs, color, i - 1)
    }
}

/// The segments joining grid row `i` to row `i + 1`.
pub open spec fn hf_col_segs(
    t: V3,
    q: Q4,
    sx: int,
    sz: int,
    hs: Seq<Seq<int>>,
    color: Rgba,
    i: int,
) -> Seq<LineM> {
    Seq::new(
        hf_cols(hs) as nat,
        |j: int| seg(t, q, hf_vertex(sx, sz, hs, i, j), hf_vertex(sx, sz, hs, i + 1, j), color),
    )
}

/// The segments joining the first `i + 1` grid rows, in order.
pub open spec fn hf_cols_segs(
    t: V3,
    q: Q4,
    sx: int,
    sz: int,
    hs: Seq<Seq<int>>,
    color: Rgba,
    i: int,
) -> Seq<LineM>
    decreases i,
{
    if i <= 0 {
        Seq::<LineM>::empty()
    } else {
        hf_cols_segs(t, q, sx, sz, hs, color, i - 1) + hf_col_segs(t, q, sx, sz, hs, color, i - 1)
    }
}

/// The grid wireframe over a height field: every row polyline and every
/// column polyline.
pub open spec fn height_field_outline(
    t: V3,
    q: Q4,
    sx: int,
    sz: int,
    hs: Seq<Seq<int>>,
    color: Rgba,
) -> Seq<LineM> {
    hf_rows_segs(t, q, sx, sz, hs, color, hs.len() as int) + hf_cols_segs(
        t,
        q,
        sx,
        sz,
        hs,
        color,
        hs.len() as int - 1,
    )
}

/// A height grid the renderer can draw: the same conditions under which the
/// engine's geometry constructor accepts it, see [`crate::shape::shape_valid`].
pub open spec fn hf_drawable(sx: int, sz: int, hs: Seq<Seq<int>>) -> bool {
    sx > 0 && sz > 0 && hs.len() >= 2 && hs[0].len() >= 2 && grid_rectangular(hs)
}

/// Every dimension of a height grid the renderer accepts, bounded.
pub open spec fn hf_range_ok(sx: int, sz: int, hs: Seq<Seq<int>>) -> bool {
    -(T_BOUND as int) <= sx <= T_BOUND as int && -(T_BOUND as int) <= sz <= T_BOUND as int
        && hs.len() <= 1048576 && forall|i: int|
        0 <= i < hs.len() ==> (#[trigger] hs[i]).len() <= 1048576 && forall|j: int|
            0 <= j < hs[i].len() ==> -(T_BOUND as int) <= #[trigger] hs[i][j] <= T_BOUND as int
}

/// Computes grid vertex `(i, j)` in local space.
fn hf_vertex_at(
    sx: i64,
    sz: i64,
    heights: &Vec<Vec<i64>>,
    step_x: i64,
    step_z: i64,
    i: usize,
    j: usize,
) -> (r: Vec3)
    requires
        hf_drawable(sx as int, sz as int, grid_view(heights@)),
        hf_range_ok(sx as int, sz as int, grid_view(heights@)),
        step_x as int == hf_step_x(sx as int, grid_view(heights@)),
        step_z as int == hf_step_z(sz as int, grid_view(heights@)),
        (i as int) < heights@.len(),
        (j as int) < grid_view(heights@)[0].len(),
    ensures
        r@ == hf_vertex(sx as int, sz as int, grid_view(heights@), i as int, j as int),
        v_in_range(r@, LP_BOUND as int),
{
    let ghost hv = grid_view(heights@);
    let rows = heights.len();
    let cols = heights[0].len();
    proof {
        assert(hv.len() == heights@.len());
        assert(hv[0].len() == heights@[0]@.len());
        assert(hv[i as int].len() == hv[0].len());
        assert(hv[i as int].len() == heights@[i as int]@.len());
        assert(0 <= hf_step_x(sx as int, hv) <= sx as int) by (nonlinear_arith)
            requires
                hf_step_x(sx as int, hv) == (sx as int) / (hv[0].len() as int - 1),
                2 <= hv[0].len() <= 1048576,
                0 < sx as int <= T_BOUND as int;
        assert(0 <= hf_step_z(sz as int, hv) <= sz as int) by (nonlinear_arith)
            requires
                hf_step_z(sz as int, hv) == (sz as int) / (hv.len() as int - 1),
                2 <= hv.len() <= 1048576,
                0 < sz as int <= T_BOUND as int;
        assert(0 <= (j as int) * (step_x as int) <= sx as int) by (nonlinear_arith)
            requires
                0 <= j as int <= hv[0].len() as int - 1,
                step_x as int == (sx as int) / (hv[0].len() as int - 1),
                2 <= hv[0].len() <= 1048576,
                0 < sx as int <= T_BOUND as int;
        assert(0 <= (i as int) * (step_z as int) <= sz as int) by (nonlinear_arith)
            requires
                0 <= i as int <= hv.len() as int - 1,
                step_z as int == (sz as int) / (hv.len() as int - 1),
                2 <= hv.len() <= 1048576,
                0 < sz as int <= T_BOUND as int;
    }
    let x = (j as i64) * step_x - sx / 2;
    let y = heights[i][j];
    let z = (i as i64) * step_z - sz / 2;
    proof {
        assert(y as int == hv[i as int][j as int]);
        assert(-(T_BOUND as int) <= hv[i as int][j as int] <= T_BOUND as int);
    }
    Vec3 { x, y, z }
}

/// Emits the grid wireframe of a height field.
#[verifier::loop_isolation(false)]
pub fn add_height_field(
    origin: Vec3,
    orient: Quat,
    size: Extent2,
    heights: &Vec<Vec<i64>>,
    color: Rgba,
    lines: &mut DebugLines,
)
    requires
        v_in_range(origin@, WT_BOUND as int),
        q_in_range(orient@, RQ_BOUND as int),
        hf_drawable(size.x as int, size.y as int, grid_view(heights@)),
        hf_range_ok(size.x as int, size.y as int, grid_view(heights@)),
    ensures
        final(lines).model() == old(lines).model() + height_field_outline(
            origin@,
            orient@,
            size.x as int,
            size.y as int,
            grid_view(heights@),
            color,
        ),
{
    let ghost hv = grid_view(heights@);
    let ghost t = origin@;
    let ghost q = orient@;
    let ghost sxi = size.x as int;
    let ghost szi = size.y as int;
    let rows = heights.len();
    let cols = heights[0].len();
    proof {
        assert(hv.len() == heights@.len());
        assert(hv[0].len() == heights@[0]@.len());
    }
    let step_x = size.x / (cols as i64 - 1);
    let step_z = size.y / (rows as i64 - 1);
    let mut i: usize = 0;
    while i < rows
        invariant
            0 <= i <= rows,
            lines.model() == old(lines).model() + hf_rows_segs(t, q, sxi, szi, hv, color, i as int),
        decreases rows - i,
    {
        let mut j: usize = 0;
        while j + 1 < cols
            invariant
                0 <= j <= cols - 1,
                i < rows,
                lines.model() == old(lines).model() + hf_rows_segs(
                    t,
                    q,
                    sxi,
                    szi,
                    hv,
                    color,
                    i as int,
                ) + hf_row_segs(t, q, sxi, szi, hv, color, i as int).take(j as int),
            decreases cols - j,
        {
            proof {
                assert(hv[i as int].len() == hv[0].len());
            }
            let a = hf_vertex_at(size.x, size.y, heights, step_x, step_z, i, j);
            let b = hf_vertex_at(size.x, size.y, heights, step_x, step_z, i, j + 1);
            push_seg(lines, origin, orient, a, b, color);
            proof {
                let row = hf_row_segs(t, q, sxi, szi, hv, color, i as int);
                assert(row[j as int] == seg(t, q, a@, b@, color));
                assert(row.take(j as int + 1) =~= row.take(j as int).push(row[j as int]));
                assert(lines.model() =~= old(lines).model() + hf_rows_segs(
                    t,
                    q,
                    sxi,
                    szi,
                    hv,
                    color,
                    i as int,
                ) + row.take(j as int + 1));
            }
            j += 1;
        }
        proof {
            let row = hf_row_segs(t, q, sxi, szi, hv, color, i as int);
            assert(row.take(hv[0].len() as int - 1) =~= row);
            assert(lines.model() =~= old(lines).model() + hf_rows_segs(
                t,
                q,
                sxi,
                szi,
                hv,
                color,
                i as int + 1,
            ));
        }
        i += 1;
    }
    let ghost all_rows = hf_rows_segs(t, q, sxi, szi, hv, color, hv.len() as int);
    let mut i2: usize = 0;
    while i2 + 1 < rows
        invariant
            0 <= i2 <= rows - 1,
            lines.model() == old(lines).model() + all_rows + hf_cols_segs(
                t,
                q,
                sxi,
                szi,
                hv,
                color,
                i2 as int,
            ),
        decreases rows - i2,
    {
        let mut j: usize = 0;
        while j < cols
            invariant
                0 <= j <= cols,
                i2 + 1 < rows,
                lines.model() == old(lines).model() + all_rows + hf_cols_segs(
                    t,
                    q,
                    sxi,
                    szi,
                    hv,
                    color,
                    i2 as int,
                ) + hf_col_segs(t, q, sxi, szi, hv, color, i2 as int).take(j as int),
            decreases cols - j,
        {
            proof {
                assert(hv[i2 as int].len() == hv[0].len());
                assert(hv[i2 as int + 1].len() == hv[0].len());
            }
            let a = hf_vertex_at(size.x, size.y, heights, step_x, step_z, i2, j);
            let b = hf_vertex_at(size.x, size.y, heights, step_x, step_z, i2 + 1, j);
            push_seg(lines, origin, orient, a, b, color);
            proof {
                let col = hf_col_segs(t, q, sxi, szi, hv, color, i2 as int);
                assert(col[j as int] == seg(t, q, a@, b@, color));
                assert(col.take(j as int + 1) =~= col.take(j as int).push(col[j as int]));
                assert(lines.model() =~= old(lines).model() + all_rows + hf_cols_segs(
                    t,
                    q,
                    sxi,
                    szi,
                    hv,
                    color,
                    i2 as int,
                ) + col.take(j as int + 1));
            }
            j += 1;
        }
        proof {
            let col = hf_col_segs(t, q, sxi, szi, hv, color, i2 as int);
            assert(col.take(hv[0].len() as int) =~= col);
            assert(lines.model() =~= old(lines).model() + all_rows + hf_cols_segs(
                t,
                q,
                sxi,
                szi,
                hv,
                color,
                i2 as int + 1,
            ));
        }
        i2 += 1;
    }
    proof {
        assert(lines.model() =~= old(lines).model() + height_field_outline(
            t,
            q,
            sxi,
            szi,
            hv,
            color,
        ));
    }
}

/// The pose an outline pass hands in for the parent, copied out of the
/// host's transform lookup.
pub open spec fn opt_pose_copy(p: Option<&Pose>) -> Option<Pose> {
    match p {
        Some(x) => Some(*x),
        None => None,
    }
}

/// The effective world pose used to draw an entity's outline: the resolved
/// global transform if one exists; otherwise, for an entity with a parent
/// link whose global transform is known, the parent's translation plus the
/// local one and the parent's rotation composed with the local one;
/// otherwise nothing, and the entity is skipped this frame.
pub open spec fn resolve_pose(row: EntityRow, parent_global: Option<Pose>) -> Option<PoseM> {
    match row.global {
        Some(g) => Some(g@),
        None => match (row.parent, parent_global, row.local) {
            (Some(_), Some(pg), Some(l)) => Some(
                PoseM {
                    translation: v_add(pg@.translation, l@.translation),
                    rotation: q_mul(pg@.rotation, l@.rotation),
                },
            ),
            _ => None,
        },
    }
}

/// The outline one shape variant draws at a world pose. A bevelled convex
/// hull falls back to the plain hull outline, a height grid the geometry
/// constructor would reject draws nothing, and a triangle mesh has no
/// outline form.
pub open spec fn shape_outline(s: ShapeV, t: V3, q: Q4, color: Rgba) -> Seq<LineM> {
    match s {
        ShapeV::Sphere { radius } => sphere_outline(t, q, radius, color),
        ShapeV::Cuboid { half_extents, border_radius } => match border_radius {
            Some(b) => rounded_cuboid_outline(t, q, half_extents, b, color),
            None => cuboid_outline(t, q, half_extents, color),
        },
        ShapeV::Capsule { half_segment, radius } => capsule_outline(
            t,
            q,
            half_segment,
            radius,
            color,
        ),
        ShapeV::ConvexHull { points, border_radius: _ } => ring_outline(t, q, points, color),
        ShapeV::HeightField { size_x, size_y, heights } => if hf_drawable(
            size_x,
            size_y,
            heights,
        ) {
            height_field_outline(t, q, size_x, size_y, heights, color)
        } else {
            Seq::<LineM>::empty()
        },
        ShapeV::TriMesh { positions: _, indices: _ } => Seq::<LineM>::empty(),
    }
}

/// Every scalar of a shape definition within the renderer's fixed bounds.
pub open spec fn shape_range_ok(s: ShapeV) -> bool {
    match s {
        ShapeV::Sphere { radius } => -(T_BOUND as int) <= radius <= T_BOUND as int,
        ShapeV::Cuboid { half_extents, border_radius } => v_in_range(half_extents, T_BOUND as int)
            && opt_in_range(border_radius),
        ShapeV::Capsule { half_segment, radius } => -(T_BOUND as int) <= half_segment <= T_BOUND as int
            && -(T_BOUND as int) <= radius <= T_BOUND as int,
        ShapeV::ConvexHull { points, border_radius: _ } => forall|i: int|
            0 <= i < points.len() ==> v_in_range(#[trigger] points[i], T_BOUND as int),
        ShapeV::HeightField { size_x, size_y, heights } => hf_range_ok(size_x, size_y, heights),
        ShapeV::TriMesh { positions: _, indices: _ } => true,
    }
}

pub open spec fn opt_in_range(o: Option<int>) -> bool {
    match o {
        Some(b) => -(T_BOUND as int) <= b <= T_BOUND as int,
        None => true,
    }
}

/// The debug shape renderer for one entity: resolves the effective world
/// pose, selects the color for the entity's body kind and sensor flag, and
/// appends the shape's wireframe outline to the shared line buffer. An
/// entity without a shape definition, or whose pose cannot be resolved
/// (hierarchy not yet evaluated this frame), is skipped silently.
pub fn add_shape_outline(
    row: &EntityRow,
    parent_global: Option<&Pose>,
    color: &DebugColor,
    lines: &mut DebugLines,
)
    requires
        row.shape matches Some(s) ==> shape_range_ok(s@),
        opt_pose_wf(row.global),
        opt_pose_wf(row.local),
        match parent_global {
            Some(p) => pose_wf(p@),
            None => true,
        },
    ensures
        row.shape is None || resolve_pose(*row, opt_pose_copy(parent_global)) is None ==> *final(lines) == *old(lines),
        row.shape is Some ==> (resolve_pose(*row, opt_pose_copy(parent_global)) matches Some(wp)
            ==> final(lines).model() == old(lines).model() + shape_outline(
            shape_of(*row),
            wp.translation,
            wp.rotation,
            color_for(*color, row.kind, row.sensor),
        )),
{
    let s = match &row.shape {
        Some(s) => s,
        None => {
            return ;
        },
    };
    let origin: Vec3;
    let orient: Quat;
    match &row.global {
        Some(g) => {
            origin = g.translation;
            orient = g.rotation;
        },
        None => {
            match &row.parent {
                Some(_) => (),
                None => {
                    return ;
                },
            }
            let pg = match parent_global {
                Some(pg) => pg,
                None => {
                    return ;
                },
            };
            let l = match &row.local {
                Some(l) => l,
                None => {
                    return ;
                },
            };
            proof {
                lemma_q_mul_range(pg.rotation@, l.rotation@, R_BOUND as int, R_BOUND as int);
            }
            origin = vec3_add(pg.translation, l.translation);
            orient = quat_mul(pg.rotation, l.rotation);
        },
    }
    let c = color.for_collider_type(row.kind, row.sensor);
    match s {
        ShapeDef::Cuboid { half_extents, border_radius } => match border_radius {
            Some(bevel) => {
                add_rounded_cuboid(origin, orient, *half_extents, *bevel, c, lines);
            },
            None => {
                add_cuboid(origin, orient, *half_extents, c, lines);
            },
        },
        ShapeDef::Sphere { radius } => {
            add_sphere(origin, orient, *radius, c, lines);
        },
        ShapeDef::Capsule { half_segment, radius } => {
            add_capsule(origin, orient, *half_segment, *radius, c, lines);
        },
        ShapeDef::ConvexHull { points, border_radius: _ } => {
            proof {
                assert(shape_range_ok(s@));
                assert(s@ matches ShapeV::ConvexHull { points: pv, border_radius: _ } && pv
                    == points_view(points@));
                assert forall|i: int| 0 <= i < points@.len() implies v_in_range(
                    (#[trigger] points@[i])@,
                    T_BOUND as int,
                ) by {
                    assert(points_view(points@)[i] == points@[i]@);
                    assert(v_in_range(points_view(points@)[i], T_BOUND as int));
                }
            }
            add_convex_hull(origin, orient, points, c, lines);
        },
        ShapeDef::HeightField { size, heights } => {
            let sound = match check_shape(s) {
                Ok(_) => true,
                Err(_) => false,
            };
            if sound {
                add_height_field(origin, orient, *size, heights, c, lines);
            } else {
                proof {
                    assert(old(lines).model() + Seq::<LineM>::empty() =~= old(lines).model());
                }
            }
        },
        ShapeDef::TriMesh { positions: _, indices: _ } => {
            proof {
                assert(old(lines).model() + Seq::<LineM>::empty() =~= old(lines).model());
            }
        },
    }
}

} // verus!
