//! Exact pose arithmetic: three-component translations and quaternion
//! rotations over fixed-point integer scalars.
//!
//! Every operation is stated against a mathematical model (`V3`, `Q4`,
//! `PoseM`) whose components are unbounded integers, so the algebraic laws
//! of the synchronizer can be proved exactly.

use vstd::prelude::*;

verus! {

/// Largest magnitude allowed for a translation component of a well-formed pose.
pub const T_BOUND: i64 = 1048576;

/// Largest magnitude allowed for a rotation component of a well-formed pose.
pub const R_BOUND: i64 = 128;

/// Largest component magnitude accepted by the quaternion product.
pub const QM_BOUND: i64 = 1048576;

/// Largest quaternion component magnitude accepted when rotating a point.
pub const RQ_BOUND: i64 = 65536;

/// Largest point component magnitude accepted when rotating a point.
pub const LP_BOUND: i64 = 4194304;

/// Largest component magnitude accepted by vector addition and subtraction.
pub const VOP_BOUND: i64 = 0x2000_0000_0000_0000;

/// Mathematical model of a translation vector.
#[verifier::ext_equal]
pub ghost struct V3 {
    pub x: int,
    pub y: int,
    pub z: int,
}

/// Mathematical model of a rotation quaternion.
#[verifier::ext_equal]
pub ghost struct Q4 {
    pub x: int,
    pub y: int,
    pub z: int,
    pub w: int,
}

/// Mathematical model of a pose: a translation and a rotation.
#[verifier::ext_equal]
pub ghost struct PoseM {
    pub translation: V3,
    pub rotation: Q4,
}

/// A translation vector with fixed-point integer components.
#[derive(Clone, Copy, PartialEq, Eq, Structural, Debug)]
pub struct Vec3 {
    pub x: i64,
    pub y: i64,
    pub z: i64,
}

/// A rotation quaternion with fixed-point integer components.
#[derive(Clone, Copy, PartialEq, Eq, Structural, Debug)]
pub struct Quat {
    pub x: i64,
    pub y: i64,
    pub z: i64,
    pub w: i64,
}

/// A pose: translation and rotation, as a scene transform stores them.
#[derive(Clone, Copy, PartialEq, Eq, Structural, Debug)]
pub struct Pose {
    pub translation: Vec3,
    pub rotation: Quat,
}

impl View for Vec3 {
    type V = V3;

    open spec fn view(&self) -> V3 {
        V3 { x: self.x as int, y: self.y as int, z: self.z as int }
    }
}

impl View for Quat {
    type V = Q4;

    open spec fn view(&self) -> Q4 {
        Q4 { x: self.x as int, y: self.y as int, z: self.z as int, w: self.w as int }
    }
}

impl View for Pose {
    type V = PoseM;

    open spec fn view(&self) -> PoseM {
        PoseM { translation: self.translation@, rotation: self.rotation@ }
    }
}

pub open spec fn v_in_range(v: V3, b: int) -> bool {
    -b <= v.x <= b && -b <= v.y <= b && -b <= v.z <= b
}

pub open spec fn q_in_range(q: Q4, b: int) -> bool {
    -b <= q.x <= b && -b <= q.y <= b && -b <= q.z <= b && -b <= q.w <= b
}

/// A well-formed pose keeps every component within the library's fixed bounds.
pub open spec fn pose_wf(p: PoseM) -> bool {
    v_in_range(p.translation, T_BOUND as int) && q_in_range(p.rotation, R_BOUND as int)
}

pub open spec fn v_add(a: V3, b: V3) -> V3 {
    V3 { x: a.x + b.x, y: a.y + b.y, z: a.z + b.z }
}

pub open spec fn v_sub(a: V3, b: V3) -> V3 {
    V3 { x: a.x - b.x, y: a.y - b.y, z: a.z - b.z }
}

/// Hamilton product of two quaternions.
pub open spec fn q_mul(a: Q4, b: Q4) -> Q4 {
    Q4 {
        x: a.w * b.x + a.x * b.w + a.y * b.z - a.z * b.y,
        y: a.w * b.y - a.x * b.z + a.y * b.w + a.z * b.x,
        z: a.w * b.z + a.x * b.y - a.y * b.x + a.z * b.w,
        w: a.w * b.w - a.x * b.x - a.y * b.y - a.z * b.z,
    }
}

pub open spec fn q_conj(a: Q4) -> Q4 {
    Q4 { x: -a.x, y: -a.y, z: -a.z, w: a.w }
}

pub open spec fn q_one() -> Q4 {
    Q4 { x: 0, y: 0, z: 0, w: 1 }
}

pub open spec fn q_norm_sq(a: Q4) -> int {
    a.w * a.w + a.x * a.x + a.y * a.y + a.z * a.z
}

/// A rotation proper is a quaternion of unit norm.
pub open spec fn q_is_unit(a: Q4) -> bool {
    q_norm_sq(a) == 1
}

/// Image of the point `p` under the rotation `q`: the vector part of
/// `q * (0, p) * conj(q)`, written out in components. For a unit quaternion
/// this is the rotated point; for any other quaternion it is that product,
/// which scales the point by the quaternion's squared norm.
pub open spec fn q_rotate(q: Q4, p: V3) -> V3 {
    let mx = q.w * p.x + q.y * p.z - q.z * p.y;
    let my = q.w * p.y - q.x * p.z + q.z * p.x;
    let mz = q.w * p.z + q.x * p.y - q.y * p.x;
    let mw = -(q.x * p.x) - q.y * p.y - q.z * p.z;
    V3 {
        x: mw * (-q.x) + mx * q.w + my * (-q.z) - mz * (-q.y),
        y: mw * (-q.y) - mx * (-q.z) + my * q.w + mz * (-q.x),
        z: mw * (-q.z) + mx * (-q.y) - my * (-q.x) + mz * q.w,
    }
}

pub proof fn lemma_mul_bounds(a: int, b: int, ma: int, mb: int)
    requires
        -ma <= a <= ma,
        -mb <= b <= mb,
        0 <= ma,
        0 <= mb,
    ensures
        -(ma * mb) <= a * b <= ma * mb,
{
    assert(-(ma * mb) <= a * b <= ma * mb) by (nonlinear_arith)
        requires
            -ma <= a <= ma,
            -mb <= b <= mb,
            0 <= ma,
            0 <= mb;
}

/// Componentwise bound on a quaternion product.
pub proof fn lemma_q_mul_range(a: Q4, b: Q4, ma: int, mb: int)
    requires
        q_in_range(a, ma),
        q_in_range(b, mb),
        0 <= ma,
        0 <= mb,
    ensures
        q_in_range(q_mul(a, b), 4 * ma * mb),
{
    let r = q_mul(a, b);
    assert(-(4 * ma * mb) <= r.x <= 4 * ma * mb) by (nonlinear_arith)
        requires
            r.x == a.w * b.x + a.x * b.w + a.y * b.z - a.z * b.y,
            q_in_range(a, ma),
            q_in_range(b, mb),
            0 <= ma,
            0 <= mb;
    assert(-(4 * ma * mb) <= r.y <= 4 * ma * mb) by (nonlinear_arith)
        requires
            r.y == a.w * b.y - a.x * b.z + a.y * b.w + a.z * b.x,
            q_in_range(a, ma),
            q_in_range(b, mb),
            0 <= ma,
            0 <= mb;
    assert(-(4 * ma * mb) <= r.z <= 4 * ma * mb) by (nonlinear_arith)
        requires
            r.z == a.w * b.z + a.x * b.y - a.y * b.x + a.z * b.w,
            q_in_range(a, ma),
            q_in_range(b, mb),
            0 <= ma,
            0 <= mb;
    assert(-(4 * ma * mb) <= r.w <= 4 * ma * mb) by (nonlinear_arith)
        requires
            r.w == a.w * b.w - a.x * b.x - a.y * b.y - a.z * b.z,
            q_in_range(a, ma),
            q_in_range(b, mb),
            0 <= ma,
            0 <= mb;
}

/// Multiplying by the identity quaternion on the left changes nothing.
pub proof fn lemma_q_mul_one_left(a: Q4)
    ensures
        q_mul(q_one(), a) == a,
{
    let e = q_one();
    let r = q_mul(e, a);
    assert(r.x == a.x) by (nonlinear_arith)
        requires
            r.x == e.w * a.x + e.x * a.w + e.y * a.z - e.z * a.y,
            e.w == 1 && e.x == 0 && e.y == 0 && e.z == 0;
    assert(r.y == a.y) by (nonlinear_arith)
        requires
            r.y == e.w * a.y - e.x * a.z + e.y * a.w + e.z * a.x,
            e.w == 1 && e.x == 0 && e.y == 0 && e.z == 0;
    assert(r.z == a.z) by (nonlinear_arith)
        requires
            r.z == e.w * a.z + e.x * a.y - e.y * a.x + e.z * a.w,
            e.w == 1 && e.x == 0 && e.y == 0 && e.z == 0;
    assert(r.w == a.w) by (nonlinear_arith)
        requires
            r.w == e.w * a.w - e.x * a.x - e.y * a.y - e.z * a.z,
            e.w == 1 && e.x == 0 && e.y == 0 && e.z == 0;
    assert(r =~= a);
}

/// A unit quaternion times its conjugate is the identity.
pub proof fn lemma_q_mul_conj_self(a: Q4)
    requires
        q_is_unit(a),
    ensures
        q_mul(a, q_conj(a)) == q_one(),
{
    let r = q_mul(a, q_conj(a));
    assert(r.x == 0) by (nonlinear_arith)
        requires
            r.x == a.w * (-a.x) + a.x * a.w + a.y * (-a.z) - a.z * (-a.y);
    assert(r.y == 0) by (nonlinear_arith)
        requires
            r.y == a.w * (-a.y) - a.x * (-a.z) + a.y * a.w + a.z * (-a.x);
    assert(r.z == 0) by (nonlinear_arith)
        requires
            r.z == a.w * (-a.z) + a.x * (-a.y) - a.y * (-a.x) + a.z * a.w;
    assert(r.w == 1) by (nonlinear_arith)
        requires
            r.w == a.w * a.w - a.x * (-a.x) - a.y * (-a.y) - a.z * (-a.z),
            a.w * a.w + a.x * a.x + a.y * a.y + a.z * a.z == 1;
    assert(r =~= q_one());
}

/// Left cancellation: for a unit quaternion `p`, `conj(p) * (p * c) == c`.
pub proof fn lemma_q_cancel_left(p: Q4, c: Q4)
    requires
        q_is_unit(p),
    ensures
        q_mul(q_conj(p), q_mul(p, c)) == c,
{
    let m = q_mul(p, c);
    let r = q_mul(q_conj(p), m);
    assert(r.x == c.x) by (nonlinear_arith)
        requires
            r.x == p.w * m.x + (-p.x) * m.w + (-p.y) * m.z - (-p.z) * m.y,
            m.x == p.w * c.x + p.x * c.w + p.y * c.z - p.z * c.y,
            m.y == p.w * c.y - p.x * c.z + p.y * c.w + p.z * c.x,
            m.z == p.w * c.z + p.x * c.y - p.y * c.x + p.z * c.w,
            m.w == p.w * c.w - p.x * c.x - p.y * c.y - p.z * c.z,
            p.w * p.w + p.x * p.x + p.y * p.y + p.z * p.z == 1;
    assert(r.y == c.y) by (nonlinear_arith)
        requires
            r.y == p.w * m.y - (-p.x) * m.z + (-p.y) * m.w + (-p.z) * m.x,
            m.x == p.w * c.x + p.x * c.w + p.y * c.z - p.z * c.y,
            m.y == p.w * c.y - p.x * c.z + p.y * c.w + p.z * c.x,
            m.z == p.w * c.z + p.x * c.y - p.y * c.x + p.z * c.w,
            m.w == p.w * c.w - p.x * c.x - p.y * c.y - p.z * c.z,
            p.w * p.w + p.x * p.x + p.y * p.y + p.z * p.z == 1;
    assert(r.z == c.z) by (nonlinear_arith)
        requires
            r.z == p.w * m.z + (-p.x) * m.y - (-p.y) * m.x + (-p.z) * m.w,
            m.x == p.w * c.x + p.x * c.w + p.y * c.z - p.z * c.y,
            m.y == p.w * c.y - p.x * c.z + p.y * c.w + p.z * c.x,
            m.z == p.w * c.z + p.x * c.y - p.y * c.x + p.z * c.w,
            m.w == p.w * c.w - p.x * c.x - p.y * c.y - p.z * c.z,
            p.w * p.w + p.x * p.x + p.y * p.y + p.z * p.z == 1;
    assert(r.w == c.w) by (nonlinear_arith)
        requires
            r.w == p.w * m.w - (-p.x) * m.x - (-p.y) * m.y - (-p.z) * m.z,
            m.x == p.w * c.x + p.x * c.w + p.y * c.z - p.z * c.y,
            m.y == p.w * c.y - p.x * c.z + p.y * c.w + p.z * c.x,
            m.z == p.w * c.z + p.x * c.y - p.y * c.x + p.z * c.w,
            m.w == p.w * c.w - p.x * c.x - p.y * c.y - p.z * c.z,
            p.w * p.w + p.x * p.x + p.y * p.y + p.z * p.z == 1;
    assert(r =~= c);
}

/// Right cancellation: for a unit quaternion `c`, `(p * c) * conj(c) == p`.
pub proof fn lemma_q_cancel_right(p: Q4, c: Q4)
    requires
        q_is_unit(c),
    ensures
        q_mul(q_mul(p, c), q_conj(c)) == p,
{
    let m = q_mul(p, c);
    let r = q_mul(m, q_conj(c));
    assert(r.x == p.x) by (nonlinear_arith)
        requires
            r.x == m.w * (-c.x) + m.x * c.w + m.y * (-c.z) - m.z * (-c.y),
            m.x == p.w * c.x + p.x * c.w + p.y * c.z - p.z * c.y,
            m.y == p.w * c.y - p.x * c.z + p.y * c.w + p.z * c.x,
            m.z == p.w * c.z + p.x * c.y - p.y * c.x + p.z * c.w,
            m.w == p.w * c.w - p.x * c.x - p.y * c.y - p.z * c.z,
            c.w * c.w + c.x * c.x + c.y * c.y + c.z * c.z == 1;
    assert(r.y == p.y) by (nonlinear_arith)
        requires
            r.y == m.w * (-c.y) - m.x * (-c.z) + m.y * c.w + m.z * (-c.x),
            m.x == p.w * c.x + p.x * c.w + p.y * c.z - p.z * c.y,
            m.y == p.w * c.y - p.x * c.z + p.y * c.w + p.z * c.x,
            m.z == p.w * c.z + p.x * c.y - p.y * c.x + p.z * c.w,
            m.w == p.w * c.w - p.x * c.x - p.y * c.y - p.z * c.z,
            c.w * c.w + c.x * c.x + c.y * c.y + c.z * c.z == 1;
    assert(r.z == p.z) by (nonlinear_arith)
        requires
            r.z == m.w * (-c.z) + m.x * (-c.y) - m.y * (-c.x) + m.z * c.w,
            m.x == p.w * c.x + p.x * c.w + p.y * c.z - p.z * c.y,
            m.y == p.w * c.y - p.x * c.z + p.y * c.w + p.z * c.x,
            m.z == p.w * c.z + p.x * c.y - p.y * c.x + p.z * c.w,
            m.w == p.w * c.w - p.x * c.x - p.y * c.y - p.z * c.z,
            c.w * c.w + c.x * c.x + c.y * c.y + c.z * c.z == 1;
    assert(r.w == p.w) by (nonlinear_arith)
        requires
            r.w == m.w * c.w - m.x * (-c.x) - m.y * (-c.y) - m.z * (-c.z),
            m.x == p.w * c.x + p.x * c.w + p.y * c.z - p.z * c.y,
            m.y == p.w * c.y - p.x * c.z + p.y * c.w + p.z * c.x,
            m.z == p.w * c.z + p.x * c.y - p.y * c.x + p.z * c.w,
            m.w == p.w * c.w - p.x * c.x - p.y * c.y - p.z * c.z,
            c.w * c.w + c.x * c.x + c.y * c.y + c.z * c.z == 1;
    assert(r =~= p);
}

/// Componentwise vector addition.
pub fn vec3_add(a: Vec3, b: Vec3) -> (r: Vec3)
    requires
        v_in_range(a@, VOP_BOUND as int),
        v_in_range(b@, VOP_BOUND as int),
    ensures
        r@ == v_add(a@, b@),
{
    Vec3 { x: a.x + b.x, y: a.y + b.y, z: a.z + b.z }
}

/// Componentwise vector subtraction.
pub fn vec3_sub(a: Vec3, b: Vec3) -> (r: Vec3)
    requires
        v_in_range(a@, VOP_BOUND as int),
        v_in_range(b@, VOP_BOUND as int),
    ensures
        r@ == v_sub(a@, b@),
{
    Vec3 { x: a.x - b.x, y: a.y - b.y, z: a.z - b.z }
}

/// Quaternion conjugate.
pub fn quat_conj(a: Quat) -> (r: Quat)
    requires
        q_in_range(a@, VOP_BOUND as int),
    ensures
        r@ == q_conj(a@),
{
    Quat { x: -a.x, y: -a.y, z: -a.z, w: a.w }
}

/// Hamilton product of two quaternions.
pub fn quat_mul(a: Quat, b: Quat) -> (r: Quat)
    requires
        q_in_range(a@, QM_BOUND as int),
        q_in_range(b@, QM_BOUND as int),
    ensures
        r@ == q_mul(a@, b@),
{
    proof {
        let m: int = QM_BOUND as int;
        lemma_mul_bounds(a.w as int, b.x as int, m, m);
        lemma_mul_bounds(a.x as int, b.w as int, m, m);
        lemma_mul_bounds(a.y as int, b.z as int, m, m);
        lemma_mul_bounds(a.z as int, b.y as int, m, m);
        lemma_mul_bounds(a.w as int, b.y as int, m, m);
        lemma_mul_bounds(a.x as int, b.z as int, m, m);
        lemma_mul_bounds(a.y as int, b.w as int, m, m);
        lemma_mul_bounds(a.z as int, b.x as int, m, m);
        lemma_mul_bounds(a.w as int, b.z as int, m, m);
        lemma_mul_bounds(a.x as int, b.y as int, m, m);
        lemma_mul_bounds(a.y as int, b.x as int, m, m);
        lemma_mul_bounds(a.z as int, b.w as int, m, m);
        lemma_mul_bounds(a.w as int, b.w as int, m, m);
        lemma_mul_bounds(a.x as int, b.x as int, m, m);
        lemma_mul_bounds(a.y as int, b.y as int, m, m);
        lemma_mul_bounds(a.z as int, b.z as int, m, m);
    }
    Quat {
        x: a.w * b.x + a.x * b.w + a.y * b.z - a.z * b.y,
        y: a.w * b.y - a.x * b.z + a.y * b.w + a.z * b.x,
        z: a.w * b.z + a.x * b.y - a.y * b.x + a.z * b.w,
        w: a.w * b.w - a.x * b.x - a.y * b.y - a.z * b.z,
    }
}

/// Image of the point `p` under the rotation `q`.
pub fn rotate_point(q: Quat, p: Vec3) -> (r: Vec3)
    requires
        q_in_range(q@, RQ_BOUND as int),
        v_in_range(p@, LP_BOUND as int),
    ensures
        r@ == q_rotate(q@, p@),
        v_in_range(r@, VOP_BOUND as int),
{
    let ghost qb: int = RQ_BOUND as int;
    let ghost pb: int = LP_BOUND as int;
    proof {
        lemma_mul_bounds(q.w as int, p.x as int, qb, pb);
        lemma_mul_bounds(q.x as int, p.x as int, qb, pb);
        lemma_mul_bounds(q.y as int, p.x as int, qb, pb);
        lemma_mul_bounds(q.z as int, p.x as int, qb, pb);
        lemma_mul_bounds(q.w as int, p.y as int, qb, pb);
        lemma_mul_bounds(q.x as int, p.y as int, qb, pb);
        lemma_mul_bounds(q.y as int, p.y as int, qb, pb);
        lemma_mul_bounds(q.z as int, p.y as int, qb, pb);
        lemma_mul_bounds(q.w as int, p.z as int, qb, pb);
        lemma_mul_bounds(q.x as int, p.z as int, qb, pb);
        lemma_mul_bounds(q.y as int, p.z as int, qb, pb);
        lemma_mul_bounds(q.z as int, p.z as int, qb, pb);
    }
    // m == q * (0, p); each component is within 4 * RQ_BOUND * LP_BOUND.
    let mx: i64 = q.w * p.x + q.y * p.z - q.z * p.y;
    let my: i64 = q.w * p.y - q.x * p.z + q.z * p.x;
    let mz: i64 = q.w * p.z + q.x * p.y - q.y * p.x;
    let mw: i64 = -(q.x * p.x) - q.y * p.y - q.z * p.z;
    let nqx: i64 = -q.x;
    let nqy: i64 = -q.y;
    let nqz: i64 = -q.z;
    let ghost mb: int = 4 * qb * pb;
    proof {
        lemma_mul_bounds(mw as int, nqx as int, mb, qb);
        lemma_mul_bounds(mw as int, nqy as int, mb, qb);
        lemma_mul_bounds(mw as int, nqz as int, mb, qb);
        lemma_mul_bounds(mx as int, q.w as int, mb, qb);
        lemma_mul_bounds(mx as int, nqy as int, mb, qb);
        lemma_mul_bounds(mx as int, nqz as int, mb, qb);
        lemma_mul_bounds(my as int, q.w as int, mb, qb);
        lemma_mul_bounds(my as int, nqx as int, mb, qb);
        lemma_mul_bounds(my as int, nqz as int, mb, qb);
        lemma_mul_bounds(mz as int, q.w as int, mb, qb);
        lemma_mul_bounds(mz as int, nqx as int, mb, qb);
        lemma_mul_bounds(mz as int, nqy as int, mb, qb);
    }
    let rx: i64 = mw * nqx + mx * q.w + my * nqz - mz * nqy;
    let ry: i64 = mw * nqy - mx * nqz + my * q.w + mz * nqx;
    let rz: i64 = mw * nqz + mx * nqy - my * nqx + mz * q.w;
    let r = Vec3 { x: rx, y: ry, z: rz };
    proof {
        assert(r@ =~= q_rotate(q@, p@));
    }
    r
}

} // verus!
