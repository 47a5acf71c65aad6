//! Transform math over exact fixed-point scalars.
//!
//! A [`Transform`] holds position, rotation (a quaternion) and scale, each
//! component an `i64` count of units of `1 / FX_ONE`. Its matrix is the
//! standard TRS composition `Translate * Rotate * Scale` (scale applied
//! first to a model-space column vector, then rotation, then translation).
//! Because the inputs are rationals with denominator `FX_ONE`, the matrix
//! entries are exact rationals with denominator `FX_ONE^3`; they are
//! returned at that cubed scale, so no rounding happens anywhere.

use vstd::prelude::*;

use crate::fixed::{FX_ONE, FX_ONE_CUBED, FX_POSITION_MAX, FX_QUAT_MAX, FX_SCALE_MAX};

verus! {

/// A 3-component vector of fixed-point scalars (units of `1 / FX_ONE`).
#[derive(Clone, Copy, Debug, PartialEq, Eq, Structural)]
pub struct Vec3 {
    pub x: i64,
    pub y: i64,
    pub z: i64,
}

/// A quaternion of fixed-point scalars (units of `1 / FX_ONE`).
#[derive(Clone, Copy, Debug, PartialEq, Eq, Structural)]
pub struct Quat {
    pub x: i64,
    pub y: i64,
    pub z: i64,
    pub w: i64,
}

/// One column of a 4x4 matrix, entries in units of `1 / FX_ONE^3`.
#[derive(Clone, Copy, Debug, PartialEq, Eq, Structural)]
pub struct Vec4 {
    pub x: i64,
    pub y: i64,
    pub z: i64,
    pub w: i64,
}

/// A 4x4 matrix stored as four columns, entries in units of `1 / FX_ONE^3`.
#[derive(Clone, Copy, Debug, PartialEq, Eq, Structural)]
pub struct Mat4 {
    pub x_axis: Vec4,
    pub y_axis: Vec4,
    pub z_axis: Vec4,
    pub w_axis: Vec4,
}

/// Represents a 3D transformation.
#[derive(Clone, Copy, Debug, PartialEq, Eq, Structural)]
pub struct Transform {
    pub position: Vec3,
    pub rotation: Quat,
    pub scale: Vec3,
}

/// The identity transform: zero position, identity rotation, unit scale.
pub open spec fn spec_identity() -> Transform {
    Transform {
        position: Vec3 { x: 0, y: 0, z: 0 },
        rotation: Quat { x: 0, y: 0, z: 0, w: FX_ONE },
        scale: Vec3 { x: FX_ONE, y: FX_ONE, z: FX_ONE },
    }
}

/// All components of a transform are small enough that every product in
/// its matrix stays inside `i64`.
pub open spec fn components_bounded(t: Transform) -> bool {
    &&& -FX_POSITION_MAX <= t.position.x <= FX_POSITION_MAX
    &&& -FX_POSITION_MAX <= t.position.y <= FX_POSITION_MAX
    &&& -FX_POSITION_MAX <= t.position.z <= FX_POSITION_MAX
    &&& -FX_QUAT_MAX <= t.rotation.x <= FX_QUAT_MAX
    &&& -FX_QUAT_MAX <= t.rotation.y <= FX_QUAT_MAX
    &&& -FX_QUAT_MAX <= t.rotation.z <= FX_QUAT_MAX
    &&& -FX_QUAT_MAX <= t.rotation.w <= FX_QUAT_MAX
    &&& -FX_SCALE_MAX <= t.scale.x <= FX_SCALE_MAX
    &&& -FX_SCALE_MAX <= t.scale.y <= FX_SCALE_MAX
    &&& -FX_SCALE_MAX <= t.scale.z <= FX_SCALE_MAX
}

/// Entry (row r, column c) of the rotation matrix of quaternion `q`, at
/// scale `FX_ONE^2`: the standard unit-quaternion rotation matrix
/// `1 - 2(y^2+z^2)` etc., with 1 represented as `FX_ONE * FX_ONE`.
pub open spec fn rot_rc(q: Quat, r: int, c: int) -> int {
    if c == 0 {
        if r == 0 {
            FX_ONE * FX_ONE - 2 * (q.y * q.y + q.z * q.z)
        } else if r == 1 {
            2 * (q.x * q.y + q.w * q.z)
        } else {
            2 * (q.x * q.z - q.w * q.y)
        }
    } else if c == 1 {
        if r == 0 {
            2 * (q.x * q.y - q.w * q.z)
        } else if r == 1 {
            FX_ONE * FX_ONE - 2 * (q.x * q.x + q.z * q.z)
        } else {
            2 * (q.y * q.z + q.w * q.x)
        }
    } else {
        if r == 0 {
            2 * (q.x * q.z + q.w * q.y)
        } else if r == 1 {
            2 * (q.y * q.z - q.w * q.x)
        } else {
            FX_ONE * FX_ONE - 2 * (q.x * q.x + q.y * q.y)
        }
    }
}

/// `m` is exactly the TRS matrix of `t`, at scale `FX_ONE^3`:
/// the first three columns are the rotation columns scaled component-wise
/// by `scale`, the fourth column is the translation.
pub open spec fn is_trs_matrix(m: Mat4, t: Transform) -> bool {
    &&& m.x_axis.x == t.scale.x * rot_rc(t.rotation, 0, 0)
    &&& m.x_axis.y == t.scale.x * rot_rc(t.rotation, 1, 0)
    &&& m.x_axis.z == t.scale.x * rot_rc(t.rotation, 2, 0)
    &&& m.x_axis.w == 0
    &&& m.y_axis.x == t.scale.y * rot_rc(t.rotation, 0, 1)
    &&& m.y_axis.y == t.scale.y * rot_rc(t.rotation, 1, 1)
    &&& m.y_axis.z == t.scale.y * rot_rc(t.rotation, 2, 1)
    &&& m.y_axis.w == 0
    &&& m.z_axis.x == t.scale.z * rot_rc(t.rotation, 0, 2)
    &&& m.z_axis.y == t.scale.z * rot_rc(t.rotation, 1, 2)
    &&& m.z_axis.z == t.scale.z * rot_rc(t.rotation, 2, 2)
    &&& m.z_axis.w == 0
    &&& m.w_axis.x == t.position.x * (FX_ONE * FX_ONE)
    &&& m.w_axis.y == t.position.y * (FX_ONE * FX_ONE)
    &&& m.w_axis.z == t.position.z * (FX_ONE * FX_ONE)
    &&& m.w_axis.w == FX_ONE_CUBED
}

/// `m` is the identity matrix: ones (at the matrix scale) on the diagonal,
/// zeros everywhere else.
pub open spec fn is_identity_matrix(m: Mat4) -> bool {
    &&& m.x_axis == (Vec4 { x: FX_ONE_CUBED, y: 0, z: 0, w: 0 })
    &&& m.y_axis == (Vec4 { x: 0, y: FX_ONE_CUBED, z: 0, w: 0 })
    &&& m.z_axis == (Vec4 { x: 0, y: 0, z: FX_ONE_CUBED, w: 0 })
    &&& m.w_axis == (Vec4 { x: 0, y: 0, z: 0, w: FX_ONE_CUBED })
}

/// A product of two values bounded by `a` and `b` is bounded by `a * b`.
proof fn lemma_mul_bound(x: int, y: int, a: int, b: int)
    requires
        -a <= x <= a,
        -b <= y <= b,
        0 <= a,
        0 <= b,
    ensures
        -(a * b) <= x * y <= a * b,
{
    assert(-(a * b) <= x * y <= a * b) by (nonlinear_arith)
        requires
            -a <= x <= a,
            -b <= y <= b,
            0 <= a,
            0 <= b,
    ;
}

impl Transform {
    /// Create a new transform from explicit components; the rotation is
    /// taken verbatim and is not normalized.
    pub fn new(position: Vec3, rotation: Quat, scale: Vec3) -> (t: Transform)
        ensures
            t == (Transform { position, rotation, scale }),
    {
        Transform { position, rotation, scale }
    }

    /// Create an identity transform.
    pub fn identity() -> (t: Transform)
        ensures
            t == spec_identity(),
    {
        Transform {
            position: Vec3 { x: 0, y: 0, z: 0 },
            rotation: Quat { x: 0, y: 0, z: 0, w: FX_ONE },
            scale: Vec3 { x: FX_ONE, y: FX_ONE, z: FX_ONE },
        }
    }

    /// Generate the transformation matrix, exactly
    /// `Translate(position) * Rotate(rotation) * Scale(scale)`.
    pub fn matrix(&self) -> (m: Mat4)
        requires
            components_bounded(*self),
        ensures
            is_trs_matrix(m, *self),
    {
        let q = self.rotation;
        proof {
            let qb: int = FX_QUAT_MAX as int;
            lemma_mul_bound(q.x as int, q.x as int, qb, qb);
            lemma_mul_bound(q.x as int, q.y as int, qb, qb);
            lemma_mul_bound(q.x as int, q.z as int, qb, qb);
            lemma_mul_bound(q.w as int, q.x as int, qb, qb);
            lemma_mul_bound(q.y as int, q.y as int, qb, qb);
            lemma_mul_bound(q.y as int, q.z as int, qb, qb);
            lemma_mul_bound(q.w as int, q.y as int, qb, qb);
            lemma_mul_bound(q.z as int, q.z as int, qb, qb);
            lemma_mul_bound(q.w as int, q.z as int, qb, qb);
        }
        // Rotation matrix entries at scale FX_ONE^2.
        let r00: i64 = FX_ONE * FX_ONE - 2 * (q.y * q.y + q.z * q.z);
        let r10: i64 = 2 * (q.x * q.y + q.w * q.z);
        let r20: i64 = 2 * (q.x * q.z - q.w * q.y);
        let r01: i64 = 2 * (q.x * q.y - q.w * q.z);
        let r11: i64 = FX_ONE * FX_ONE - 2 * (q.x * q.x + q.z * q.z);
        let r21: i64 = 2 * (q.y * q.z + q.w * q.x);
        let r02: i64 = 2 * (q.x * q.z + q.w * q.y);
        let r12: i64 = 2 * (q.y * q.z - q.w * q.x);
        let r22: i64 = FX_ONE * FX_ONE - 2 * (q.x * q.x + q.y * q.y);
        proof {
            // Each rotation entry is at most 1 + 4 * 1.5^2 = 10 in real
            // terms, i.e. 10 * FX_ONE^2 in units.
            let rb: int = 3_600_000_000_000;
            let sb: int = FX_SCALE_MAX as int;
            let s2: int = (FX_ONE * FX_ONE) as int;
            lemma_mul_bound(self.scale.x as int, r00 as int, sb, rb);
            lemma_mul_bound(self.scale.x as int, r10 as int, sb, rb);
            lemma_mul_bound(self.scale.x as int, r20 as int, sb, rb);
            lemma_mul_bound(self.scale.y as int, r01 as int, sb, rb);
            lemma_mul_bound(self.scale.y as int, r11 as int, sb, rb);
            lemma_mul_bound(self.scale.y as int, r21 as int, sb, rb);
            lemma_mul_bound(self.scale.z as int, r02 as int, sb, rb);
            lemma_mul_bound(self.scale.z as int, r12 as int, sb, rb);
            lemma_mul_bound(self.scale.z as int, r22 as int, sb, rb);
            lemma_mul_bound(self.position.x as int, s2, FX_POSITION_MAX as int, s2);
            lemma_mul_bound(self.position.y as int, s2, FX_POSITION_MAX as int, s2);
            lemma_mul_bound(self.position.z as int, s2, FX_POSITION_MAX as int, s2);
        }
        Mat4 {
            x_axis: Vec4 {
                x: self.scale.x * r00,
                y: self.scale.x * r10,
                z: self.scale.x * r20,
                w: 0,
            },
            y_axis: Vec4 {
                x: self.scale.y * r01,
                y: self.scale.y * r11,
                z: self.scale.y * r21,
                w: 0,
            },
            z_axis: Vec4 {
                x: self.scale.z * r02,
                y: self.scale.z * r12,
                z: self.scale.z * r22,
                w: 0,
            },
            w_axis: Vec4 {
                x: self.position.x * (FX_ONE * FX_ONE),
                y: self.position.y * (FX_ONE * FX_ONE),
                z: self.position.z * (FX_ONE * FX_ONE),
                w: FX_ONE_CUBED,
            },
        }
    }
}

/// The matrix of the identity transform is the identity matrix.
pub proof fn lemma_identity_matrix(m: Mat4)
    requires
        is_trs_matrix(m, spec_identity()),
    ensures
        is_identity_matrix(m),
{
}

} // verus!
