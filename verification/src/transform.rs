//! Per-frame transform inputs: camera, projection parameters and the
//! time-driven rotation.
//!
//! The renderer recomputes its uniform data every frame from the elapsed
//! wall-clock time and the current surface size — never by accumulating
//! increments, which would drift. This module computes those inputs as exact
//! fixed-point values and proves the algebraic facts behind them: the
//! perspective shape is invertible and maps the near and far planes to the
//! ends of the clip-space depth range, and at elapsed time zero the world
//! matrix is exactly the static model translation.
//!
//! The driver turns these values into floating-point matrices (a look-at
//! matrix from the camera, a perspective matrix from the projection
//! parameters, axis rotations from the angles) by dividing the fixed-point
//! values by `MILLI`.

use crate::frame::Extent;
use crate::mat::{
    fixed_product_entry, lemma_identity_is_right_unit, translation_entry, Mat4, Vec3,
};
use vstd::prelude::*;

verus! {

/// Rotation of the model about the three axes, in thousandths of a degree.
/// The model spins at fixed angular rates: 50, 30 and 20 degrees per second
/// about the z, y and x axis.
#[derive(Clone, Copy, Debug, PartialEq, Eq, Structural)]
pub struct RotationAngles {
    pub z_millideg: u64,
    pub y_millideg: u64,
    pub x_millideg: u64,
}

/// Rotation about the z axis after `elapsed_ms` milliseconds: 50 degrees per
/// second is 50 millidegrees per millisecond.
pub open spec fn spec_rotation_z(elapsed_ms: u64) -> int {
    50 * elapsed_ms
}

/// Rotation about the y axis after `elapsed_ms` milliseconds.
pub open spec fn spec_rotation_y(elapsed_ms: u64) -> int {
    30 * elapsed_ms
}

/// Rotation about the x axis after `elapsed_ms` milliseconds.
pub open spec fn spec_rotation_x(elapsed_ms: u64) -> int {
    20 * elapsed_ms
}

/// Computes the rotation angles for the elapsed wall-clock time, fresh from
/// the total time rather than by accumulation.
pub fn rotation_angles(elapsed_ms: u64) -> (a: RotationAngles)
    requires
        elapsed_ms <= u64::MAX / 50,
    ensures
        a.z_millideg == spec_rotation_z(elapsed_ms),
        a.y_millideg == spec_rotation_y(elapsed_ms),
        a.x_millideg == spec_rotation_x(elapsed_ms),
{
    RotationAngles {
        z_millideg: 50 * elapsed_ms,
        y_millideg: 30 * elapsed_ms,
        x_millideg: 20 * elapsed_ms,
    }
}

/// The fixed camera: an eye just in front of the origin looking at it, with
/// the up vector inverted to match the surface's clip-space y convention.
#[derive(Clone, Copy, Debug, PartialEq, Eq, Structural)]
pub struct CameraParams {
    pub eye: Vec3,
    pub target: Vec3,
    pub up: Vec3,
}

/// The camera the scene always uses: eye (0, 0, 0.01), target the origin,
/// up (0, -1, 0), in fixed point.
pub open spec fn spec_camera() -> CameraParams {
    CameraParams {
        eye: (Vec3 { x: 0, y: 0, z: 10 }),
        target: (Vec3 { x: 0, y: 0, z: 0 }),
        up: (Vec3 { x: 0, y: -1000i64, z: 0 }),
    }
}

/// Returns the scene's fixed camera.
pub fn camera_params() -> (c: CameraParams)
    ensures
        c == spec_camera(),
{
    CameraParams {
        eye: Vec3 { x: 0, y: 0, z: 10 },
        target: Vec3 { x: 0, y: 0, z: 0 },
        up: Vec3 { x: 0, y: -1000, z: 0 },
    }
}

/// Everything the perspective matrix is built from: the aspect ratio as the
/// exact quotient of the surface sides, the field-of-view constant, and the
/// near and far plane distances, in fixed point.
#[derive(Clone, Copy, Debug, PartialEq, Eq, Structural)]
pub struct ProjectionParams {
    /// Numerator of the aspect ratio: the surface width in pixels.
    pub aspect_width: u32,
    /// Denominator of the aspect ratio: the surface height in pixels.
    pub aspect_height: u32,
    /// The field-of-view constant handed to the perspective builder.
    pub fovy_milli: u64,
    /// Distance of the near plane: 0.01 in fixed point.
    pub near_milli: u64,
    /// Distance of the far plane: 100 in fixed point.
    pub far_milli: u64,
}

/// The projection parameters for a surface of the given extent.
pub open spec fn spec_projection(extent: Extent) -> ProjectionParams {
    ProjectionParams {
        aspect_width: extent.width,
        aspect_height: extent.height,
        fovy_milli: 180000,
        near_milli: 10,
        far_milli: 100000,
    }
}

/// Builds the projection parameters for the current surface size. The aspect
/// ratio is the exact quotient width / height, so the extent must be valid.
pub fn projection_params(extent: Extent) -> (p: ProjectionParams)
    requires
        extent.is_valid(),
    ensures
        p == spec_projection(extent),
        p.near_milli < p.far_milli,
        p.aspect_height > 0,
{
    ProjectionParams {
        aspect_width: extent.width,
        aspect_height: extent.height,
        fovy_milli: 180000,
        near_milli: 10,
        far_milli: 100000,
    }
}

/// The model's static translation, pushing the cube away from the camera:
/// (0, 0, -2.5) in fixed point.
pub fn scene_model_matrix() -> (m: Mat4)
    ensures
        m.wf(),
        m.is_translation(0, 0, -2500i64),
{
    Mat4::translation(0, 0, -2500)
}

/// All uniform inputs of one frame, computed from the elapsed time and the
/// current surface size alone.
#[derive(Clone, Copy, Debug, PartialEq, Eq, Structural)]
pub struct FrameInputs {
    pub camera: CameraParams,
    pub projection: ProjectionParams,
    pub angles: RotationAngles,
    /// Offset of the model's static translation.
    pub model_offset: Vec3,
}

/// Computes the uniform inputs of one frame: the fixed camera, the
/// projection for the current aspect ratio, the rotation for the elapsed
/// time, and the static model offset.
pub fn frame_inputs(extent: Extent, elapsed_ms: u64) -> (f: FrameInputs)
    requires
        extent.is_valid(),
        elapsed_ms <= u64::MAX / 50,
    ensures
        f.camera == spec_camera(),
        f.projection == spec_projection(extent),
        f.angles.z_millideg == spec_rotation_z(elapsed_ms),
        f.angles.y_millideg == spec_rotation_y(elapsed_ms),
        f.angles.x_millideg == spec_rotation_x(elapsed_ms),
        f.model_offset == (Vec3 { x: 0, y: 0, z: -2500i64 }),
{
    FrameInputs {
        camera: camera_params(),
        projection: projection_params(extent),
        angles: rotation_angles(elapsed_ms),
        model_offset: Vec3 { x: 0, y: 0, z: -2500 },
    }
}

/// At elapsed time zero no rotation has happened: all three angles are zero,
/// the rotation matrix is the identity, and composing the static translation
/// with the identity leaves every entry of the translation unchanged — the
/// world matrix at time zero is exactly the static translation.
pub proof fn lemma_world_at_time_zero(translation: Mat4, rotation: Mat4, offset: Vec3)
    requires
        translation.wf(),
        translation.is_translation(offset.x, offset.y, offset.z),
        rotation.wf(),
        rotation.is_identity(),
    ensures
        spec_rotation_z(0) == 0,
        spec_rotation_y(0) == 0,
        spec_rotation_x(0) == 0,
        forall|r: int, c: int|
            0 <= r < 4 && 0 <= c < 4 ==> #[trigger] fixed_product_entry(translation, rotation, r, c)
                == translation_entry(offset.x, offset.y, offset.z, r, c),
{
    lemma_identity_is_right_unit(translation, rotation);
}

/// Entry (row `r`, column `c`) of the perspective matrix shape: `sx` and
/// `sy` scale x and y, `zz` and `zw` form the depth row, and the last row
/// holds -1 so that the clip w coordinate becomes the negated view depth.
/// Every other entry is zero.
pub open spec fn perspective_entry(sx: int, sy: int, zz: int, zw: int, r: int, c: int) -> int {
    if r == 0 && c == 0 {
        sx
    } else if r == 1 && c == 1 {
        sy
    } else if r == 2 && c == 2 {
        zz
    } else if r == 2 && c == 3 {
        zw
    } else if r == 3 && c == 2 {
        -1
    } else {
        0
    }
}

/// Entry of the adjugate of the perspective shape: multiplying the
/// perspective matrix by this matrix yields its determinant times the unit
/// matrix.
pub open spec fn perspective_adjugate_entry(
    sx: int,
    sy: int,
    zz: int,
    zw: int,
    r: int,
    c: int,
) -> int {
    if r == 0 && c == 0 {
        sy * zw
    } else if r == 1 && c == 1 {
        sx * zw
    } else if r == 2 && c == 3 {
        -(sx * sy * zw)
    } else if r == 3 && c == 2 {
        sx * sy
    } else if r == 3 && c == 3 {
        sx * sy * zz
    } else {
        0
    }
}

/// Determinant of the perspective shape.
pub open spec fn perspective_determinant(sx: int, sy: int, zw: int) -> int {
    sx * sy * zw
}

/// Entry of the unit matrix.
pub open spec fn unit_entry(r: int, c: int) -> int {
    if r == c {
        1
    } else {
        0
    }
}

/// Entry of the product of the perspective shape with its adjugate.
pub open spec fn perspective_times_adjugate_entry(
    sx: int,
    sy: int,
    zz: int,
    zw: int,
    r: int,
    c: int,
) -> int {
    perspective_entry(sx, sy, zz, zw, r, 0) * perspective_adjugate_entry(sx, sy, zz, zw, 0, c)
        + perspective_entry(sx, sy, zz, zw, r, 1) * perspective_adjugate_entry(sx, sy, zz, zw, 1, c)
        + perspective_entry(sx, sy, zz, zw, r, 2) * perspective_adjugate_entry(sx, sy, zz, zw, 2, c)
        + perspective_entry(sx, sy, zz, zw, r, 3) * perspective_adjugate_entry(sx, sy, zz, zw, 3, c)
}

/// The perspective matrix is invertible for every aspect ratio a > 0 and
/// every nonzero focal scale: its determinant is nonzero, and multiplying it
/// by its adjugate gives the determinant times the unit matrix, which
/// exhibits the inverse as the adjugate divided by the determinant.
///
/// The entries of the real perspective matrix are sx = 1 / (a · t),
/// sy = 1 / t and zw = -2 · far · near / (far - near), with t the tangent of
/// half the field of view; all three are nonzero whenever a > 0, t != 0 and
/// 0 < near < far. The product identity below is a polynomial identity,
/// verified here over the integers; it therefore holds over any commutative
/// ring, in particular over the exact rational entries themselves.
pub proof fn lemma_perspective_invertible(sx: int, sy: int, zz: int, zw: int)
    requires
        sx != 0,
        sy != 0,
        zw != 0,
    ensures
        perspective_determinant(sx, sy, zw) != 0,
        forall|r: int, c: int|
            0 <= r < 4 && 0 <= c < 4 ==> #[trigger] perspective_times_adjugate_entry(
                sx,
                sy,
                zz,
                zw,
                r,
                c,
            ) == perspective_determinant(sx, sy, zw) * unit_entry(r, c),
{
    let det = perspective_determinant(sx, sy, zw);
    assert(det != 0) by (nonlinear_arith)
        requires
            sx != 0,
            sy != 0,
            zw != 0,
            det == sx * sy * zw,
    ;
    assert forall|r: int, c: int| 0 <= r < 4 && 0 <= c < 4 implies #[trigger] perspective_times_adjugate_entry(
        sx,
        sy,
        zz,
        zw,
        r,
        c,
    ) == det * unit_entry(r, c) by {
        let p0 = perspective_entry(sx, sy, zz, zw, r, 0);
        let p1 = perspective_entry(sx, sy, zz, zw, r, 1);
        let p2 = perspective_entry(sx, sy, zz, zw, r, 2);
        let p3 = perspective_entry(sx, sy, zz, zw, r, 3);
        let q0 = perspective_adjugate_entry(sx, sy, zz, zw, 0, c);
        let q1 = perspective_adjugate_entry(sx, sy, zz, zw, 1, c);
        let q2 = perspective_adjugate_entry(sx, sy, zz, zw, 2, c);
        let q3 = perspective_adjugate_entry(sx, sy, zz, zw, 3, c);
        let u = unit_entry(r, c);
        assert(p0 * q0 + p1 * q1 + p2 * q2 + p3 * q3 == det * u) by (nonlinear_arith)
            requires
                0 <= r < 4,
                0 <= c < 4,
                p0 == (if r == 0 { sx } else { 0 }),
                p1 == (if r == 1 { sy } else { 0 }),
                p2 == (if r == 2 { zz } else if r == 3 { -1int } else { 0 }),
                p3 == (if r == 2 { zw } else { 0 }),
                q0 == (if c == 0 { sy * zw } else { 0 }),
                q1 == (if c == 1 { sx * zw } else { 0 }),
                q2 == (if c == 3 { -(sx * sy * zw) } else { 0 }),
                q3 == (if c == 2 { sx * sy } else if c == 3 { sx * sy * zz } else { 0 }),
                u == (if r == c { 1int } else { 0 }),
                det == sx * sy * zw,
        ;
    }
}

/// Clip-space depth of a view-space point at depth `z`, scaled by the
/// positive factor (far - near): the depth row of the perspective matrix
/// applied to (0, 0, z, 1) has numerator -(far + near) · z - 2 · far · near
/// over the denominator far - near.
pub open spec fn clip_depth_scaled(near: int, far: int, z: int) -> int {
    -(far + near) * z - 2 * far * near
}

/// Clip-space w coordinate of a view-space point at depth `z`: the negated
/// depth.
pub open spec fn clip_w(z: int) -> int {
    -z
}

/// The perspective projection maps the near and far planes to the ends of
/// the clip-space depth range: a point on the near plane (view depth -near)
/// has normalized depth exactly -1, and a point on the far plane exactly +1.
/// Both equalities are stated with the denominators cleared: the normalized
/// depth is clip_depth_scaled divided by (far - near) · clip_w, and both
/// factors of that denominator are positive in front of the camera.
pub proof fn lemma_projection_depth_range(near: int, far: int)
    requires
        0 < near < far,
    ensures
        clip_w(-near) > 0,
        clip_w(-far) > 0,
        far - near > 0,
        clip_depth_scaled(near, far, -near) == -1 * (clip_w(-near) * (far - near)),
        clip_depth_scaled(near, far, -far) == 1 * (clip_w(-far) * (far - near)),
{
    assert(-(far + near) * (-near) - 2 * far * near == -1 * (near * (far - near)))
        by (nonlinear_arith);
    assert(-(far + near) * (-far) - 2 * far * near == 1 * (far * (far - near))) by (nonlinear_arith);
}

} // verus!
