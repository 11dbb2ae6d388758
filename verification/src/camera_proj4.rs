//! The four-dimensional camera: position, orthonormal basis, view and
//! projection state, input-driven motion, and the packed per-frame uniform
//! payload.

use vstd::prelude::*;
use std::collections::HashMap;
use crate::math4::{
    Vec4, vec4_bounded, lemma_mul_bound, dot4, div_toward_zero, lemma_signed_axis_is_unit,
};
use crate::mat4::{Mat4, mat4_bounded, mul4_spec};
use crate::mat5::{
    Mat5, mat5_bounded, mul5_spec, mul5_fits, mat5_mul, view4_spec, view4, ortho4_spec,
    ortho4_short, block4_of, col4_of, row4_of, lemma_mul5_fits_from_bounds, lemma_view4_bounded,
};
use crate::camera_proj3::{CameraProj3, CAM3_MAT_MAX};
use crate::input::{
    CameraEvent, event_factor, key_slot, button_slot,
    KEY_Y, KEY_H, KEY_U, KEY_J, KEY_I, KEY_K, KEY_O, KEY_L,
};

verus! {

broadcast use vstd::std_specs::hash::group_hash_axioms;

/// Bound on the camera position's coordinates kept by the invariant.
pub const CAM4_POS_MAX: i64 = 16_777_216;

/// Bound on the position accepted by one motion step, leaving room for the
/// largest step the other bounds allow.
pub const CAM4_STEP_POS_MAX: i64 = 8_388_608;

/// Bound on basis coordinates kept by the invariant.
pub const CAM4_BASIS_MAX: i64 = 4;

/// Bound on the movement speed kept by the invariant.
pub const CAM4_SPEED_MAX: i64 = 64;

/// Bound on the time delta, in milliseconds, accepted by one motion step.
/// A frame that took longer contributes at most this much motion: the shell
/// caps what it passes, so a stalled frame cannot fling the camera.
pub const CAM4_DT_MAX: i64 = 256;

/// Bound on the accumulated axis authority accepted by one motion step.
pub const CAM4_ACT_MAX: i64 = 16;

/// Bound on the projection entries kept by the invariant.
pub const CAM4_PROJ_MAX: i64 = 2_147_483_648;

/// The flattened per-frame snapshot of the combined camera and model
/// transform, decomposed so a 4x4 pipeline can perform the homogeneous
/// divide, together with the fixed 3D-stage transform.
#[derive(Clone, Copy, Debug, PartialEq, Eq)]
pub struct UniformBufferObject {
    /// The 4x4 linear block of the combined 5x5 transform.
    pub cam4_trans: Mat4,
    /// Its translation column.
    pub cam4_col: Vec4,
    /// Its divisor-contribution row.
    pub cam4_row: Vec4,
    /// The fixed transform carrying the reduced 3-point to clip space.
    pub cam3_trans: Mat4,
    /// The scalar at the final diagonal corner.
    pub cam4_const: i64,
}

/// A camera in 4-space with an orthonormal basis and an orthographic
/// projection.
pub struct CameraProj4 {
    camera_proj3: CameraProj3,
    position: Vec4,
    frac: Vec4,
    w: Vec4,
    x: Vec4,
    y: Vec4,
    z: Vec4,
    movement_speed: i64,
    view: Mat5,
    proj: Mat5,
    started: bool,
    input_map: HashMap<u64, bool>,
    act_w: i64,
    act_x: i64,
    act_y: i64,
    act_z: i64,
    act_yaw: i64,
    act_pitch: i64,
}

/// The motion a step takes: each coordinate of the summed basis directions,
/// weighted by the axis authorities.
pub open spec fn move_dir4_spec(
    aw: int, w: Seq<int>,
    ax: int, x: Seq<int>,
    ay: int, y: Seq<int>,
    az: int, z: Seq<int>,
) -> Seq<int> {
    seq![
        aw * w[0] + ax * x[0] + ay * y[0] + az * z[0],
        aw * w[1] + ax * x[1] + ay * y[1] + az * z[1],
        aw * w[2] + ax * x[2] + ay * y[2] + az * z[2],
        aw * w[3] + ax * x[3] + ay * y[3] + az * z[3],
    ]
}

/// The exact position in milli-units after one motion step: the speed is in
/// scene units per second and the time delta in milliseconds, so their
/// product with the direction is a whole number of milli-units added to the
/// old milli-position.
pub open spec fn milli_total(p: int, f: int, k: int, d: int) -> int {
    1000 * p + f + k * d
}

/// The whole-unit coordinates after one motion step.
pub open spec fn stepped_units(p: Seq<int>, f: Seq<int>, k: int, dir: Seq<int>) -> Seq<int> {
    seq![
        div_toward_zero(milli_total(p[0], f[0], k, dir[0]), 1000),
        div_toward_zero(milli_total(p[1], f[1], k, dir[1]), 1000),
        div_toward_zero(milli_total(p[2], f[2], k, dir[2]), 1000),
        div_toward_zero(milli_total(p[3], f[3], k, dir[3]), 1000),
    ]
}

/// The sub-unit residues, in milli-units, after one motion step.
pub open spec fn stepped_fracs(p: Seq<int>, f: Seq<int>, k: int, dir: Seq<int>) -> Seq<int> {
    seq![
        milli_total(p[0], f[0], k, dir[0])
            - 1000 * div_toward_zero(milli_total(p[0], f[0], k, dir[0]), 1000),
        milli_total(p[1], f[1], k, dir[1])
            - 1000 * div_toward_zero(milli_total(p[1], f[1], k, dir[1]), 1000),
        milli_total(p[2], f[2], k, dir[2])
            - 1000 * div_toward_zero(milli_total(p[2], f[2], k, dir[2]), 1000),
        milli_total(p[3], f[3], k, dir[3])
            - 1000 * div_toward_zero(milli_total(p[3], f[3], k, dir[3]), 1000),
    ]
}

impl CameraProj4 {
    pub closed spec fn position_spec(&self) -> Seq<int> {
        self.position@
    }

    /// The sub-unit part of the position, in milli-units, carried so that
    /// slow frames still move the camera exactly.
    pub closed spec fn frac_spec(&self) -> Seq<int> {
        self.frac@
    }

    pub closed spec fn w_spec(&self) -> Seq<int> {
        self.w@
    }

    pub closed spec fn x_spec(&self) -> Seq<int> {
        self.x@
    }

    pub closed spec fn y_spec(&self) -> Seq<int> {
        self.y@
    }

    pub closed spec fn z_spec(&self) -> Seq<int> {
        self.z@
    }

    pub closed spec fn speed_spec(&self) -> int {
        self.movement_speed as int
    }

    pub closed spec fn view_spec(&self) -> Seq<int> {
        self.view@
    }

    pub closed spec fn proj_spec(&self) -> Seq<int> {
        self.proj@
    }

    pub closed spec fn started_spec(&self) -> bool {
        self.started
    }

    pub closed spec fn input_spec(&self) -> Map<u64, bool> {
        self.input_map@
    }

    pub closed spec fn act_w_spec(&self) -> int {
        self.act_w as int
    }

    pub closed spec fn act_x_spec(&self) -> int {
        self.act_x as int
    }

    pub closed spec fn act_y_spec(&self) -> int {
        self.act_y as int
    }

    pub closed spec fn act_z_spec(&self) -> int {
        self.act_z as int
    }

    pub closed spec fn yaw_spec(&self) -> int {
        self.act_yaw as int
    }

    pub closed spec fn pitch_spec(&self) -> int {
        self.act_pitch as int
    }

    pub closed spec fn camera3_spec(&self) -> CameraProj3 {
        self.camera_proj3
    }

    /// The combined transform this camera applies to world-space points.
    pub open spec fn transform_spec(&self) -> Seq<int> {
        mul5_spec(self.proj_spec(), self.view_spec())
    }

    /// The camera's invariant: the basis is unit (so the view rows equal the
    /// normalized basis), the view matrix is exactly the view transform of
    /// the current position and basis, and every stored quantity is small
    /// enough for the per-frame products to stay within 64-bit entries.
    pub open spec fn wf(&self) -> bool {
        &&& self.camera3_spec().wf()
        &&& vec4_bounded(self.position_spec(), CAM4_POS_MAX as int)
        &&& vec4_bounded(self.frac_spec(), 999)
        &&& vec4_bounded(self.w_spec(), CAM4_BASIS_MAX as int)
        &&& vec4_bounded(self.x_spec(), CAM4_BASIS_MAX as int)
        &&& vec4_bounded(self.y_spec(), CAM4_BASIS_MAX as int)
        &&& vec4_bounded(self.z_spec(), CAM4_BASIS_MAX as int)
        &&& dot4(self.w_spec(), self.w_spec()) == 1
        &&& dot4(self.x_spec(), self.x_spec()) == 1
        &&& dot4(self.y_spec(), self.y_spec()) == 1
        &&& dot4(self.z_spec(), self.z_spec()) == 1
        &&& 0 <= self.speed_spec() <= CAM4_SPEED_MAX as int
        &&& self.view_spec() == view4_spec(
            self.position_spec(), self.w_spec(), self.x_spec(), self.y_spec(), self.z_spec())
        &&& mat5_bounded(self.proj_spec(), CAM4_PROJ_MAX as int)
    }

    /// The camera of the interactive scene: at position `(20, 0, 0, 0)`
    /// looking at the origin, with the basis derived from the forward
    /// direction by repeated generalized cross products, an orthographic
    /// projection over near/far planes `-100` and `100` with half width
    /// `100`, and movement speed `10` scene units per second.
    pub fn new(camera_proj3: CameraProj3) -> (r: CameraProj4)
        requires
            camera_proj3.wf(),
        ensures
            r.wf(),
            r.camera3_spec() == camera_proj3,
            r.position_spec() == seq![20int, 0, 0, 0],
            r.frac_spec() == seq![0int, 0, 0, 0],
            r.w_spec() == seq![-1int, 0, 0, 0],
            r.x_spec() == seq![0int, 1, 0, 0],
            r.y_spec() == seq![0int, 0, 1, 0],
            r.z_spec() == seq![0int, 0, 0, -1],
            r.speed_spec() == 10,
            r.proj_spec() == ortho4_spec(-100, 100, -100, 100, -100, 100, -100, 100),
            r.view_spec() == view4_spec(
                seq![20int, 0, 0, 0],
                seq![-1int, 0, 0, 0],
                seq![0int, 1, 0, 0],
                seq![0int, 0, 1, 0],
                seq![0int, 0, 0, -1],
            ),
            !r.started_spec(),
            r.input_spec() == Map::<u64, bool>::empty(),
            r.act_w_spec() == 0 && r.act_x_spec() == 0 && r.act_y_spec() == 0
                && r.act_z_spec() == 0 && r.yaw_spec() == 0 && r.pitch_spec() == 0,
    {
        let position = Vec4 { x: 20, y: 0, z: 0, w: 0 };
        // Forward towards the origin; the remaining axes follow by repeated
        // cross products of unit vectors, so they stay exactly unit.
        let w = Vec4 { x: -1, y: 0, z: 0, w: 0 };
        let x_axis = Vec4 { x: 0, y: 1, z: 0, w: 0 };
        let y_axis = Vec4 { x: 0, y: 0, z: 1, w: 0 };
        let z = crate::math4::cross(&w, &x_axis, &y_axis);
        proof {
            lemma_scene_basis_first(
                w@[0], w@[1], w@[2], w@[3],
                x_axis@[0], x_axis@[1], x_axis@[2], x_axis@[3],
                y_axis@[0], y_axis@[1], y_axis@[2], y_axis@[3],
            );
            assert(z@ =~= seq![0int, 0, 0, -1]);
        }
        let y = crate::math4::cross(&w, &x_axis, &z);
        proof {
            lemma_scene_basis_second(
                w@[0], w@[1], w@[2], w@[3],
                x_axis@[0], x_axis@[1], x_axis@[2], x_axis@[3],
                z@[0], z@[1], z@[2], z@[3],
            );
            assert(y@ =~= seq![0int, 0, 1, 0]);
        }
        let x = crate::math4::cross(&w, &y, &z);
        proof {
            lemma_scene_basis_third(
                w@[0], w@[1], w@[2], w@[3],
                y@[0], y@[1], y@[2], y@[3],
                z@[0], z@[1], z@[2], z@[3],
            );
            assert(x@ =~= seq![0int, 1, 0, 0]);
        }
        proof {
            lemma_signed_axis_is_unit(w@[0], w@[1], w@[2], w@[3]);
            lemma_signed_axis_is_unit(x@[0], x@[1], x@[2], x@[3]);
            lemma_signed_axis_is_unit(y@[0], y@[1], y@[2], y@[3]);
            lemma_signed_axis_is_unit(z@[0], z@[1], z@[2], z@[3]);
        }
        let proj = ortho4_short(-100, 100, 100);
        let view = view4(&position, &w, &x, &y, &z);
        proof {
            lemma_ortho4_scene_bounded();
        }
        let frac = Vec4 { x: 0, y: 0, z: 0, w: 0 };
        CameraProj4 {
            camera_proj3,
            position,
            frac,
            w,
            x,
            y,
            z,
            movement_speed: 10,
            view,
            proj,
            started: false,
            input_map: HashMap::new(),
            act_w: 0,
            act_x: 0,
            act_y: 0,
            act_z: 0,
            act_yaw: 0,
            act_pitch: 0,
        }
    }

    /// The four axis authorities, in w, x, y, z order.
    pub fn axis_values(&self) -> (r: (i64, i64, i64, i64))
        ensures
            r.0 as int == self.act_w_spec(),
            r.1 as int == self.act_x_spec(),
            r.2 as int == self.act_y_spec(),
            r.3 as int == self.act_z_spec(),
    {
        (self.act_w, self.act_x, self.act_y, self.act_z)
    }

    /// The accumulated pointer rotation, yaw then pitch.
    pub fn rotation_values(&self) -> (r: (i64, i64))
        ensures
            r.0 as int == self.yaw_spec(),
            r.1 as int == self.pitch_spec(),
    {
        (self.act_yaw, self.act_pitch)
    }

    /// The current position, in whole scene units.
    pub fn position(&self) -> (r: Vec4)
        ensures
            r@ == self.position_spec(),
    {
        self.position
    }

    /// The sub-unit part of the position, in milli-units.
    pub fn position_fraction(&self) -> (r: Vec4)
        ensures
            r@ == self.frac_spec(),
    {
        self.frac
    }

    /// The embedded 3D stage's axis authorities, forward, right and up.
    pub fn camera3_axis_values(&self) -> (r: (i64, i64, i64))
        ensures
            r.0 as int == self.camera3_spec().forward_spec(),
            r.1 as int == self.camera3_spec().right_spec(),
            r.2 as int == self.camera3_spec().up_spec(),
    {
        self.camera_proj3.axis_values()
    }

    /// The embedded 3D stage's accumulated pointer rotation, yaw then pitch.
    pub fn camera3_rotation_values(&self) -> (r: (i64, i64))
        ensures
            r.0 as int == self.camera3_spec().yaw_spec(),
            r.1 as int == self.camera3_spec().pitch_spec(),
    {
        self.camera_proj3.rotation_values()
    }

    /// Installs a 3D-stage view matrix rebuilt outside: the stage's motion
    /// and pointer rotation need trigonometry the exact core cannot do.
    pub fn set_camera3_view(&mut self, view: Mat4)
        requires
            old(self).wf(),
            mat4_bounded(view@, CAM3_MAT_MAX as int),
        ensures
            final(self).wf(),
            final(self).camera3_spec().view_spec() == view@,
            final(self).camera3_spec().proj_spec() == old(self).camera3_spec().proj_spec(),
            final(self).camera3_spec().input_spec() == old(self).camera3_spec().input_spec(),
            final(self).camera3_spec().forward_spec() == old(self).camera3_spec().forward_spec(),
            final(self).camera3_spec().right_spec() == old(self).camera3_spec().right_spec(),
            final(self).camera3_spec().up_spec() == old(self).camera3_spec().up_spec(),
            final(self).camera3_spec().yaw_spec() == old(self).camera3_spec().yaw_spec(),
            final(self).camera3_spec().pitch_spec() == old(self).camera3_spec().pitch_spec(),
            final(self).position_spec() == old(self).position_spec(),
            final(self).frac_spec() == old(self).frac_spec(),
            final(self).view_spec() == old(self).view_spec(),
            final(self).proj_spec() == old(self).proj_spec(),
            final(self).w_spec() == old(self).w_spec(),
            final(self).x_spec() == old(self).x_spec(),
            final(self).y_spec() == old(self).y_spec(),
            final(self).z_spec() == old(self).z_spec(),
            final(self).speed_spec() == old(self).speed_spec(),
            final(self).started_spec() == old(self).started_spec(),
            final(self).input_spec() == old(self).input_spec(),
            final(self).act_w_spec() == old(self).act_w_spec(),
            final(self).act_x_spec() == old(self).act_x_spec(),
            final(self).act_y_spec() == old(self).act_y_spec(),
            final(self).act_z_spec() == old(self).act_z_spec(),
            final(self).yaw_spec() == old(self).yaw_spec(),
            final(self).pitch_spec() == old(self).pitch_spec(),
    {
        self.camera_proj3.set_view(view);
    }

    /// The combined transform: projection times view.
    pub fn transform(&self) -> (r: Mat5)
        requires
            self.wf(),
        ensures
            r@ == self.transform_spec(),
    {
        proof {
            lemma_cam4_transform_fits(self);
        }
        mat5_mul(&self.proj, &self.view)
    }

    /// Advances the camera by one frame: motion along the basis weighted by
    /// the axis authorities, the speed in scene units per second and the
    /// elapsed time in milliseconds, then an exact rebuild of the view
    /// transform. The exact position lives in milli-units: the whole-unit
    /// part feeds the view transform, and the sub-unit residue is carried so
    /// that slow frames lose no motion. The first step after construction
    /// establishes the time baseline and moves nothing.
    pub fn update_view(&mut self, dt: i64)
        requires
            old(self).wf(),
            0 <= dt <= CAM4_DT_MAX,
            vec4_bounded(old(self).position_spec(), CAM4_STEP_POS_MAX as int),
            -CAM4_ACT_MAX <= old(self).act_w_spec() <= CAM4_ACT_MAX as int,
            -CAM4_ACT_MAX <= old(self).act_x_spec() <= CAM4_ACT_MAX as int,
            -CAM4_ACT_MAX <= old(self).act_y_spec() <= CAM4_ACT_MAX as int,
            -CAM4_ACT_MAX <= old(self).act_z_spec() <= CAM4_ACT_MAX as int,
        ensures
            final(self).wf(),
            final(self).started_spec(),
            ({
                let k = old(self).speed_spec()
                    * (if old(self).started_spec() { dt as int } else { 0 });
                let dir = move_dir4_spec(
                    old(self).act_w_spec(), old(self).w_spec(),
                    old(self).act_x_spec(), old(self).x_spec(),
                    old(self).act_y_spec(), old(self).y_spec(),
                    old(self).act_z_spec(), old(self).z_spec(),
                );
                &&& final(self).position_spec() == stepped_units(
                    old(self).position_spec(), old(self).frac_spec(), k, dir)
                &&& final(self).frac_spec() == stepped_fracs(
                    old(self).position_spec(), old(self).frac_spec(), k, dir)
            }),
            final(self).view_spec() == view4_spec(
                final(self).position_spec(), old(self).w_spec(), old(self).x_spec(),
                old(self).y_spec(), old(self).z_spec()),
            final(self).w_spec() == old(self).w_spec(),
            final(self).x_spec() == old(self).x_spec(),
            final(self).y_spec() == old(self).y_spec(),
            final(self).z_spec() == old(self).z_spec(),
            final(self).proj_spec() == old(self).proj_spec(),
            final(self).speed_spec() == old(self).speed_spec(),
            final(self).input_spec() == old(self).input_spec(),
            final(self).act_w_spec() == old(self).act_w_spec(),
            final(self).act_x_spec() == old(self).act_x_spec(),
            final(self).act_y_spec() == old(self).act_y_spec(),
            final(self).act_z_spec() == old(self).act_z_spec(),
            final(self).yaw_spec() == 0,
            final(self).pitch_spec() == 0,
            final(self).camera3_spec().view_spec() == old(self).camera3_spec().view_spec(),
            final(self).camera3_spec().proj_spec() == old(self).camera3_spec().proj_spec(),
    {
        self.camera_proj3.update_view(dt);
        // The rotation accumulators are consumed by this frame.
        self.act_yaw = 0;
        self.act_pitch = 0;
        let eff: i64 = if self.started { dt } else { 0 };
        self.started = true;
        proof {
            lemma_mul_bound(
                self.movement_speed as int, eff as int,
                CAM4_SPEED_MAX as int, CAM4_DT_MAX as int,
            );
        }
        let k: i64 = self.movement_speed * eff;
        let px = step_coord(self.position.x, self.frac.x, k, self.act_w, self.w.x,
            self.act_x, self.x.x, self.act_y, self.y.x, self.act_z, self.z.x);
        let py = step_coord(self.position.y, self.frac.y, k, self.act_w, self.w.y,
            self.act_x, self.x.y, self.act_y, self.y.y, self.act_z, self.z.y);
        let pz = step_coord(self.position.z, self.frac.z, k, self.act_w, self.w.z,
            self.act_x, self.x.z, self.act_y, self.y.z, self.act_z, self.z.z);
        let pw = step_coord(self.position.w, self.frac.w, k, self.act_w, self.w.w,
            self.act_x, self.x.w, self.act_y, self.y.w, self.act_z, self.z.w);
        self.position = Vec4 { x: px.0, y: py.0, z: pz.0, w: pw.0 };
        self.frac = Vec4 { x: px.1, y: py.1, z: pz.1, w: pw.1 };
        self.view = view4(&self.position, &self.w, &self.x, &self.y, &self.z);
        proof {
            let kk = old(self).speed_spec()
                * (if old(self).started_spec() { dt as int } else { 0 });
            let dir = move_dir4_spec(
                old(self).act_w_spec(), old(self).w_spec(),
                old(self).act_x_spec(), old(self).x_spec(),
                old(self).act_y_spec(), old(self).y_spec(),
                old(self).act_z_spec(), old(self).z_spec(),
            );
            assert(self.position@ =~= stepped_units(
                old(self).position_spec(), old(self).frac_spec(), kk, dir));
            assert(self.frac@ =~= stepped_fracs(
                old(self).position_spec(), old(self).frac_spec(), kk, dir));
        }
    }

    /// Routes one input event, exactly as the embedded 3D camera does but
    /// over this camera's four translation axes.
    pub fn handle_event(&mut self, event: &CameraEvent)
        requires
            old(self).wf(),
            old(self).event_fits(*event),
            old(self).camera3_spec().event_fits(*event),
        ensures
            final(self).wf(),
            final(self).after_event(old(self), *event),
            final(self).camera3_spec().after_event(&old(self).camera3_spec(), *event),
            final(self).position_spec() == old(self).position_spec(),
            final(self).frac_spec() == old(self).frac_spec(),
            final(self).view_spec() == old(self).view_spec(),
            final(self).proj_spec() == old(self).proj_spec(),
            final(self).w_spec() == old(self).w_spec(),
            final(self).x_spec() == old(self).x_spec(),
            final(self).y_spec() == old(self).y_spec(),
            final(self).z_spec() == old(self).z_spec(),
            final(self).started_spec() == old(self).started_spec(),
    {
        self.camera_proj3.handle_event(event);
        match *event {
            CameraEvent::Key { code, pressed } => {
                let prev = self.input_map.insert(code as u64, pressed);
                let same = match prev {
                    Some(p) => p == pressed,
                    None => false,
                };
                let factor: i64 = if same {
                    0
                } else if pressed {
                    1
                } else {
                    -1
                };
                if code == KEY_Y {
                    self.act_w = self.act_w + factor;
                } else if code == KEY_H {
                    self.act_w = self.act_w - factor;
                } else if code == KEY_U {
                    self.act_x = self.act_x + factor;
                } else if code == KEY_J {
                    self.act_x = self.act_x - factor;
                } else if code == KEY_I {
                    self.act_y = self.act_y + factor;
                } else if code == KEY_K {
                    self.act_y = self.act_y - factor;
                } else if code == KEY_O {
                    self.act_z = self.act_z + factor;
                } else if code == KEY_L {
                    self.act_z = self.act_z - factor;
                }
            }
            CameraEvent::MouseMotion { dx, dy } => {
                self.act_yaw = self.act_yaw + dx;
                self.act_pitch = self.act_pitch + dy;
            }
            CameraEvent::Button { id, pressed } => {
                self.input_map.insert(0x1_0000_0000u64 + id as u64, pressed);
            }
        }
    }

    /// What one event does to this camera's own state.
    pub open spec fn after_event(&self, pre: &CameraProj4, event: CameraEvent) -> bool {
        match event {
            CameraEvent::Key { code, pressed } => {
                let f = event_factor(pre.input_spec(), key_slot(code), pressed);
                &&& self.input_spec() == pre.input_spec().insert(key_slot(code), pressed)
                &&& self.act_w_spec() == pre.act_w_spec()
                    + (if code == KEY_Y { f } else if code == KEY_H { -f } else { 0 })
                &&& self.act_x_spec() == pre.act_x_spec()
                    + (if code == KEY_U { f } else if code == KEY_J { -f } else { 0 })
                &&& self.act_y_spec() == pre.act_y_spec()
                    + (if code == KEY_I { f } else if code == KEY_K { -f } else { 0 })
                &&& self.act_z_spec() == pre.act_z_spec()
                    + (if code == KEY_O { f } else if code == KEY_L { -f } else { 0 })
                &&& self.yaw_spec() == pre.yaw_spec()
                &&& self.pitch_spec() == pre.pitch_spec()
            },
            CameraEvent::MouseMotion { dx, dy } => {
                &&& self.input_spec() == pre.input_spec()
                &&& self.act_w_spec() == pre.act_w_spec()
                &&& self.act_x_spec() == pre.act_x_spec()
                &&& self.act_y_spec() == pre.act_y_spec()
                &&& self.act_z_spec() == pre.act_z_spec()
                &&& self.yaw_spec() == pre.yaw_spec() + dx
                &&& self.pitch_spec() == pre.pitch_spec() + dy
            },
            CameraEvent::Button { id, pressed } => {
                &&& self.input_spec() == pre.input_spec().insert(button_slot(id), pressed)
                &&& self.act_w_spec() == pre.act_w_spec()
                &&& self.act_x_spec() == pre.act_x_spec()
                &&& self.act_y_spec() == pre.act_y_spec()
                &&& self.act_z_spec() == pre.act_z_spec()
                &&& self.yaw_spec() == pre.yaw_spec()
                &&& self.pitch_spec() == pre.pitch_spec()
            },
        }
    }

    /// The accumulators an event may touch stay clear of the 64-bit limits.
    pub open spec fn event_fits(&self, event: CameraEvent) -> bool {
        match event {
            CameraEvent::Key { code, pressed } => {
                &&& i64::MIN < self.act_w_spec() < i64::MAX
                &&& i64::MIN < self.act_x_spec() < i64::MAX
                &&& i64::MIN < self.act_y_spec() < i64::MAX
                &&& i64::MIN < self.act_z_spec() < i64::MAX
            },
            CameraEvent::MouseMotion { dx, dy } => {
                &&& i64::MIN <= self.yaw_spec() + dx <= i64::MAX
                &&& i64::MIN <= self.pitch_spec() + dy <= i64::MAX
            },
            CameraEvent::Button { id, pressed } => true,
        }
    }

    /// Packs the per-frame uniform payload: the combined transform times the
    /// model transform, decomposed into its 4x4 block, translation column,
    /// divisor row and corner scalar, beside the fixed 3D-stage transform.
    pub fn data(&self, model: &Mat5) -> (r: UniformBufferObject)
        requires
            self.wf(),
            mat5_bounded(model@, crate::mat5::MAT5_ENTRY_MAX as int),
            mul5_fits(self.transform_spec(), model@),
        ensures
            ({
                let full = mul5_spec(self.transform_spec(), model@);
                &&& r.cam4_trans@ == block4_of(full)
                &&& r.cam4_col@ == col4_of(full)
                &&& r.cam4_row@ == row4_of(full)
                &&& r.cam4_const as int == full[24]
                &&& r.cam3_trans@ == mul4_spec(
                    self.camera3_spec().proj_spec(), self.camera3_spec().view_spec())
            }),
    {
        let t5 = self.transform();
        proof {
            lemma_cam4_transform_fits(self);
        }
        let t = mat5_mul(&t5, model);
        let mut block: [i64; 16] = [0; 16];
        let mut i: usize = 0;
        while i < 4
            invariant
                i <= 4,
                forall|k: int| 0 <= k < i * 4 ==>
                    block@[k] as int == #[trigger] block4_of(t@)[k],
            decreases 4 - i,
        {
            let mut j: usize = 0;
            while j < 4
                invariant
                    i < 4,
                    j <= 4,
                    forall|k: int| 0 <= k < i * 4 + j ==>
                        block@[k] as int == #[trigger] block4_of(t@)[k],
                decreases 4 - j,
            {
                block[i * 4 + j] = t.e[i * 5 + j];
                j += 1;
            }
            i += 1;
        }
        let cam4_trans = Mat4 { e: block };
        let cam4_col = Vec4 { x: t.e[4], y: t.e[9], z: t.e[14], w: t.e[19] };
        let cam4_row = Vec4 { x: t.e[20], y: t.e[21], z: t.e[22], w: t.e[23] };
        let cam4_const = t.e[24];
        let cam3_trans = self.camera_proj3.transform();
        let r = UniformBufferObject { cam4_trans, cam4_col, cam4_row, cam3_trans, cam4_const };
        proof {
            let full = mul5_spec(self.transform_spec(), model@);
            assert(r.cam4_trans@ =~= block4_of(full));
            assert(r.cam4_col@ =~= col4_of(full));
            assert(r.cam4_row@ =~= row4_of(full));
        }
        r
    }
}

/// One coordinate of a motion step: the milli-unit position advances by the
/// weighted basis sum exactly, and is handed back split into its whole-unit
/// part and its milli-unit residue.
fn step_coord(
    p: i64, f: i64, k: i64,
    aw: i64, bw: i64,
    ax: i64, bx: i64,
    ay: i64, by: i64,
    az: i64, bz: i64,
) -> (r: (i64, i64))
    requires
        -CAM4_STEP_POS_MAX <= p <= CAM4_STEP_POS_MAX,
        -999 <= f <= 999,
        -(CAM4_SPEED_MAX * CAM4_DT_MAX) <= k <= CAM4_SPEED_MAX * CAM4_DT_MAX,
        -CAM4_ACT_MAX <= aw <= CAM4_ACT_MAX,
        -CAM4_ACT_MAX <= ax <= CAM4_ACT_MAX,
        -CAM4_ACT_MAX <= ay <= CAM4_ACT_MAX,
        -CAM4_ACT_MAX <= az <= CAM4_ACT_MAX,
        -CAM4_BASIS_MAX <= bw <= CAM4_BASIS_MAX,
        -CAM4_BASIS_MAX <= bx <= CAM4_BASIS_MAX,
        -CAM4_BASIS_MAX <= by <= CAM4_BASIS_MAX,
        -CAM4_BASIS_MAX <= bz <= CAM4_BASIS_MAX,
    ensures
        r.0 as int == div_toward_zero(
            milli_total(p as int, f as int, k as int,
                aw * bw + ax * bx + ay * by + az * bz), 1000),
        1000 * r.0 + r.1 == milli_total(p as int, f as int, k as int,
            aw * bw + ax * bx + ay * by + az * bz),
        -999 <= r.1 <= 999,
        -CAM4_POS_MAX < r.0 < CAM4_POS_MAX,
{
    proof {
        lemma_mul_bound(aw as int, bw as int, CAM4_ACT_MAX as int, CAM4_BASIS_MAX as int);
        lemma_mul_bound(ax as int, bx as int, CAM4_ACT_MAX as int, CAM4_BASIS_MAX as int);
        lemma_mul_bound(ay as int, by as int, CAM4_ACT_MAX as int, CAM4_BASIS_MAX as int);
        lemma_mul_bound(az as int, bz as int, CAM4_ACT_MAX as int, CAM4_BASIS_MAX as int);
        lemma_mul_bound(
            k as int,
            aw as int * bw as int + ax as int * bx as int + ay as int * by as int
                + az as int * bz as int,
            (CAM4_SPEED_MAX * CAM4_DT_MAX) as int,
            4 * (CAM4_ACT_MAX * CAM4_BASIS_MAX) as int,
        );
    }
    let dir: i64 = aw * bw + ax * bx + ay * by + az * bz;
    let total: i128 = 1000i128 * p as i128 + f as i128 + k as i128 * dir as i128;
    if total >= 0 {
        ((total / 1000) as i64, (total % 1000) as i64)
    } else {
        (-(((-total) / 1000) as i64), -(((-total) % 1000) as i64))
    }
}

proof fn lemma_scene_basis_first(
    x0: int, x1: int, x2: int, x3: int,
    y0: int, y1: int, y2: int, y3: int,
    z0: int, z1: int, z2: int, z3: int,
) by (nonlinear_arith)
    requires
        x0 == -1 && x1 == 0 && x2 == 0 && x3 == 0,
        y0 == 0 && y1 == 1 && y2 == 0 && y3 == 0,
        z0 == 0 && z1 == 0 && z2 == 1 && z3 == 0,
    ensures
        x1 * (y2 * z3 - y3 * z2) - x2 * (y1 * z3 - y3 * z1) + x3 * (y1 * z2 - y2 * z1) == 0,
        x0 * (y2 * z3 - y3 * z2) - x2 * (y0 * z3 - y3 * z0) + x3 * (y0 * z2 - y2 * z0) == 0,
        x0 * (y1 * z3 - y3 * z1) - x1 * (y0 * z3 - y3 * z0) + x3 * (y0 * z1 - y1 * z0) == 0,
        x0 * (y1 * z2 - y2 * z1) - x1 * (y0 * z2 - y2 * z0) + x2 * (y0 * z1 - y1 * z0) == -1,
{
}

proof fn lemma_scene_basis_second(
    x0: int, x1: int, x2: int, x3: int,
    y0: int, y1: int, y2: int, y3: int,
    z0: int, z1: int, z2: int, z3: int,
) by (nonlinear_arith)
    requires
        x0 == -1 && x1 == 0 && x2 == 0 && x3 == 0,
        y0 == 0 && y1 == 1 && y2 == 0 && y3 == 0,
        z0 == 0 && z1 == 0 && z2 == 0 && z3 == -1,
    ensures
        x1 * (y2 * z3 - y3 * z2) - x2 * (y1 * z3 - y3 * z1) + x3 * (y1 * z2 - y2 * z1) == 0,
        x0 * (y2 * z3 - y3 * z2) - x2 * (y0 * z3 - y3 * z0) + x3 * (y0 * z2 - y2 * z0) == 0,
        x0 * (y1 * z3 - y3 * z1) - x1 * (y0 * z3 - y3 * z0) + x3 * (y0 * z1 - y1 * z0) == 1,
        x0 * (y1 * z2 - y2 * z1) - x1 * (y0 * z2 - y2 * z0) + x2 * (y0 * z1 - y1 * z0) == 0,
{
}

proof fn lemma_scene_basis_third(
    x0: int, x1: int, x2: int, x3: int,
    y0: int, y1: int, y2: int, y3: int,
    z0: int, z1: int, z2: int, z3: int,
) by (nonlinear_arith)
    requires
        x0 == -1 && x1 == 0 && x2 == 0 && x3 == 0,
        y0 == 0 && y1 == 0 && y2 == 1 && y3 == 0,
        z0 == 0 && z1 == 0 && z2 == 0 && z3 == -1,
    ensures
        x1 * (y2 * z3 - y3 * z2) - x2 * (y1 * z3 - y3 * z1) + x3 * (y1 * z2 - y2 * z1) == 0,
        x0 * (y2 * z3 - y3 * z2) - x2 * (y0 * z3 - y3 * z0) + x3 * (y0 * z2 - y2 * z0) == 1,
        x0 * (y1 * z3 - y3 * z1) - x1 * (y0 * z3 - y3 * z0) + x3 * (y0 * z1 - y1 * z0) == 0,
        x0 * (y1 * z2 - y2 * z1) - x1 * (y0 * z2 - y2 * z0) + x2 * (y0 * z1 - y1 * z0) == 0,
{
}

/// A well-formed camera's projection and view are small enough that their
/// product fits 64-bit entries and stays within the general entry bound.
pub proof fn lemma_cam4_transform_fits(cam: &CameraProj4)
    requires
        cam.wf(),
    ensures
        mul5_fits(cam.proj_spec(), cam.view_spec()),
        mat5_bounded(cam.transform_spec(), crate::mat5::MAT5_ENTRY_MAX as int),
        mat5_bounded(cam.proj_spec(), crate::mat5::MAT5_ENTRY_MAX as int),
        mat5_bounded(cam.view_spec(), crate::mat5::MAT5_ENTRY_MAX as int),
{
    lemma_view4_bounded(
        cam.position_spec(), cam.w_spec(), cam.x_spec(), cam.y_spec(), cam.z_spec(),
        CAM4_POS_MAX as int, CAM4_BASIS_MAX as int,
    );
    let view_bound = 4 * (CAM4_BASIS_MAX as int * CAM4_POS_MAX as int) + CAM4_BASIS_MAX as int + 1;
    lemma_mul5_fits_from_bounds(
        cam.proj_spec(), cam.view_spec(), CAM4_PROJ_MAX as int, view_bound,
    );
}

/// The orthographic projection of the interactive scene stays within the
/// projection bound kept by the camera invariant.
proof fn lemma_ortho4_scene_bounded()
    ensures
        mat5_bounded(ortho4_spec(-100, 100, -100, 100, -100, 100, -100, 100), CAM4_PROJ_MAX as int),
{
    let m = ortho4_spec(-100, 100, -100, 100, -100, 100, -100, 100);
    assert forall|k: int| 0 <= k < 25 implies
        -(CAM4_PROJ_MAX as int) <= #[trigger] m[k] <= CAM4_PROJ_MAX as int by {
        assert(m[0] == -16_000_000 && m[4] == 0);
        assert(m[6] == -16_000_000 && m[9] == 0);
        assert(m[12] == -16_000_000 && m[14] == 0);
        assert(m[18] == 16_000_000 && m[19] == 0);
        assert(m[24] == -1_600_000_000);
        assert(m[1] == 0 && m[2] == 0 && m[3] == 0 && m[5] == 0 && m[7] == 0 && m[8] == 0);
        assert(m[10] == 0 && m[11] == 0 && m[13] == 0 && m[15] == 0 && m[16] == 0 && m[17] == 0);
        assert(m[20] == 0 && m[21] == 0 && m[22] == 0 && m[23] == 0);
    }
}

} // verus!
