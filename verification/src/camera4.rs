//! The second four-dimensional camera: a perspective stage composed with an
//! orthographic box, a basis built by the alternating-sign cross product,
//! and a position the caller may move directly.

use vstd::prelude::*;
use std::collections::HashMap;
use crate::math4::{Vec4, vec4_bounded, lemma_mul_bound, dot4, div_toward_zero, lemma_signed_axis_is_unit};
use crate::mat4::{Mat4, mul4_spec};
use crate::mat5::{
    Mat5, mat5_bounded, mul5_spec, mul5_fits, mat5_mul, view4_spec, view4, ortho4_spec,
    ortho4_short, perspective4_spec, perspective4, block4_of, col4_of, row4_of,
    lemma_mul5_fits_from_bounds, lemma_view4_bounded, MAT5_ENTRY_MAX,
};
use crate::camera_proj3::CameraProj3;
use crate::camera_proj4::{UniformBufferObject, move_dir4_spec, milli_total, stepped_units, stepped_fracs};
use crate::input::{
    CameraEvent, event_factor, key_slot, button_slot,
    KEY_Y, KEY_H, KEY_U, KEY_J, KEY_I, KEY_K, KEY_O, KEY_L,
};

verus! {

broadcast use vstd::std_specs::hash::group_hash_axioms;

/// Bound on the camera position's coordinates kept by the invariant.
pub const CAMERA4_POS_MAX: i64 = 16384;

/// Bound on the position accepted by one motion step.
pub const CAMERA4_STEP_POS_MAX: i64 = 8192;

/// Bound on basis coordinates kept by the invariant.
pub const CAMERA4_BASIS_MAX: i64 = 4;

/// Bound on the movement speed kept by the invariant.
pub const CAMERA4_SPEED_MAX: i64 = 2;

/// Bound on the time delta, in milliseconds, accepted by one motion step.
pub const CAMERA4_DT_MAX: i64 = 128;

/// Bound on the accumulated axis authority accepted by one motion step.
pub const CAMERA4_ACT_MAX: i64 = 2;

/// Bound on the near and far planes accepted at construction.
pub const CAMERA4_PLANE_MAX: i64 = 128;

/// Bound on the half width accepted at construction.
pub const CAMERA4_WIDTH_MAX: i64 = 8;

/// Bound on the projection entries kept by the invariant.
pub const CAMERA4_PROJ_MAX: i64 = 2_199_023_255_552;

/// A camera in 4-space whose projection composes an orthographic box with a
/// perspective stage along the w axis.
pub struct Camera4 {
    camera3: CameraProj3,
    position: Vec4,
    frac: Vec4,
    target: Vec4,
    w: Vec4,
    x: Vec4,
    y: Vec4,
    z: Vec4,
    movement_speed: i64,
    view: Mat5,
    proj: Mat5,
    started: bool,
    input_map: HashMap<u64, bool>,
    act_w: i64,
    act_x: i64,
    act_y: i64,
    act_z: i64,
    act_yaw: i64,
    act_pitch: i64,
}

impl Camera4 {
    pub closed spec fn position_spec(&self) -> Seq<int> {
        self.position@
    }

    /// The sub-unit part of the position, in milli-units.
    pub closed spec fn frac_spec(&self) -> Seq<int> {
        self.frac@
    }

    pub closed spec fn target_spec(&self) -> Seq<int> {
        self.target@
    }

    pub closed spec fn w_spec(&self) -> Seq<int> {
        self.w@
    }

    pub closed spec fn x_spec(&self) -> Seq<int> {
        self.x@
    }

    pub closed spec fn y_spec(&self) -> Seq<int> {
        self.y@
    }

    pub closed spec fn z_spec(&self) -> Seq<int> {
        self.z@
    }

    pub closed spec fn speed_spec(&self) -> int {
        self.movement_speed as int
    }

    pub closed spec fn view_spec(&self) -> Seq<int> {
        self.view@
    }

    pub closed spec fn proj_spec(&self) -> Seq<int> {
        self.proj@
    }

    pub closed spec fn started_spec(&self) -> bool {
        self.started
    }

    pub closed spec fn input_spec(&self) -> Map<u64, bool> {
        self.input_map@
    }

    pub closed spec fn act_w_spec(&self) -> int {
        self.act_w as int
    }

    pub closed spec fn act_x_spec(&self) -> int {
        self.act_x as int
    }

    pub closed spec fn act_y_spec(&self) -> int {
        self.act_y as int
    }

    pub closed spec fn act_z_spec(&self) -> int {
        self.act_z as int
    }

    pub closed spec fn yaw_spec(&self) -> int {
        self.act_yaw as int
    }

    pub closed spec fn pitch_spec(&self) -> int {
        self.act_pitch as int
    }

    pub closed spec fn camera3_spec(&self) -> CameraProj3 {
        self.camera3
    }

    /// The combined transform this camera applies to world-space points.
    pub open spec fn transform_spec(&self) -> Seq<int> {
        mul5_spec(self.proj_spec(), self.view_spec())
    }

    /// The camera's invariant. Unlike the view transform rebuilt by
    /// `update_view`, the stored view may lag a directly set position until
    /// the next update, so the invariant only bounds it.
    pub open spec fn wf(&self) -> bool {
        &&& self.camera3_spec().wf()
        &&& vec4_bounded(self.position_spec(), CAMERA4_POS_MAX as int)
        &&& vec4_bounded(self.frac_spec(), 999)
        &&& vec4_bounded(self.w_spec(), CAMERA4_BASIS_MAX as int)
        &&& vec4_bounded(self.x_spec(), CAMERA4_BASIS_MAX as int)
        &&& vec4_bounded(self.y_spec(), CAMERA4_BASIS_MAX as int)
        &&& vec4_bounded(self.z_spec(), CAMERA4_BASIS_MAX as int)
        &&& dot4(self.w_spec(), self.w_spec()) == 1
        &&& dot4(self.x_spec(), self.x_spec()) == 1
        &&& dot4(self.y_spec(), self.y_spec()) == 1
        &&& dot4(self.z_spec(), self.z_spec()) == 1
        &&& 0 <= self.speed_spec() <= CAMERA4_SPEED_MAX as int
        &&& mat5_bounded(self.view_spec(), 262149)
        &&& mat5_bounded(self.proj_spec(), CAMERA4_PROJ_MAX as int)
    }

    /// A camera at position `(0, 0, 0, 4)` looking at the origin, with the
    /// basis completed by the alternating-sign cross product and the
    /// projection `ortho4_short(near, far, half_width) * perspective4(near,
    /// far)`, at movement speed 1.
    pub fn new(camera3: CameraProj3, near: i64, far: i64, half_width: i64) -> (r: Camera4)
        requires
            camera3.wf(),
            -CAMERA4_PLANE_MAX <= near <= CAMERA4_PLANE_MAX,
            -CAMERA4_PLANE_MAX <= far <= CAMERA4_PLANE_MAX,
            0 <= half_width <= CAMERA4_WIDTH_MAX,
        ensures
            r.wf(),
            r.camera3_spec() == camera3,
            r.position_spec() == seq![0int, 0, 0, 4],
            r.frac_spec() == seq![0int, 0, 0, 0],
            r.target_spec() == seq![0int, 0, 0, 0],
            r.w_spec() == seq![0int, 0, 0, -1],
            r.x_spec() == seq![-1int, 0, 0, 0],
            r.y_spec() == seq![0int, 1, 0, 0],
            r.z_spec() == seq![0int, 0, 1, 0],
            r.speed_spec() == 1,
            r.proj_spec() == mul5_spec(
                ortho4_spec(
                    -half_width as int, half_width as int,
                    -half_width as int, half_width as int,
                    -half_width as int, half_width as int,
                    near as int, far as int,
                ),
                perspective4_spec(near as int, far as int),
            ),
            r.view_spec() == view4_spec(
                seq![0int, 0, 0, 4],
                seq![-1int, 0, 0, 0],
                seq![0int, 1, 0, 0],
                seq![0int, 0, 1, 0],
                seq![0int, 0, 0, -1],
            ),
            !r.started_spec(),
            r.input_spec() == Map::<u64, bool>::empty(),
            r.act_w_spec() == 0 && r.act_x_spec() == 0 && r.act_y_spec() == 0
                && r.act_z_spec() == 0 && r.yaw_spec() == 0 && r.pitch_spec() == 0,
    {
        let position = Vec4 { x: 0, y: 0, z: 0, w: 4 };
        let target = Vec4 { x: 0, y: 0, z: 0, w: 0 };
        // Forward towards the origin; the remaining axis completes the
        // given up and depth axes by the alternating-sign cross product.
        let w = Vec4 { x: 0, y: 0, z: 0, w: -1 };
        let y = Vec4 { x: 0, y: 1, z: 0, w: 0 };
        let z = Vec4 { x: 0, y: 0, z: 1, w: 0 };
        let x = crate::math4::cross4(&y, &z, &w);
        proof {
            lemma_camera4_basis(y@[0], y@[1], y@[2], y@[3], z@[0], z@[1], z@[2], z@[3],
                w@[0], w@[1], w@[2], w@[3]);
            assert(x@ =~= seq![-1int, 0, 0, 0]);
        }
        proof {
            lemma_signed_axis_is_unit(w@[0], w@[1], w@[2], w@[3]);
            lemma_signed_axis_is_unit(x@[0], x@[1], x@[2], x@[3]);
            lemma_signed_axis_is_unit(y@[0], y@[1], y@[2], y@[3]);
            lemma_signed_axis_is_unit(z@[0], z@[1], z@[2], z@[3]);
        }
        let ortho = ortho4_short(near, far, half_width);
        let persp = perspective4(near, far);
        proof {
            lemma_ortho4_short_scene_bounded(near as int, far as int, half_width as int);
            lemma_perspective4_scene_bounded(near as int, far as int);
            lemma_mul5_fits_from_bounds(ortho@, persp@, 1_048_576, 16640);
        }
        let proj = mat5_mul(&ortho, &persp);
        let view = view4(&position, &x, &y, &z, &w);
        proof {
            lemma_view4_bounded(position@, x@, y@, z@, w@, 16384, 4);
        }
        let frac = Vec4 { x: 0, y: 0, z: 0, w: 0 };
        Camera4 {
            camera3,
            position,
            frac,
            target,
            w,
            x,
            y,
            z,
            movement_speed: 1,
            view,
            proj,
            started: false,
            input_map: HashMap::new(),
            act_w: 0,
            act_x: 0,
            act_y: 0,
            act_z: 0,
            act_yaw: 0,
            act_pitch: 0,
        }
    }


    /// The four axis authorities, in w, x, y, z order.
    pub fn axis_values(&self) -> (r: (i64, i64, i64, i64))
        ensures
            r.0 as int == self.act_w_spec(),
            r.1 as int == self.act_x_spec(),
            r.2 as int == self.act_y_spec(),
            r.3 as int == self.act_z_spec(),
    {
        (self.act_w, self.act_x, self.act_y, self.act_z)
    }

    /// The accumulated pointer rotation, yaw then pitch.
    pub fn rotation_values(&self) -> (r: (i64, i64))
        ensures
            r.0 as int == self.yaw_spec(),
            r.1 as int == self.pitch_spec(),
    {
        (self.act_yaw, self.act_pitch)
    }

    /// The current position.
    pub fn position(&self) -> (r: Vec4)
        ensures
            r@ == self.position_spec(),
    {
        self.position
    }

    /// Moves the camera directly. The stored view lags until the next
    /// `update_view` rebuilds it, exactly as the interactive loop does.
    pub fn set_position(&mut self, pos: Vec4)
        requires
            old(self).wf(),
            vec4_bounded(pos@, CAMERA4_POS_MAX as int),
        ensures
            final(self).wf(),
            final(self).position_spec() == pos@,
            final(self).frac_spec() == old(self).frac_spec(),
            final(self).view_spec() == old(self).view_spec(),
            final(self).proj_spec() == old(self).proj_spec(),
            final(self).w_spec() == old(self).w_spec(),
            final(self).x_spec() == old(self).x_spec(),
            final(self).y_spec() == old(self).y_spec(),
            final(self).z_spec() == old(self).z_spec(),
    {
        self.position = pos;
    }

    /// The forward basis vector.
    pub fn w(&self) -> (r: Vec4)
        ensures
            r@ == self.w_spec(),
    {
        self.w
    }

    /// The first spanning basis vector.
    pub fn x(&self) -> (r: Vec4)
        ensures
            r@ == self.x_spec(),
    {
        self.x
    }

    /// The second spanning basis vector.
    pub fn y(&self) -> (r: Vec4)
        ensures
            r@ == self.y_spec(),
    {
        self.y
    }

    /// The third spanning basis vector.
    pub fn z(&self) -> (r: Vec4)
        ensures
            r@ == self.z_spec(),
    {
        self.z
    }

    /// The combined transform: projection times view.
    pub fn transform(&self) -> (r: Mat5)
        requires
            self.wf(),
        ensures
            r@ == self.transform_spec(),
    {
        proof {
            lemma_camera4_transform_fits(self);
        }
        mat5_mul(&self.proj, &self.view)
    }

    /// Advances the camera by one frame, exactly as the orthographic camera
    /// does: motion along the basis weighted by the axis authorities, the
    /// speed in scene units per second and the elapsed time in milliseconds,
    /// then an exact view rebuild. The sub-unit residue of the position is
    /// carried in milli-units. The first step after construction establishes
    /// the time baseline and moves nothing; the translation accumulators and
    /// the basis are untouched, and no basis re-orthonormalization occurs.
    #[verifier::rlimit(60)]
    pub fn update_view(&mut self, dt: i64)
        requires
            old(self).wf(),
            0 <= dt <= CAMERA4_DT_MAX,
            vec4_bounded(old(self).position_spec(), CAMERA4_STEP_POS_MAX as int),
            -CAMERA4_ACT_MAX <= old(self).act_w_spec() <= CAMERA4_ACT_MAX as int,
            -CAMERA4_ACT_MAX <= old(self).act_x_spec() <= CAMERA4_ACT_MAX as int,
            -CAMERA4_ACT_MAX <= old(self).act_y_spec() <= CAMERA4_ACT_MAX as int,
            -CAMERA4_ACT_MAX <= old(self).act_z_spec() <= CAMERA4_ACT_MAX as int,
        ensures
            final(self).wf(),
            final(self).started_spec(),
            ({
                let k = old(self).speed_spec()
                    * (if old(self).started_spec() { dt as int } else { 0 });
                let dir = move_dir4_spec(
                    old(self).act_w_spec(), old(self).w_spec(),
                    old(self).act_x_spec(), old(self).x_spec(),
                    old(self).act_y_spec(), old(self).y_spec(),
                    old(self).act_z_spec(), old(self).z_spec(),
                );
                &&& final(self).position_spec() == stepped_units(
                    old(self).position_spec(), old(self).frac_spec(), k, dir)
                &&& final(self).frac_spec() == stepped_fracs(
                    old(self).position_spec(), old(self).frac_spec(), k, dir)
            }),
            final(self).view_spec() == view4_spec(
                final(self).position_spec(), old(self).x_spec(), old(self).y_spec(),
                old(self).z_spec(), old(self).w_spec()),
            final(self).w_spec() == old(self).w_spec(),
            final(self).x_spec() == old(self).x_spec(),
            final(self).y_spec() == old(self).y_spec(),
            final(self).z_spec() == old(self).z_spec(),
            final(self).target_spec() == old(self).target_spec(),
            final(self).proj_spec() == old(self).proj_spec(),
            final(self).speed_spec() == old(self).speed_spec(),
            final(self).input_spec() == old(self).input_spec(),
            final(self).act_w_spec() == old(self).act_w_spec(),
            final(self).act_x_spec() == old(self).act_x_spec(),
            final(self).act_y_spec() == old(self).act_y_spec(),
            final(self).act_z_spec() == old(self).act_z_spec(),
            final(self).yaw_spec() == 0,
            final(self).pitch_spec() == 0,
            final(self).camera3_spec().view_spec() == old(self).camera3_spec().view_spec(),
            final(self).camera3_spec().proj_spec() == old(self).camera3_spec().proj_spec(),
    {
        self.camera3.update_view(dt);
        self.act_yaw = 0;
        self.act_pitch = 0;
        let eff: i64 = if self.started { dt } else { 0 };
        self.started = true;
        proof {
            lemma_mul_bound(
                self.movement_speed as int, eff as int,
                CAMERA4_SPEED_MAX as int, CAMERA4_DT_MAX as int,
            );
        }
        let k: i64 = self.movement_speed * eff;
        let px = step4_coord(self.position.x, self.frac.x, k, self.act_w, self.w.x,
            self.act_x, self.x.x, self.act_y, self.y.x, self.act_z, self.z.x);
        let py = step4_coord(self.position.y, self.frac.y, k, self.act_w, self.w.y,
            self.act_x, self.x.y, self.act_y, self.y.y, self.act_z, self.z.y);
        let pz = step4_coord(self.position.z, self.frac.z, k, self.act_w, self.w.z,
            self.act_x, self.x.z, self.act_y, self.y.z, self.act_z, self.z.z);
        let pw = step4_coord(self.position.w, self.frac.w, k, self.act_w, self.w.w,
            self.act_x, self.x.w, self.act_y, self.y.w, self.act_z, self.z.w);
        self.position = Vec4 { x: px.0, y: py.0, z: pz.0, w: pw.0 };
        self.frac = Vec4 { x: px.1, y: py.1, z: pz.1, w: pw.1 };
        self.view = view4(&self.position, &self.x, &self.y, &self.z, &self.w);
        proof {
            lemma_view4_bounded(
                self.position@, self.x@, self.y@, self.z@, self.w@,
                CAMERA4_POS_MAX as int, CAMERA4_BASIS_MAX as int,
            );
            let kk = old(self).speed_spec()
                * (if old(self).started_spec() { dt as int } else { 0 });
            let dir = move_dir4_spec(
                old(self).act_w_spec(), old(self).w_spec(),
                old(self).act_x_spec(), old(self).x_spec(),
                old(self).act_y_spec(), old(self).y_spec(),
                old(self).act_z_spec(), old(self).z_spec(),
            );
            assert(self.position@ =~= stepped_units(
                old(self).position_spec(), old(self).frac_spec(), kk, dir));
            assert(self.frac@ =~= stepped_fracs(
                old(self).position_spec(), old(self).frac_spec(), kk, dir));
        }
    }

    /// Routes one input event. This camera steers its first three spanning
    /// axes with the same keys the orthographic camera gives to w, x and y,
    /// and its depth axis with the remaining pair.
    pub fn handle_event(&mut self, event: &CameraEvent)
        requires
            old(self).wf(),
            old(self).event_fits(*event),
            old(self).camera3_spec().event_fits(*event),
        ensures
            final(self).wf(),
            final(self).after_event(old(self), *event),
            final(self).camera3_spec().after_event(&old(self).camera3_spec(), *event),
            final(self).position_spec() == old(self).position_spec(),
            final(self).frac_spec() == old(self).frac_spec(),
            final(self).view_spec() == old(self).view_spec(),
            final(self).proj_spec() == old(self).proj_spec(),
            final(self).w_spec() == old(self).w_spec(),
            final(self).x_spec() == old(self).x_spec(),
            final(self).y_spec() == old(self).y_spec(),
            final(self).z_spec() == old(self).z_spec(),
            final(self).target_spec() == old(self).target_spec(),
            final(self).speed_spec() == old(self).speed_spec(),
            final(self).started_spec() == old(self).started_spec(),
    {
        self.camera3.handle_event(event);
        match *event {
            CameraEvent::Key { code, pressed } => {
                let prev = self.input_map.insert(code as u64, pressed);
                let same = match prev {
                    Some(p) => p == pressed,
                    None => false,
                };
                let factor: i64 = if same {
                    0
                } else if pressed {
                    1
                } else {
                    -1
                };
                if code == KEY_Y {
                    self.act_x = self.act_x + factor;
                } else if code == KEY_H {
                    self.act_x = self.act_x - factor;
                } else if code == KEY_U {
                    self.act_y = self.act_y + factor;
                } else if code == KEY_J {
                    self.act_y = self.act_y - factor;
                } else if code == KEY_I {
                    self.act_z = self.act_z + factor;
                } else if code == KEY_K {
                    self.act_z = self.act_z - factor;
                } else if code == KEY_O {
                    self.act_w = self.act_w + factor;
                } else if code == KEY_L {
                    self.act_w = self.act_w - factor;
                }
            }
            CameraEvent::MouseMotion { dx, dy } => {
                self.act_yaw = self.act_yaw + dx;
                self.act_pitch = self.act_pitch + dy;
            }
            CameraEvent::Button { id, pressed } => {
                self.input_map.insert(0x1_0000_0000u64 + id as u64, pressed);
            }
        }
    }

    /// What one event does to this camera's own state.
    pub open spec fn after_event(&self, pre: &Camera4, event: CameraEvent) -> bool {
        match event {
            CameraEvent::Key { code, pressed } => {
                let f = event_factor(pre.input_spec(), key_slot(code), pressed);
                &&& self.input_spec() == pre.input_spec().insert(key_slot(code), pressed)
                &&& self.act_x_spec() == pre.act_x_spec()
                    + (if code == KEY_Y { f } else if code == KEY_H { -f } else { 0 })
                &&& self.act_y_spec() == pre.act_y_spec()
                    + (if code == KEY_U { f } else if code == KEY_J { -f } else { 0 })
                &&& self.act_z_spec() == pre.act_z_spec()
                    + (if code == KEY_I { f } else if code == KEY_K { -f } else { 0 })
                &&& self.act_w_spec() == pre.act_w_spec()
                    + (if code == KEY_O { f } else if code == KEY_L { -f } else { 0 })
                &&& self.yaw_spec() == pre.yaw_spec()
                &&& self.pitch_spec() == pre.pitch_spec()
            },
            CameraEvent::MouseMotion { dx, dy } => {
                &&& self.input_spec() == pre.input_spec()
                &&& self.act_w_spec() == pre.act_w_spec()
                &&& self.act_x_spec() == pre.act_x_spec()
                &&& self.act_y_spec() == pre.act_y_spec()
                &&& self.act_z_spec() == pre.act_z_spec()
                &&& self.yaw_spec() == pre.yaw_spec() + dx
                &&& self.pitch_spec() == pre.pitch_spec() + dy
            },
            CameraEvent::Button { id, pressed } => {
                &&& self.input_spec() == pre.input_spec().insert(button_slot(id), pressed)
                &&& self.act_w_spec() == pre.act_w_spec()
                &&& self.act_x_spec() == pre.act_x_spec()
                &&& self.act_y_spec() == pre.act_y_spec()
                &&& self.act_z_spec() == pre.act_z_spec()
                &&& self.yaw_spec() == pre.yaw_spec()
                &&& self.pitch_spec() == pre.pitch_spec()
            },
        }
    }

    /// The accumulators an event may touch stay clear of the 64-bit limits.
    pub open spec fn event_fits(&self, event: CameraEvent) -> bool {
        match event {
            CameraEvent::Key { code, pressed } => {
                &&& i64::MIN < self.act_w_spec() < i64::MAX
                &&& i64::MIN < self.act_x_spec() < i64::MAX
                &&& i64::MIN < self.act_y_spec() < i64::MAX
                &&& i64::MIN < self.act_z_spec() < i64::MAX
            },
            CameraEvent::MouseMotion { dx, dy } => {
                &&& i64::MIN <= self.yaw_spec() + dx <= i64::MAX
                &&& i64::MIN <= self.pitch_spec() + dy <= i64::MAX
            },
            CameraEvent::Button { id, pressed } => true,
        }
    }

    /// Packs the per-frame uniform payload, exactly as the orthographic
    /// camera does.
    pub fn data(&self, model: &Mat5) -> (r: UniformBufferObject)
        requires
            self.wf(),
            mat5_bounded(model@, MAT5_ENTRY_MAX as int),
            mul5_fits(self.transform_spec(), model@),
        ensures
            ({
                let full = mul5_spec(self.transform_spec(), model@);
                &&& r.cam4_trans@ == block4_of(full)
                &&& r.cam4_col@ == col4_of(full)
                &&& r.cam4_row@ == row4_of(full)
                &&& r.cam4_const as int == full[24]
                &&& r.cam3_trans@ == mul4_spec(
                    self.camera3_spec().proj_spec(), self.camera3_spec().view_spec())
            }),
    {
        let t5 = self.transform();
        proof {
            lemma_camera4_transform_fits(self);
        }
        let t = mat5_mul(&t5, model);
        let mut block: [i64; 16] = [0; 16];
        let mut i: usize = 0;
        while i < 4
            invariant
                i <= 4,
                forall|k: int| 0 <= k < i * 4 ==>
                    block@[k] as int == #[trigger] block4_of(t@)[k],
            decreases 4 - i,
        {
            let mut j: usize = 0;
            while j < 4
                invariant
                    i < 4,
                    j <= 4,
                    forall|k: int| 0 <= k < i * 4 + j ==>
                        block@[k] as int == #[trigger] block4_of(t@)[k],
                decreases 4 - j,
            {
                block[i * 4 + j] = t.e[i * 5 + j];
                j += 1;
            }
            i += 1;
        }
        let cam4_trans = Mat4 { e: block };
        let cam4_col = Vec4 { x: t.e[4], y: t.e[9], z: t.e[14], w: t.e[19] };
        let cam4_row = Vec4 { x: t.e[20], y: t.e[21], z: t.e[22], w: t.e[23] };
        let cam4_const = t.e[24];
        let cam3_trans = self.camera3.transform();
        let r = UniformBufferObject { cam4_trans, cam4_col, cam4_row, cam3_trans, cam4_const };
        proof {
            let full = mul5_spec(self.transform_spec(), model@);
            assert(r.cam4_trans@ =~= block4_of(full));
            assert(r.cam4_col@ =~= col4_of(full));
            assert(r.cam4_row@ =~= row4_of(full));
        }
        r
    }
}

/// One coordinate of a motion step: the milli-unit position advances by the
/// weighted basis sum exactly, split into whole units and the residue.
fn step4_coord(
    p: i64, f: i64, k: i64,
    aw: i64, bw: i64,
    ax: i64, bx: i64,
    ay: i64, by: i64,
    az: i64, bz: i64,
) -> (r: (i64, i64))
    requires
        -CAMERA4_STEP_POS_MAX <= p <= CAMERA4_STEP_POS_MAX,
        -999 <= f <= 999,
        -(CAMERA4_SPEED_MAX * CAMERA4_DT_MAX) <= k <= CAMERA4_SPEED_MAX * CAMERA4_DT_MAX,
        -CAMERA4_ACT_MAX <= aw <= CAMERA4_ACT_MAX,
        -CAMERA4_ACT_MAX <= ax <= CAMERA4_ACT_MAX,
        -CAMERA4_ACT_MAX <= ay <= CAMERA4_ACT_MAX,
        -CAMERA4_ACT_MAX <= az <= CAMERA4_ACT_MAX,
        -CAMERA4_BASIS_MAX <= bw <= CAMERA4_BASIS_MAX,
        -CAMERA4_BASIS_MAX <= bx <= CAMERA4_BASIS_MAX,
        -CAMERA4_BASIS_MAX <= by <= CAMERA4_BASIS_MAX,
        -CAMERA4_BASIS_MAX <= bz <= CAMERA4_BASIS_MAX,
    ensures
        r.0 as int == div_toward_zero(
            milli_total(p as int, f as int, k as int,
                aw * bw + ax * bx + ay * by + az * bz), 1000),
        1000 * r.0 + r.1 == milli_total(p as int, f as int, k as int,
            aw * bw + ax * bx + ay * by + az * bz),
        -999 <= r.1 <= 999,
        -CAMERA4_POS_MAX <= r.0 <= CAMERA4_POS_MAX,
{
    proof {
        lemma_mul_bound(aw as int, bw as int, CAMERA4_ACT_MAX as int, CAMERA4_BASIS_MAX as int);
        lemma_mul_bound(ax as int, bx as int, CAMERA4_ACT_MAX as int, CAMERA4_BASIS_MAX as int);
        lemma_mul_bound(ay as int, by as int, CAMERA4_ACT_MAX as int, CAMERA4_BASIS_MAX as int);
        lemma_mul_bound(az as int, bz as int, CAMERA4_ACT_MAX as int, CAMERA4_BASIS_MAX as int);
        lemma_mul_bound(
            k as int,
            aw as int * bw as int + ax as int * bx as int + ay as int * by as int
                + az as int * bz as int,
            (CAMERA4_SPEED_MAX * CAMERA4_DT_MAX) as int,
            4 * (CAMERA4_ACT_MAX * CAMERA4_BASIS_MAX) as int,
        );
    }
    let dir: i64 = aw * bw + ax * bx + ay * by + az * bz;
    let total: i128 = 1000i128 * p as i128 + f as i128 + k as i128 * dir as i128;
    if total >= 0 {
        ((total / 1000) as i64, (total % 1000) as i64)
    } else {
        (-(((-total) / 1000) as i64), -(((-total) % 1000) as i64))
    }
}

proof fn lemma_camera4_basis(
    x0: int, x1: int, x2: int, x3: int,
    y0: int, y1: int, y2: int, y3: int,
    z0: int, z1: int, z2: int, z3: int,
) by (nonlinear_arith)
    requires
        x0 == 0 && x1 == 1 && x2 == 0 && x3 == 0,
        y0 == 0 && y1 == 0 && y2 == 1 && y3 == 0,
        z0 == 0 && z1 == 0 && z2 == 0 && z3 == -1,
    ensures
        x1 * (y2 * z3 - y3 * z2) - x2 * (y1 * z3 - y3 * z1) + x3 * (y1 * z2 - y2 * z1) == -1,
        -x0 * (y2 * z3 - y3 * z2) + x2 * (y0 * z3 - y3 * z0) - x3 * (y0 * z2 - y2 * z0) == 0,
        x0 * (y1 * z3 - y3 * z1) - x1 * (y0 * z3 - y3 * z0) + x3 * (y0 * z1 - y1 * z0) == 0,
        -x0 * (y1 * z2 - y2 * z1) + x1 * (y0 * z2 - y2 * z0) - x2 * (y0 * z1 - y1 * z0) == 0,
{
}

/// The orthographic box of the perspective camera stays within small
/// bounds: spatial half width at most 8 and depth planes at most 128 give
/// entries within two to the twentieth.
proof fn lemma_ortho4_short_scene_bounded(n: int, f: int, h: int)
    requires
        -CAMERA4_PLANE_MAX as int <= n <= CAMERA4_PLANE_MAX as int,
        -CAMERA4_PLANE_MAX as int <= f <= CAMERA4_PLANE_MAX as int,
        0 <= h <= CAMERA4_WIDTH_MAX as int,
    ensures
        mat5_bounded(ortho4_spec(-h, h, -h, h, -h, h, n, f), 1_048_576),
{
    let m = ortho4_spec(-h, h, -h, h, -h, h, n, f);
    let rs = 2 * h;
    let rw = n - f;
    lemma_mul_bound(rs, rs, 16, 16);
    lemma_mul_bound(rs * rs, rw, 256, 256);
    lemma_mul_bound(rs * rs, rs, 256, 16);
    lemma_mul_bound(rs * rs * rs, rw, 4096, 256);
    lemma_mul_bound(n + f, rs * rs * rs, 256, 4096);
    assert forall|k: int| 0 <= k < 25 implies -1_048_576 <= #[trigger] m[k] <= 1_048_576 by {
        assert(m[0] == 2 * (rs * rs * rw) && m[6] == 2 * (rs * rs * rw)
            && m[12] == 2 * (rs * rs * rw));
        assert(m[4] == -((-h + h) * (rs * rs * rw)) && m[9] == m[4] && m[14] == m[4]);
        assert(m[18] == 2 * (rs * rs * rs));
        assert(m[19] == -((n + f) * (rs * rs * rs)));
        assert(m[24] == rs * rs * rs * rw);
        assert(m[1] == 0 && m[2] == 0 && m[3] == 0 && m[5] == 0 && m[7] == 0 && m[8] == 0);
        assert(m[10] == 0 && m[11] == 0 && m[13] == 0 && m[15] == 0 && m[16] == 0 && m[17] == 0);
        assert(m[20] == 0 && m[21] == 0 && m[22] == 0 && m[23] == 0);
        lemma_zero_mul(rs * rs * rw);
    }
}

proof fn lemma_zero_mul(a: int) by (nonlinear_arith)
    ensures
        0 * a == 0,
        forall|p: int, q: int| p == -q ==> #[trigger] ((p + q) * a) == 0,
{
}

/// The perspective stage stays within small bounds for planes at most 128.
proof fn lemma_perspective4_scene_bounded(n: int, f: int)
    requires
        -CAMERA4_PLANE_MAX as int <= n <= CAMERA4_PLANE_MAX as int,
        -CAMERA4_PLANE_MAX as int <= f <= CAMERA4_PLANE_MAX as int,
    ensures
        mat5_bounded(perspective4_spec(n, f), 16640),
{
    let m = perspective4_spec(n, f);
    lemma_mul_bound(n, f, 128, 128);
    assert forall|k: int| 0 <= k < 25 implies -16640 <= #[trigger] m[k] <= 16640 by {
        assert(m[0] == n && m[6] == n && m[12] == n && m[18] == n + f && m[19] == -(n * f));
        assert(m[23] == 1);
        assert(m[1] == 0 && m[2] == 0 && m[3] == 0 && m[4] == 0 && m[5] == 0);
        assert(m[7] == 0 && m[8] == 0 && m[9] == 0 && m[10] == 0 && m[11] == 0);
        assert(m[13] == 0 && m[14] == 0 && m[15] == 0 && m[16] == 0 && m[17] == 0);
        assert(m[20] == 0 && m[21] == 0 && m[22] == 0 && m[24] == 0);
    }
}

/// A well-formed camera's projection and view are small enough that their
/// product fits 64-bit entries and stays within the general entry bound.
pub proof fn lemma_camera4_transform_fits(cam: &Camera4)
    requires
        cam.wf(),
    ensures
        mul5_fits(cam.proj_spec(), cam.view_spec()),
        mat5_bounded(cam.transform_spec(), MAT5_ENTRY_MAX as int),
        mat5_bounded(cam.proj_spec(), MAT5_ENTRY_MAX as int),
        mat5_bounded(cam.view_spec(), MAT5_ENTRY_MAX as int),
{
    lemma_mul5_fits_from_bounds(
        cam.proj_spec(), cam.view_spec(), CAMERA4_PROJ_MAX as int, 262149,
    );
}

} // verus!
