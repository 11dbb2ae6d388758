//! The embedded three-dimensional camera stage.
//!
//! It carries the fixed 4x4 view and projection that map the already reduced
//! 3-point to clip space, and the same de-duplicated input accumulators as
//! the four-dimensional camera. Its spatial motion and pointer-driven basis
//! rotation need trigonometric rebuilds of the 4x4 matrices, which only the
//! floating-point shell can perform; the shell installs the rebuilt matrices
//! through `set_view`.

use vstd::prelude::*;
use std::collections::HashMap;
use crate::mat4::{Mat4, mat4_bounded, mul4_spec, mat4_mul, lemma_mul4_fits_from_bounds};
use crate::input::{
    CameraEvent, event_factor, key_slot, button_slot,
    KEY_W, KEY_S, KEY_D, KEY_A, KEY_C, KEY_V,
};

verus! {

broadcast use vstd::std_specs::hash::group_hash_axioms;

/// Bound on the 4x4 matrix entries a 3D camera accepts, chosen so that the
/// product of its two matrices always fits 64-bit entries.
pub const CAM3_MAT_MAX: i64 = 1_073_741_824;

/// A pinhole camera for the conventional 3D stage.
pub struct CameraProj3 {
    view: Mat4,
    proj: Mat4,
    input_map: HashMap<u64, bool>,
    act_forward: i64,
    act_right: i64,
    act_up: i64,
    act_yaw: i64,
    act_pitch: i64,
}

impl CameraProj3 {
    /// The two matrices are small enough to multiply.
    pub closed spec fn wf(&self) -> bool {
        &&& mat4_bounded(self.view@, CAM3_MAT_MAX as int)
        &&& mat4_bounded(self.proj@, CAM3_MAT_MAX as int)
    }

    pub closed spec fn view_spec(&self) -> Seq<int> {
        self.view@
    }

    pub closed spec fn proj_spec(&self) -> Seq<int> {
        self.proj@
    }

    pub closed spec fn forward_spec(&self) -> int {
        self.act_forward as int
    }

    pub closed spec fn right_spec(&self) -> int {
        self.act_right as int
    }

    pub closed spec fn up_spec(&self) -> int {
        self.act_up as int
    }

    pub closed spec fn yaw_spec(&self) -> int {
        self.act_yaw as int
    }

    pub closed spec fn pitch_spec(&self) -> int {
        self.act_pitch as int
    }

    pub closed spec fn input_spec(&self) -> Map<u64, bool> {
        self.input_map@
    }

    /// What one event does to this camera's state: the recorded inputs, the
    /// three movement accumulators and the two rotation accumulators after
    /// the event, as functions of the state before it.
    pub open spec fn after_event(&self, pre: &CameraProj3, event: CameraEvent) -> bool {
        match event {
            CameraEvent::Key { code, pressed } => {
                let f = event_factor(pre.input_spec(), key_slot(code), pressed);
                &&& self.input_spec() == pre.input_spec().insert(key_slot(code), pressed)
                &&& self.forward_spec() == pre.forward_spec()
                    + (if code == KEY_W { f } else if code == KEY_S { -f } else { 0 })
                &&& self.right_spec() == pre.right_spec()
                    + (if code == KEY_D { f } else if code == KEY_A { -f } else { 0 })
                &&& self.up_spec() == pre.up_spec()
                    + (if code == KEY_C { f } else if code == KEY_V { -f } else { 0 })
                &&& self.yaw_spec() == pre.yaw_spec()
                &&& self.pitch_spec() == pre.pitch_spec()
            },
            CameraEvent::MouseMotion { dx, dy } => {
                &&& self.input_spec() == pre.input_spec()
                &&& self.forward_spec() == pre.forward_spec()
                &&& self.right_spec() == pre.right_spec()
                &&& self.up_spec() == pre.up_spec()
                &&& self.yaw_spec() == pre.yaw_spec() + dx
                &&& self.pitch_spec() == pre.pitch_spec() + dy
            },
            CameraEvent::Button { id, pressed } => {
                &&& self.input_spec() == pre.input_spec().insert(button_slot(id), pressed)
                &&& self.forward_spec() == pre.forward_spec()
                &&& self.right_spec() == pre.right_spec()
                &&& self.up_spec() == pre.up_spec()
                &&& self.yaw_spec() == pre.yaw_spec()
                &&& self.pitch_spec() == pre.pitch_spec()
            },
        }
    }

    /// The accumulators an event may touch stay clear of the 64-bit limits,
    /// so one more unit or one pointer delta still fits.
    pub open spec fn event_fits(&self, event: CameraEvent) -> bool {
        match event {
            CameraEvent::Key { code, pressed } => {
                &&& i64::MIN < self.forward_spec() < i64::MAX
                &&& i64::MIN < self.right_spec() < i64::MAX
                &&& i64::MIN < self.up_spec() < i64::MAX
            },
            CameraEvent::MouseMotion { dx, dy } => {
                &&& i64::MIN <= self.yaw_spec() + dx <= i64::MAX
                &&& i64::MIN <= self.pitch_spec() + dy <= i64::MAX
            },
            CameraEvent::Button { id, pressed } => true,
        }
    }

    /// A camera over the given view and projection matrices, with no input
    /// recorded yet.
    pub fn new(view: Mat4, proj: Mat4) -> (r: CameraProj3)
        requires
            mat4_bounded(view@, CAM3_MAT_MAX as int),
            mat4_bounded(proj@, CAM3_MAT_MAX as int),
        ensures
            r.wf(),
            r.view_spec() == view@,
            r.proj_spec() == proj@,
            r.input_spec() == Map::<u64, bool>::empty(),
            r.forward_spec() == 0,
            r.right_spec() == 0,
            r.up_spec() == 0,
            r.yaw_spec() == 0,
            r.pitch_spec() == 0,
    {
        CameraProj3 {
            view,
            proj,
            input_map: HashMap::new(),
            act_forward: 0,
            act_right: 0,
            act_up: 0,
            act_yaw: 0,
            act_pitch: 0,
        }
    }

    /// Replaces the view matrix with one rebuilt outside (after motion or a
    /// pointer-driven rotation).
    pub fn set_view(&mut self, view: Mat4)
        requires
            old(self).wf(),
            mat4_bounded(view@, CAM3_MAT_MAX as int),
        ensures
            final(self).wf(),
            final(self).view_spec() == view@,
            final(self).proj_spec() == old(self).proj_spec(),
            final(self).input_spec() == old(self).input_spec(),
            final(self).forward_spec() == old(self).forward_spec(),
            final(self).right_spec() == old(self).right_spec(),
            final(self).up_spec() == old(self).up_spec(),
            final(self).yaw_spec() == old(self).yaw_spec(),
            final(self).pitch_spec() == old(self).pitch_spec(),
    {
        self.view = view;
    }


    /// The three axis authorities, forward, right and up.
    pub fn axis_values(&self) -> (r: (i64, i64, i64))
        ensures
            r.0 as int == self.forward_spec(),
            r.1 as int == self.right_spec(),
            r.2 as int == self.up_spec(),
    {
        (self.act_forward, self.act_right, self.act_up)
    }

    /// The accumulated pointer rotation, yaw then pitch.
    pub fn rotation_values(&self) -> (r: (i64, i64))
        ensures
            r.0 as int == self.yaw_spec(),
            r.1 as int == self.pitch_spec(),
    {
        (self.act_yaw, self.act_pitch)
    }

    /// The combined transform: projection times view.
    pub fn transform(&self) -> (r: Mat4)
        requires
            self.wf(),
        ensures
            r@ == mul4_spec(self.proj_spec(), self.view_spec()),
    {
        proof {
            lemma_mul4_fits_from_bounds(
                self.proj@,
                self.view@,
                CAM3_MAT_MAX as int,
                CAM3_MAT_MAX as int,
            );
        }
        mat4_mul(&self.proj, &self.view)
    }

    /// Consumes the accumulated pointer rotation for this frame: yaw and
    /// pitch return to zero, everything else is untouched. The trigonometric
    /// view rebuild that uses them happens outside and lands via `set_view`.
    pub fn update_view(&mut self, dt: i64)
        requires
            old(self).wf(),
            0 <= dt,
        ensures
            final(self).wf(),
            final(self).yaw_spec() == 0,
            final(self).pitch_spec() == 0,
            final(self).view_spec() == old(self).view_spec(),
            final(self).proj_spec() == old(self).proj_spec(),
            final(self).input_spec() == old(self).input_spec(),
            final(self).forward_spec() == old(self).forward_spec(),
            final(self).right_spec() == old(self).right_spec(),
            final(self).up_spec() == old(self).up_spec(),
    {
        self.act_yaw = 0;
        self.act_pitch = 0;
    }

    /// Routes one input event: key transitions feed the de-duplicated axis
    /// accumulators, pointer motion accumulates yaw and pitch unbounded, and
    /// button transitions are recorded without touching any axis.
    pub fn handle_event(&mut self, event: &CameraEvent)
        requires
            old(self).wf(),
            old(self).event_fits(*event),
        ensures
            final(self).wf(),
            final(self).view_spec() == old(self).view_spec(),
            final(self).proj_spec() == old(self).proj_spec(),
            final(self).after_event(old(self), *event),
    {
        match *event {
            CameraEvent::Key { code, pressed } => {
                let prev = self.input_map.insert(code as u64, pressed);
                let same = match prev {
                    Some(p) => p == pressed,
                    None => false,
                };
                let factor: i64 = if same {
                    0
                } else if pressed {
                    1
                } else {
                    -1
                };
                if code == KEY_W {
                    self.act_forward = self.act_forward + factor;
                } else if code == KEY_S {
                    self.act_forward = self.act_forward - factor;
                } else if code == KEY_D {
                    self.act_right = self.act_right + factor;
                } else if code == KEY_A {
                    self.act_right = self.act_right - factor;
                } else if code == KEY_C {
                    self.act_up = self.act_up + factor;
                } else if code == KEY_V {
                    self.act_up = self.act_up - factor;
                }
            }
            CameraEvent::MouseMotion { dx, dy } => {
                self.act_yaw = self.act_yaw + dx;
                self.act_pitch = self.act_pitch + dy;
            }
            CameraEvent::Button { id, pressed } => {
                self.input_map.insert(0x1_0000_0000u64 + id as u64, pressed);
            }
        }
    }

    /// The device-event route of the original delivery path: it feeds the
    /// same state as `handle_event`.
    pub fn handle_device_event(&mut self, event: &CameraEvent)
        requires
            old(self).wf(),
            old(self).event_fits(*event),
        ensures
            final(self).wf(),
            final(self).view_spec() == old(self).view_spec(),
            final(self).proj_spec() == old(self).proj_spec(),
            final(self).after_event(old(self), *event),
    {
        self.handle_event(event)
    }
}

} // verus!
