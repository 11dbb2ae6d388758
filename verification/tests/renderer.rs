use render4d::math4::{cross, cross4, dot4_exec, Vec4};
use render4d::mat4::Mat4;
use render4d::mat5::{
    apply_point4, mat5_mul, ortho4_short, perspective4, ratate4_xy, ratate4_zw, scale4,
    translate4, Mat5, Vec5,
};
use render4d::buffer::{buffer_size_for, BufferModel, BufferUsage, MemoryHome};
use render4d::camera4::Camera4;
use render4d::camera_proj3::CameraProj3;
use render4d::camera_proj4::CameraProj4;
use render4d::entities::{Cube, Hypercube, Simplex, Triangle};
use render4d::fps::FPScalculator;
use render4d::frame::{acquire_disposition, FenceDevice, FrameLoop, FrameStep};
use render4d::input::{CameraEvent, KEY_O, KEY_W, KEY_Y};
use render4d::swapchain::{
    choose_image_count, choose_surface_resolution, teardown_order, ChainResource, PresentChain,
};

fn unit_axes() -> (Vec4, Vec4, Vec4, Vec4) {
    (
        Vec4 { x: 1, y: 0, z: 0, w: 0 },
        Vec4 { x: 0, y: 1, z: 0, w: 0 },
        Vec4 { x: 0, y: 0, z: 1, w: 0 },
        Vec4 { x: 0, y: 0, z: 0, w: 1 },
    )
}

#[test]
fn cross4_is_orthogonal_to_its_arguments() {
    let a = Vec4 { x: 1, y: 2, z: 3, w: 4 };
    let b = Vec4 { x: -5, y: 6, z: -7, w: 8 };
    let c = Vec4 { x: 9, y: 0, z: 2, w: -3 };
    let d = cross4(&a, &b, &c);
    assert_eq!(dot4_exec(&a, &d), 0);
    assert_eq!(dot4_exec(&b, &d), 0);
    assert_eq!(dot4_exec(&c, &d), 0);
}

#[test]
fn cross4_of_unit_axes_is_unit() {
    let (e0, e1, e2, _) = unit_axes();
    let d = cross4(&e0, &e1, &e2);
    assert_eq!(d, Vec4 { x: 0, y: 0, z: 0, w: -1 });
    assert_eq!(dot4_exec(&d, &d), 1);
}

#[test]
fn cross4_of_rearranged_axes_is_unit() {
    let x = Vec4 { x: 0, y: 1, z: 0, w: 0 };
    let y = Vec4 { x: 0, y: 0, z: -1, w: 0 };
    let z = Vec4 { x: 1, y: 0, z: 0, w: 0 };
    let d = cross4(&x, &y, &z);
    assert_eq!(d, Vec4 { x: 0, y: 0, z: 0, w: 1 });
    assert_eq!(dot4_exec(&d, &d), 1);
}

#[test]
fn cross_minors_differ_from_cross4_by_alternating_sign() {
    let (e0, e1, e2, _) = unit_axes();
    let m = cross(&e0, &e1, &e2);
    assert_eq!(m, Vec4 { x: 0, y: 0, z: 0, w: 1 });
}

#[test]
fn view4_maps_camera_position_to_origin() {
    let (x, y, z, w) = unit_axes();
    let p = Vec4 { x: 3, y: -4, z: 5, w: 6 };
    let v = render4d::mat5::view4(&p, &x, &y, &z, &w);
    let r = apply_point4(&v, &p);
    assert_eq!(r, Vec5 { x: 0, y: 0, z: 0, w: 0, h: 1 });
}

#[test]
fn translation_column_for_scene_camera() {
    let m = translate4(&Mat5::identity(), &Vec4 { x: -20, y: 0, z: 0, w: 0 });
    assert_eq!(m.at(0, 4), -20);
    assert_eq!(m.at(1, 4), 0);
    assert_eq!(m.at(2, 4), 0);
    assert_eq!(m.at(3, 4), 0);
    assert_eq!(m.at(4, 4), 1);
}

#[test]
fn scene_camera_stands_still_without_input() {
    let cam3 = CameraProj3::new(Mat4::identity(), Mat4::identity());
    let mut cam = CameraProj4::new(cam3);
    assert_eq!(cam.position(), Vec4 { x: 20, y: 0, z: 0, w: 0 });
    cam.update_view(0);
    assert_eq!(cam.position(), Vec4 { x: 20, y: 0, z: 0, w: 0 });
    cam.update_view(100);
    assert_eq!(cam.position(), Vec4 { x: 20, y: 0, z: 0, w: 0 });
}

#[test]
fn scene_camera_first_update_moves_nothing() {
    let cam3 = CameraProj3::new(Mat4::identity(), Mat4::identity());
    let mut cam = CameraProj4::new(cam3);
    cam.handle_event(&CameraEvent::Key { code: KEY_O, pressed: true });
    // The very first update only establishes the time baseline.
    cam.update_view(50);
    assert_eq!(cam.position(), Vec4 { x: 20, y: 0, z: 0, w: 0 });
    assert_eq!(cam.position_fraction(), Vec4 { x: 0, y: 0, z: 0, w: 0 });
    // Ten units per second for 200 milliseconds is two whole units along
    // the axis the held key drives.
    cam.update_view(200);
    assert_eq!(cam.position(), Vec4 { x: 20, y: 0, z: 0, w: -2 });
    assert_eq!(cam.position_fraction(), Vec4 { x: 0, y: 0, z: 0, w: 0 });
}

#[test]
fn sub_unit_motion_is_carried_not_lost() {
    let cam3 = CameraProj3::new(Mat4::identity(), Mat4::identity());
    let mut cam = CameraProj4::new(cam3);
    cam.handle_event(&CameraEvent::Key { code: KEY_O, pressed: true });
    cam.update_view(50);
    // Ten units per second for 10 milliseconds is a tenth of a unit: the
    // whole-unit position stays put and the residue is carried.
    cam.update_view(10);
    assert_eq!(cam.position(), Vec4 { x: 20, y: 0, z: 0, w: 0 });
    assert_eq!(cam.position_fraction(), Vec4 { x: 0, y: 0, z: 0, w: -100 });
    // Another 190 milliseconds completes two whole units in total.
    cam.update_view(190);
    assert_eq!(cam.position(), Vec4 { x: 20, y: 0, z: 0, w: -2 });
    assert_eq!(cam.position_fraction(), Vec4 { x: 0, y: 0, z: 0, w: 0 });
}

#[test]
fn uniform_payload_reconstructs_transform() {
    let cam3 = CameraProj3::new(Mat4::identity(), Mat4::identity());
    let cam = CameraProj4::new(cam3);
    let t = cam.transform();
    let u = cam.data(&Mat5::identity());
    for i in 0..4 {
        for j in 0..4 {
            assert_eq!(u.cam4_trans.at(i, j), t.at(i, j));
        }
    }
    let col = [u.cam4_col.x, u.cam4_col.y, u.cam4_col.z, u.cam4_col.w];
    let row = [u.cam4_row.x, u.cam4_row.y, u.cam4_row.z, u.cam4_row.w];
    for i in 0..4 {
        assert_eq!(col[i], t.at(i, 4));
        assert_eq!(row[i], t.at(4, i));
    }
    assert_eq!(u.cam4_const, t.at(4, 4));
    assert_eq!(u.cam3_trans, Mat4::identity());
}

#[test]
fn frame_loop_counts_one_submission_per_slot() {
    let mut fl = FrameLoop::new(2, 3);
    let mut dev = FenceDevice::new(2);
    assert_eq!(fl.image_count(), 3);
    fl.render_frame(&mut dev, 0);
    assert_eq!(dev.outstanding(0), 1);
    fl.render_frame(&mut dev, 1);
    assert_eq!(dev.outstanding(1), 1);
    // The third image aliases slot zero again; its fence was drained first.
    fl.render_frame(&mut dev, 2);
    assert_eq!(dev.outstanding(0), 1);
    assert_eq!(fl.current_slot(), 1);
}

#[test]
fn frame_loop_runs_many_frames() {
    let mut fl = FrameLoop::new(2, 3);
    let mut dev = FenceDevice::new(2);
    let schedule = vec![0usize, 1, 2, 0, 2, 1, 0, 1, 2, 2, 1, 0];
    fl.run_frames(&mut dev, &schedule);
    assert!(dev.outstanding(0) <= 1);
    assert!(dev.outstanding(1) <= 1);
    // Twelve frames over two slots bring the slot index back to the start.
    assert_eq!(fl.current_slot(), 0);
}

#[test]
fn out_of_date_acquire_triggers_rebuild() {
    assert_eq!(acquire_disposition(true, 7), FrameStep::RebuildChain);
    assert_eq!(acquire_disposition(false, 7), FrameStep::Render { image: 7 });
}

#[test]
fn rebuild_keeps_image_count_and_matches_resolution() {
    let mut chain = PresentChain::new(2, 3, 800, 600);
    let before = chain.image_count();
    assert_eq!(chain.framebuffer_extent(), (800, 600));
    chain.rebuild(2, 3, 400, 300);
    assert_eq!(chain.image_count(), before);
    assert_eq!(chain.framebuffer_extent(), (400, 300));
}

#[test]
fn image_count_is_min_plus_one_capped_at_max() {
    assert_eq!(choose_image_count(2, 3), 3);
    assert_eq!(choose_image_count(2, 0), 3);
    assert_eq!(choose_image_count(2, 8), 3);
}

#[test]
fn surface_resolution_sentinel_falls_back() {
    assert_eq!(choose_surface_resolution(u32::MAX, 5, 800, 600), (800, 600));
    assert_eq!(choose_surface_resolution(1024, 768, 800, 600), (1024, 768));
}

#[test]
fn teardown_destroys_users_before_used() {
    let order = teardown_order();
    assert_eq!(order.len(), 8);
    assert_eq!(order[0], ChainResource::DepthResources);
    assert_eq!(order[2], ChainResource::Framebuffers);
    assert_eq!(order[4], ChainResource::ImageViews);
    assert_eq!(order[7], ChainResource::DescriptorPool);
}

#[test]
fn repeated_press_counts_once() {
    let cam3 = CameraProj3::new(Mat4::identity(), Mat4::identity());
    let mut cam = CameraProj4::new(cam3);
    let press = CameraEvent::Key { code: KEY_O, pressed: true };
    cam.handle_event(&press);
    cam.handle_event(&press);
    let (_, _, _, act_z) = cam.axis_values();
    assert_eq!(act_z, 1);
    cam.handle_event(&CameraEvent::Key { code: KEY_O, pressed: false });
    let (_, _, _, act_z) = cam.axis_values();
    assert_eq!(act_z, 0);
}

#[test]
fn repeated_press_counts_once_in_3d_stage() {
    let mut cam = CameraProj3::new(Mat4::identity(), Mat4::identity());
    let press = CameraEvent::Key { code: KEY_W, pressed: true };
    cam.handle_event(&press);
    cam.handle_event(&press);
    let (forward, _, _) = cam.axis_values();
    assert_eq!(forward, 1);
}

#[test]
fn pointer_motion_accumulates_and_update_consumes() {
    let cam3 = CameraProj3::new(Mat4::identity(), Mat4::identity());
    let mut cam = CameraProj4::new(cam3);
    cam.handle_event(&CameraEvent::MouseMotion { dx: 3, dy: -2 });
    cam.handle_event(&CameraEvent::MouseMotion { dx: 3, dy: -2 });
    assert_eq!(cam.rotation_values(), (6, -4));
    cam.update_view(0);
    assert_eq!(cam.rotation_values(), (0, 0));
}

#[test]
fn button_transitions_touch_no_axis() {
    let cam3 = CameraProj3::new(Mat4::identity(), Mat4::identity());
    let mut cam = CameraProj4::new(cam3);
    cam.handle_event(&CameraEvent::Button { id: 1, pressed: true });
    assert_eq!(cam.axis_values(), (0, 0, 0, 0));
}

#[test]
fn fps_reading_counts_between_baselines() {
    let mut fps = FPScalculator::new();
    fps.count_one_frame();
    fps.count_one_frame();
    fps.count_one_frame();
    assert_eq!(fps.fps(1_000_000), None);
    fps.count_one_frame();
    fps.count_one_frame();
    assert_eq!(fps.fps(3_000_000), Some((2, 2_000_000)));
}

#[test]
fn buffer_write_rules() {
    let host = BufferModel::new(64, BufferUsage::TransferSrc, MemoryHome::HostVisible);
    assert!(host.can_set_data(64));
    assert!(!host.can_set_data(65));
    let device = BufferModel::new(64, BufferUsage::Vertex, MemoryHome::DeviceOnly);
    assert!(!device.can_set_data(1));
}

#[test]
fn staged_upload_fills_destination() {
    let mut staging = BufferModel::new(64, BufferUsage::TransferSrc, MemoryHome::HostVisible);
    staging.set_data(64);
    let mut vertex = BufferModel::new(64, BufferUsage::Vertex, MemoryHome::DeviceOnly);
    vertex.transform_from(&staging);
    assert_eq!(vertex.buffer_size(), 64);
}

#[test]
fn buffer_size_checks_overflow() {
    assert_eq!(buffer_size_for(10, 4), Some(40));
    assert_eq!(buffer_size_for(u64::MAX, 2), None);
}

#[test]
fn simplex_has_five_vertices_and_ten_triangles() {
    let s = Simplex::new();
    let vertices = s.vertices();
    let indices = s.indices();
    assert_eq!(vertices.len(), 5);
    assert_eq!(indices.len(), 30);
    assert_eq!(vertices[0].pos, [-1, -1, -1, -1]);
    assert_eq!(vertices[0].color, [2, 0, 0]);
    assert_eq!(&indices[0..3], &[0, 1, 2]);
    assert_eq!(&indices[27..30], &[2, 3, 4]);
    assert_eq!(s.transform().at(0, 0), 1);
    assert_eq!(s.transform().at(0, 1), 0);
}

#[test]
fn hypercube_has_sixteen_vertices() {
    let h = Hypercube::new();
    assert_eq!(h.vertices().len(), 16);
    assert_eq!(h.indices().len(), 144);
    assert_eq!(h.vertices()[15].pos, [1, 1, 1, 1]);
}

#[test]
fn cube_and_triangle_geometry() {
    let c = Cube::new();
    assert_eq!(c.vertices().len(), 8);
    assert_eq!(c.indices().len(), 36);
    let t = Triangle::new();
    assert_eq!(t.vertices().len(), 3);
    assert_eq!(t.indices().len(), 3);
    assert_eq!(t.vertices()[0].pos, [0, -1, 0]);
}

#[test]
fn cube_update_installs_rotation() {
    let mut c = Cube::new();
    c.update(5, 3);
    let m = c.transform();
    assert_eq!(m.at(0, 0), 1);
    assert_eq!(m.at(1, 1), 5);
    assert_eq!(m.at(1, 2), -3);
    assert_eq!(m.at(2, 1), 3);
    assert_eq!(m.at(3, 3), 1);
}

#[test]
fn ortho_and_perspective_entries() {
    let o = ortho4_short(-100, 100, 100);
    assert_eq!(o.at(0, 0), -16_000_000);
    assert_eq!(o.at(0, 4), 0);
    assert_eq!(o.at(3, 3), 16_000_000);
    assert_eq!(o.at(4, 4), -1_600_000_000);
    let p = perspective4(-100, 100);
    assert_eq!(p.at(0, 0), -100);
    assert_eq!(p.at(3, 3), 0);
    assert_eq!(p.at(3, 4), 10_000);
    assert_eq!(p.at(4, 3), 1);
}

#[test]
fn plane_rotations_touch_their_plane_only() {
    let r = ratate4_xy(3, 4);
    assert_eq!(r.at(0, 0), 3);
    assert_eq!(r.at(0, 1), 4);
    assert_eq!(r.at(1, 0), -4);
    assert_eq!(r.at(1, 1), 3);
    assert_eq!(r.at(2, 2), 1);
    let r = ratate4_zw(3, 4);
    assert_eq!(r.at(3, 3), 3);
    assert_eq!(r.at(3, 2), 4);
    assert_eq!(r.at(2, 3), -4);
    assert_eq!(r.at(0, 0), 1);
}

#[test]
fn scaling_scales_each_column() {
    let m = translate4(&Mat5::identity(), &Vec4 { x: 7, y: 8, z: 9, w: 10 });
    let s = scale4(&m, &Vec5 { x: 2, y: 3, z: 4, w: 5, h: 6 });
    assert_eq!(s.at(0, 0), 2);
    assert_eq!(s.at(1, 1), 3);
    assert_eq!(s.at(2, 2), 4);
    assert_eq!(s.at(3, 3), 5);
    assert_eq!(s.at(0, 4), 42);
    assert_eq!(s.at(4, 4), 6);
}

#[test]
fn identity_multiplication_changes_nothing() {
    let o = ortho4_short(-100, 100, 100);
    let m = mat5_mul(&o, &Mat5::identity());
    for i in 0..5 {
        for j in 0..5 {
            assert_eq!(m.at(i, j), o.at(i, j));
        }
    }
}

#[test]
fn perspective_camera_basis_and_motion() {
    let cam3 = CameraProj3::new(Mat4::identity(), Mat4::identity());
    let mut cam = Camera4::new(cam3, -1, -100, 1);
    assert_eq!(cam.position(), Vec4 { x: 0, y: 0, z: 0, w: 4 });
    assert_eq!(cam.w(), Vec4 { x: 0, y: 0, z: 0, w: -1 });
    assert_eq!(cam.x(), Vec4 { x: -1, y: 0, z: 0, w: 0 });
    assert_eq!(cam.y(), Vec4 { x: 0, y: 1, z: 0, w: 0 });
    assert_eq!(cam.z(), Vec4 { x: 0, y: 0, z: 1, w: 0 });
    cam.handle_event(&CameraEvent::Key { code: KEY_O, pressed: true });
    let (act_w, _, _, _) = cam.axis_values();
    assert_eq!(act_w, 1);
    // One unit per second: ten frames of a hundred milliseconds each move
    // one whole unit along the forward axis.
    cam.update_view(50);
    for _ in 0..10 {
        cam.update_view(100);
    }
    assert_eq!(cam.position(), Vec4 { x: 0, y: 0, z: 0, w: 3 });
}

#[test]
fn perspective_camera_press_release_cancels() {
    let cam3 = CameraProj3::new(Mat4::identity(), Mat4::identity());
    let mut cam = Camera4::new(cam3, -1, -100, 1);
    cam.handle_event(&CameraEvent::Key { code: KEY_O, pressed: true });
    cam.handle_event(&CameraEvent::Key { code: KEY_O, pressed: false });
    assert_eq!(cam.axis_values(), (0, 0, 0, 0));
}

#[test]
fn perspective_camera_moved_directly() {
    let cam3 = CameraProj3::new(Mat4::identity(), Mat4::identity());
    let mut cam = Camera4::new(cam3, -1, -100, 1);
    cam.set_position(Vec4 { x: 1, y: 2, z: 3, w: 4 });
    assert_eq!(cam.position(), Vec4 { x: 1, y: 2, z: 3, w: 4 });
}

#[test]
fn perspective_camera_key_mapping_differs() {
    let cam3 = CameraProj3::new(Mat4::identity(), Mat4::identity());
    let mut cam = Camera4::new(cam3, -1, -100, 1);
    let press = CameraEvent::Key { code: KEY_Y, pressed: true };
    cam.handle_event(&press);
    // The repeated press is a no-op, not a second unit.
    cam.handle_event(&press);
    let (act_w, act_x, _, _) = cam.axis_values();
    assert_eq!(act_w, 0);
    assert_eq!(act_x, 1);
}
