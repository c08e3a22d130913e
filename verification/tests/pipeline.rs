use raytracer::camera::{Camera, Key};
use raytracer::dispatch::{FramePass, PassStage, TargetPair};
use raytracer::next_frame_time;
use raytracer::scene::Material;
use raytracer::world::World;

fn plain_materials(n: usize) -> Vec<Material> {
    (0..n).map(|i| Material::new([i as u32; 4], 0, 0, 0)).collect()
}

fn fresh_world() -> World {
    let centers: Vec<[u32; 3]> = vec![[1, 2, 3], [4, 5, 6], [7, 8, 9]];
    World::new(1024, 768, &centers, plain_materials(2))
}

#[test]
fn frame_pass_walks_the_recording_protocol() {
    let c = Camera::new(320, 200);
    let mut targets = TargetPair::new(c.width, c.height);
    let mut pass = FramePass::begin(&c);
    assert_eq!(pass.stage, PassStage::Started);
    assert_eq!(pass.frame, 0);
    pass.record_compute(&mut targets);
    assert_eq!(pass.stage, PassStage::Computed);
    pass.record_publish(&mut targets);
    assert_eq!(pass.stage, PassStage::Published);
    pass.record_present(&targets);
    assert_eq!(pass.stage, PassStage::Presented);
}

#[test]
fn resize_recreates_both_textures_at_the_new_size() {
    let mut c = Camera::new(800, 600);
    let mut targets = TargetPair::new(c.width, c.height);
    assert!(targets.matches_viewport(&c));

    // the window grew: the camera viewport moves first, the textures lag
    c.set_resolution(1280, 720);
    assert!(!targets.matches_viewport(&c));

    // recreating both textures must come before the next dispatch
    targets.resize(c.width, c.height);
    assert_eq!((targets.width, targets.height), (1280, 720));
    assert!(targets.matches_viewport(&c));
    assert_eq!(targets.dispatch_grid(), (1280, 720, 1));
}

#[test]
fn dispatch_grid_covers_the_viewport() {
    let targets = TargetPair::new(1920, 1080);
    assert_eq!(targets.dispatch_grid(), (1920, 1080, 1));
}

#[test]
fn world_reload_preserves_pose_and_replaces_scene() {
    let mut w = fresh_world();
    w.camera.set_position([11, 22, 33]);
    w.camera.set_look([44, 55, 66]);
    w.on_key_input(Key::KeyK, true); // samples 2
    let pass = walk_pass(&mut w);
    w.frame_submitted(&pass);
    assert_eq!(w.camera.current_frame, 1);

    let new_centers: Vec<[u32; 3]> = vec![[9, 9, 9]];
    w.reload(&new_centers, plain_materials(4));

    // pose carried across the reload
    assert_eq!(w.camera.pos, [11, 22, 33]);
    assert_eq!(w.camera.look, [44, 55, 66]);
    // every other camera field back at its default
    assert_eq!(w.camera.samples_per_pixel, 1);
    assert_eq!(w.camera.frames_to_render, 8);
    assert_eq!(w.camera.current_frame, 0);
    assert_eq!((w.camera.width, w.camera.height), (1024, 768));
    // the scene replaced entirely
    assert_eq!(w.scene.spheres.len(), 1);
    assert_eq!(w.scene.materials.len(), 4);
}

fn walk_pass(w: &mut World) -> FramePass {
    let mut targets = TargetPair::new(w.camera.width, w.camera.height);
    let mut pass = FramePass::begin(&w.camera);
    pass.record_compute(&mut targets);
    pass.record_publish(&mut targets);
    pass.record_present(&targets);
    pass
}

#[test]
fn reload_key_is_routed() {
    let mut w = fresh_world();
    let out = w.on_key_input(Key::KeyR, true);
    assert!(out.reload_requested);
    let out = w.on_key_input(Key::KeyR, false);
    assert!(!out.reload_requested);
    let out = w.on_key_input(Key::KeyK, true);
    assert!(!out.reload_requested);
}

#[test]
fn key_routing_updates_held_set_and_camera() {
    let mut w = fresh_world();
    let out = w.on_key_input(Key::KeyW, true);
    assert!(out.key.changed);
    assert_eq!(out.key.move_forward, 1);
    let out = w.on_key_input(Key::KeyW, false);
    assert!(!out.key.changed);
    let out = w.tick_held();
    assert!(!out.changed);
    assert_eq!(out.move_forward, 0);
}

#[test]
fn next_frame_time_is_in_the_future() {
    let before = std::time::Instant::now();
    let deadline = next_frame_time(50);
    assert!(deadline > before);
    assert!(deadline <= std::time::Instant::now() + std::time::Duration::from_millis(50));
}
