use raytracer::camera::{AccumState, Camera, HeldKeys, Key};
use raytracer::dispatch::{FramePass, TargetPair};
use raytracer::scene::Material;
use raytracer::world::World;

fn plain_materials(n: usize) -> Vec<Material> {
    (0..n)
        .map(|i| Material::new([i as u32; 4], 0, 0, 0))
        .collect()
}

fn fresh_world() -> World {
    let centers: Vec<[u32; 3]> = vec![[1, 2, 3], [4, 5, 6]];
    World::new(1920, 1080, &centers, plain_materials(2))
}

#[test]
fn counter_increments_by_one_and_caps_at_target() {
    let mut c = Camera::new(800, 600);
    assert_eq!(c.frames_to_render, 8);
    for expected in 1..=8u32 {
        c.increase_frame();
        assert_eq!(c.current_frame, expected);
    }
    // saturated: further submissions never push past the target
    c.increase_frame();
    c.increase_frame();
    assert_eq!(c.current_frame, 8);
}

#[test]
fn fresh_scene_eight_quiet_ticks_then_saturated() {
    let mut w = fresh_world();
    let mut seen = Vec::new();
    for _ in 0..8 {
        let out = w.tick_held();
        assert!(!out.changed);
        let pass = full_pass(&mut w);
        w.frame_submitted(&pass);
        seen.push(w.camera.current_frame);
    }
    assert_eq!(seen, vec![1, 2, 3, 4, 5, 6, 7, 8]);
    assert_eq!(w.camera.state(), AccumState::Saturated);
}

fn full_pass(w: &mut World) -> FramePass {
    let mut targets = TargetPair::new(w.camera.width, w.camera.height);
    let mut pass = FramePass::begin(&w.camera);
    pass.record_compute(&mut targets);
    pass.record_publish(&mut targets);
    pass.record_present(&targets);
    pass
}

#[test]
fn camera_move_mid_accumulation_resets_then_next_tick_shows_one() {
    let mut w = fresh_world();
    for _ in 0..5 {
        let pass = full_pass(&mut w);
        w.frame_submitted(&pass);
    }
    assert_eq!(w.camera.current_frame, 5);

    // a movement key fires mid-accumulation
    w.on_key_input(Key::KeyW, true);
    let out = w.tick_held();
    assert!(out.changed);
    assert_eq!(w.camera.current_frame, 0);

    // the next completed frame shows 1, not 6
    let pass = full_pass(&mut w);
    w.frame_submitted(&pass);
    assert_eq!(w.camera.current_frame, 1);
}

#[test]
fn quiet_events_leave_the_counter_alone() {
    let mut w = fresh_world();
    for _ in 0..3 {
        let pass = full_pass(&mut w);
        w.frame_submitted(&pass);
    }
    let out = w.tick_held();
    assert!(!out.changed);
    assert_eq!(w.camera.current_frame, 3);
    let out = w.on_key_input(Key::Other, true);
    assert!(!out.key.changed);
    assert_eq!(w.camera.current_frame, 3);
    // a release never touches the camera
    let out = w.on_key_input(Key::KeyW, false);
    assert!(!out.key.changed);
    assert_eq!(w.camera.current_frame, 3);
}

#[test]
fn scene_update_restarts_accumulation() {
    let mut w = fresh_world();
    for _ in 0..4 {
        let pass = full_pass(&mut w);
        w.frame_submitted(&pass);
    }
    w.scene_was_updated();
    assert_eq!(w.camera.current_frame, 0);
    assert!(!w.render_finished());
}

#[test]
fn progress_reports_the_pair() {
    let mut c = Camera::new(100, 100);
    c.increase_frame();
    assert_eq!(c.progress(), (1, 8));
    let held = HeldKeys::none();
    c.key_press(Key::KeyI, &held);
    assert_eq!(c.progress(), (0, 16));
}

#[test]
fn reset_render_zeroes_only_the_counter() {
    let mut c = Camera::new(100, 100);
    c.increase_frame();
    c.increase_frame();
    c.reset_render();
    assert_eq!(c.current_frame, 0);
    assert_eq!(c.frames_to_render, 8);
    c.increase_frame();
    c.scene_was_updated();
    assert_eq!(c.current_frame, 0);
}
