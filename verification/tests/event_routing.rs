use raytracer::camera::{CursorRequest, Key, MouseButtonKind};
use raytracer::scene::Material;
use raytracer::world::{Event, World};

fn plain_materials(n: usize) -> Vec<Material> {
    (0..n).map(|i| Material::new([i as u32; 4], 0, 0, 0)).collect()
}

fn fresh_world() -> World {
    let centers: Vec<[u32; 3]> = vec![[1, 2, 3]];
    World::new(640, 480, &centers, plain_materials(2))
}

#[test]
fn key_events_route_to_the_camera() {
    let mut w = fresh_world();
    let out = w.on_event(Event::KeyDown(Key::KeyK));
    assert!(out.changed);
    assert_eq!(w.camera.samples_per_pixel, 2);
    let movement = out.movement.expect("a key press reports its requests");
    assert_eq!(movement.move_forward, 0);

    let out = w.on_event(Event::KeyDown(Key::KeyW));
    assert!(out.changed);
    assert_eq!(out.movement.unwrap().move_forward, 1);

    let out = w.on_event(Event::KeyUp(Key::KeyW));
    assert!(!out.changed);
    let out = w.on_event(Event::KeyDown(Key::Other));
    assert!(!out.changed);
}

#[test]
fn reload_key_routes_through_events() {
    let mut w = fresh_world();
    let out = w.on_event(Event::KeyDown(Key::KeyR));
    assert!(out.reload_requested);
    let out = w.on_event(Event::KeyUp(Key::KeyR));
    assert!(!out.reload_requested);
}

#[test]
fn modifier_tracking_gates_the_scroll_zoom() {
    let mut w = fresh_world();
    w.camera.increase_frame();

    // without the modifier the scroll is ignored
    let out = w.on_event(Event::Scroll);
    assert!(!out.changed);
    assert!(!out.zoom_scroll);
    assert_eq!(w.camera.current_frame, 1);

    // the modifier set changes, then the scroll is accepted
    let out = w.on_event(Event::ModifiersChanged { zoom_modifier: true });
    assert!(!out.changed);
    let out = w.on_event(Event::Scroll);
    assert!(out.changed);
    assert!(out.zoom_scroll);
    assert_eq!(w.camera.current_frame, 0);

    // and releasing the modifier gates it again
    w.camera.increase_frame();
    w.on_event(Event::ModifiersChanged { zoom_modifier: false });
    let out = w.on_event(Event::Scroll);
    assert!(!out.changed);
    assert_eq!(w.camera.current_frame, 1);
}

#[test]
fn resize_event_resets_accumulation_and_requests_recreation() {
    let mut w = fresh_world();
    w.camera.increase_frame();
    let out = w.on_event(Event::Resize { width: 1280, height: 720 });
    assert!(out.changed);
    assert!(out.resized);
    assert_eq!((w.camera.width, w.camera.height), (1280, 720));
    assert_eq!(w.camera.current_frame, 0);
}

#[test]
fn mouse_events_route_to_the_drag_protocol() {
    let mut w = fresh_world();
    let inv: [u32; 16] = core::array::from_fn(|i| 500 + i as u32);

    let out = w.on_event(Event::MouseMove { pos: [5, 5] });
    assert!(!out.changed);
    assert!(out.look_from.is_none());

    let out = w.on_event(Event::MouseButton {
        button: MouseButtonKind::Right,
        pressed: true,
        pos: [10, 20],
        inverse_view: inv,
    });
    assert!(out.changed);
    assert_eq!(out.cursor, CursorRequest::Hide);

    let out = w.on_event(Event::MouseMove { pos: [30, 40] });
    assert!(out.changed);
    let look = out.look_from.expect("motion during a drag requests a look update");
    assert_eq!(look.anchor, [10, 20]);
    assert_eq!(look.mouse, [30, 40]);
    assert_eq!(look.snapshot, inv);

    let out = w.on_event(Event::MouseButton {
        button: MouseButtonKind::Right,
        pressed: false,
        pos: [30, 40],
        inverse_view: inv,
    });
    assert!(!out.changed);
    assert_eq!(out.cursor, CursorRequest::Show);
    assert!(w.camera.drag.is_none());
}
