//! The world: the camera, the scene store and the held-key set, with the
//! event routing and the frame-submission protocol on top of them.

use vstd::prelude::*;

use crate::camera::{
    camera_after_key, drag_after, drag_changed, drag_cursor, drag_look, held_after,
    key_changed, key_outcome_of, same_but_current_frame, tick, ButtonState, Camera,
    CursorRequest, HeldKeys, Key, KeyOutcome, LookRequest, MouseButtonKind,
};
use crate::dispatch::{FramePass, PassStage};
use crate::scene::{sphere_placed, Material, Scene, MATERIAL_PICK_HEADROOM};

verus! {

/// What a routed key event asks of the embedder: the camera's requests,
/// and whether the reload key fired.
#[derive(Clone, Copy, PartialEq, Eq, Structural, Debug)]
pub struct InputOutcome {
    pub key: KeyOutcome,
    pub reload_requested: bool,
}

/// One input event, polled from the platform and translated to plain
/// values. A button event carries the cursor position and the current
/// inverse of the world-to-pixel matrix, which a starting drag captures.
#[derive(Clone, Copy, Debug)]
pub enum Event {
    KeyDown(Key),
    KeyUp(Key),
    MouseMove { pos: [u32; 2] },
    MouseButton { button: MouseButtonKind, pressed: bool, pos: [u32; 2], inverse_view: [u32; 16] },
    Scroll,
    Resize { width: u32, height: u32 },
    ModifiersChanged { zoom_modifier: bool },
}

/// What a routed event asks of the embedder. Fields that an event kind
/// does not speak to keep their quiet values.
#[derive(Clone, Copy, PartialEq, Eq, Debug)]
pub struct EventOutcome {
    /// The event invalidated the accumulated image.
    pub changed: bool,
    /// A key event's movement and zoom requests.
    pub movement: Option<KeyOutcome>,
    /// The reload key fired: regenerate the scene.
    pub reload_requested: bool,
    /// What to do to the OS cursor.
    pub cursor: CursorRequest,
    /// Project this pixel through the drag snapshot and install the result.
    pub look_from: Option<LookRequest>,
    /// An accepted scroll: apply the log-tangent zoom with the platform's
    /// scroll delta.
    pub zoom_scroll: bool,
    /// The viewport changed: recreate both render textures at the new
    /// dimensions before the next dispatch.
    pub resized: bool,
}

impl EventOutcome {
    /// The outcome that asks nothing.
    pub open spec fn spec_quiet() -> EventOutcome {
        EventOutcome {
            changed: false,
            movement: None,
            reload_requested: false,
            cursor: CursorRequest::NoChange,
            look_from: None,
            zoom_scroll: false,
            resized: false,
        }
    }

    fn quiet() -> (out: EventOutcome)
        ensures
            out == Self::spec_quiet(),
    {
        EventOutcome {
            changed: false,
            movement: None,
            reload_requested: false,
            cursor: CursorRequest::NoChange,
            look_from: None,
            zoom_scroll: false,
            resized: false,
        }
    }
}

/// The render-context state one frame loop owns: no ambient globals, the
/// loop passes this by reference into every per-frame call.
pub struct World {
    pub camera: Camera,
    pub scene: Scene,
    pub held: HeldKeys,
    /// Whether the zoom modifier is in the currently active modifier set.
    pub zoom_modifier_active: bool,
}

/// An accepted scroll: the zoom modifier is active, or the camera's
/// policy does not ask for it.
pub open spec fn scroll_accepted(w: World) -> bool {
    w.zoom_modifier_active || !w.camera.zoom_needs_modifier
}

/// The whole world transition for one routed event, assembled from the
/// camera's per-handler transition functions.
pub open spec fn world_after_event(w: World, event: Event) -> World {
    match event {
        Event::KeyDown(key) => World {
            held: held_after(w.held, key, true),
            camera: camera_after_key(w.camera, key, held_after(w.held, key, true)),
            ..w
        },
        Event::KeyUp(key) => World { held: held_after(w.held, key, false), ..w },
        Event::MouseMove { pos: _ } => World {
            camera: Camera {
                current_frame: if w.camera.drag is Some { 0u32 } else { w.camera.current_frame },
                ..w.camera
            },
            ..w
        },
        Event::MouseButton { button, pressed, pos, inverse_view } => World {
            camera: Camera {
                drag: drag_after(
                    w.camera,
                    pos,
                    Some(button_state_of(pressed)),
                    Some(button),
                    inverse_view,
                ),
                current_frame: if drag_changed(w.camera, Some(button_state_of(pressed)), Some(button)) {
                    0u32
                } else {
                    w.camera.current_frame
                },
                ..w.camera
            },
            ..w
        },
        Event::Scroll => World {
            camera: Camera {
                current_frame: if scroll_accepted(w) { 0u32 } else { w.camera.current_frame },
                ..w.camera
            },
            ..w
        },
        Event::Resize { width, height } => World {
            camera: Camera { width, height, current_frame: 0u32, ..w.camera },
            ..w
        },
        Event::ModifiersChanged { zoom_modifier } => World { zoom_modifier_active: zoom_modifier, ..w },
    }
}

/// `Pressed` or `Released` from the boolean an event carries.
pub open spec fn button_state_of(pressed: bool) -> ButtonState {
    if pressed { ButtonState::Pressed } else { ButtonState::Released }
}

/// The requests one routed event hands the embedder.
pub open spec fn event_outcome_of(w: World, event: Event) -> EventOutcome {
    match event {
        Event::KeyDown(key) => EventOutcome {
            changed: key_changed(key, held_after(w.held, key, true)),
            movement: Some(key_outcome_of(key, held_after(w.held, key, true))),
            reload_requested: key == Key::KeyR,
            ..EventOutcome::spec_quiet()
        },
        Event::KeyUp(_) => EventOutcome::spec_quiet(),
        Event::MouseMove { pos } => EventOutcome {
            changed: w.camera.drag is Some,
            look_from: drag_look(w.camera, pos, None, None),
            ..EventOutcome::spec_quiet()
        },
        Event::MouseButton { button, pressed, pos, inverse_view: _ } => EventOutcome {
            changed: drag_changed(w.camera, Some(button_state_of(pressed)), Some(button)),
            cursor: drag_cursor(w.camera, Some(button_state_of(pressed)), Some(button)),
            look_from: drag_look(w.camera, pos, Some(button_state_of(pressed)), Some(button)),
            ..EventOutcome::spec_quiet()
        },
        Event::Scroll => EventOutcome {
            changed: scroll_accepted(w),
            zoom_scroll: scroll_accepted(w),
            ..EventOutcome::spec_quiet()
        },
        Event::Resize { width: _, height: _ } => EventOutcome {
            changed: true,
            resized: true,
            ..EventOutcome::spec_quiet()
        },
        Event::ModifiersChanged { zoom_modifier: _ } => EventOutcome::spec_quiet(),
    }
}

impl World {
    pub open spec fn wf(self) -> bool {
        self.camera.wf() && self.scene.wf()
    }

    /// A fresh world: the default camera for the viewport, no key held,
    /// and a scene generated from the given centers and materials.
    pub fn new(
        width: u32,
        height: u32,
        centers: &Vec<[u32; 3]>,
        materials: Vec<Material>,
    ) -> (w: World)
        requires
            1 <= materials@.len(),
            materials@.len() + MATERIAL_PICK_HEADROOM <= u32::MAX,
        ensures
            w.wf(),
            w.camera == Camera::spec_default(width, height),
            w.held == HeldKeys::spec_none(),
            !w.zoom_modifier_active,
            w.scene.materials == materials,
            w.scene.spheres@.len() == centers@.len(),
            forall|i: int|
                0 <= i < w.scene.spheres@.len()
                    ==> #[trigger] sphere_placed(w.scene.spheres@[i], centers@[i], materials@.len() as u32),
    {
        World {
            camera: Camera::new(width, height),
            scene: Scene::new(centers, materials),
            held: HeldKeys::none(),
            zoom_modifier_active: false,
        }
    }

    /// Reload: the scene is replaced wholesale — nothing of the old
    /// primitives or materials survives — while the camera keeps its pose
    /// (position and look direction) and every other camera field returns
    /// to its default, the accumulation counter included. The held-key set
    /// persists: reloading does not release keys.
    pub fn reload(&mut self, centers: &Vec<[u32; 3]>, materials: Vec<Material>)
        requires
            1 <= materials@.len(),
            materials@.len() + MATERIAL_PICK_HEADROOM <= u32::MAX,
        ensures
            final(self).wf(),
            final(self).camera == (Camera {
                pos: old(self).camera.pos,
                look: old(self).camera.look,
                ..Camera::spec_default(old(self).camera.width, old(self).camera.height)
            }),
            final(self).held == old(self).held,
            final(self).zoom_modifier_active == old(self).zoom_modifier_active,
            final(self).scene.materials == materials,
            final(self).scene.spheres@.len() == centers@.len(),
            forall|i: int|
                0 <= i < final(self).scene.spheres@.len()
                    ==> #[trigger] sphere_placed(
                        final(self).scene.spheres@[i],
                        centers@[i],
                        materials@.len() as u32,
                    ),
    {
        let pos = self.camera.pos;
        let look = self.camera.look;
        let mut camera = Camera::new(self.camera.width, self.camera.height);
        camera.set_position(pos);
        camera.set_look(look);
        self.camera = camera;
        self.scene.reload(centers, materials);
    }

    /// Route one key event. A release only updates the held-key set; a
    /// press updates the set, hands the key and the updated set to the
    /// camera, and reports whether the reload key fired.
    pub fn on_key_input(&mut self, key: Key, pressed: bool) -> (out: InputOutcome)
        requires
            old(self).wf(),
        ensures
            final(self).wf(),
            final(self).held == held_after(old(self).held, key, pressed),
            final(self).scene == old(self).scene,
            final(self).zoom_modifier_active == old(self).zoom_modifier_active,
            out.reload_requested == (pressed && key == Key::KeyR),
            pressed ==> final(self).camera == camera_after_key(
                old(self).camera,
                key,
                held_after(old(self).held, key, true),
            ),
            pressed ==> out.key == key_outcome_of(key, held_after(old(self).held, key, true)),
            !pressed ==> final(self).camera == old(self).camera,
            !pressed ==> out.key == (KeyOutcome {
                changed: false,
                move_forward: 0,
                move_right: 0,
                move_up: 0,
                zoom_steps: 0,
            }),
    {
        self.held.set(key, pressed);
        if !pressed {
            return InputOutcome {
                key: KeyOutcome {
                    changed: false,
                    move_forward: 0,
                    move_right: 0,
                    move_up: 0,
                    zoom_steps: 0,
                },
                reload_requested: false,
            };
        }
        let held_now = self.held;
        let key_out = self.camera.key_press(key, &held_now);
        InputOutcome { key: key_out, reload_requested: key == Key::KeyR }
    }

    /// Evaluate the held movement keys once per tick, so movement is
    /// frame-rate independent and independent of key-repeat events: the
    /// same as a key event carrying no bound key.
    pub fn tick_held(&mut self) -> (out: KeyOutcome)
        requires
            old(self).wf(),
        ensures
            final(self).wf(),
            final(self).camera == camera_after_key(old(self).camera, Key::Other, old(self).held),
            out == key_outcome_of(Key::Other, old(self).held),
            final(self).held == old(self).held,
            final(self).scene == old(self).scene,
            final(self).zoom_modifier_active == old(self).zoom_modifier_active,
    {
        let held_now = self.held;
        self.camera.key_press(Key::Other, &held_now)
    }

    /// The scene contents changed under the camera: restart accumulation.
    pub fn scene_was_updated(&mut self)
        ensures
            final(self).camera.current_frame == 0,
            same_but_current_frame(final(self).camera, old(self).camera),
            final(self).scene == old(self).scene,
            final(self).held == old(self).held,
            final(self).zoom_modifier_active == old(self).zoom_modifier_active,
    {
        self.camera.scene_was_updated();
    }

    /// Whether the accumulation target has been reached.
    pub fn render_finished(&self) -> (r: bool)
        ensures
            r == (self.camera.current_frame >= self.camera.frames_to_render),
    {
        self.camera.render_finished()
    }

    /// Count one completed frame submission. The pass token must have
    /// walked the whole recording protocol — dispatch, publish, present —
    /// for the very frame the camera is accumulating, and the call
    /// belongs after the submission is handed to the device queue, never
    /// before: an input event in between must observe a count consistent
    /// with what was actually rendered.
    pub fn frame_submitted(&mut self, pass: &FramePass)
        requires
            old(self).wf(),
            pass.stage == PassStage::Presented,
            pass.frame == old(self).camera.current_frame,
        ensures
            final(self).wf(),
            final(self).camera.current_frame == tick(
                old(self).camera.current_frame as int,
                old(self).camera.frames_to_render as int,
            ),
            same_but_current_frame(final(self).camera, old(self).camera),
            final(self).scene == old(self).scene,
            final(self).held == old(self).held,
            final(self).zoom_modifier_active == old(self).zoom_modifier_active,
    {
        self.camera.increase_frame();
    }

    /// Route one polled input event: the sum-type switch over everything
    /// the platform can report. The world is updated here — held keys,
    /// drag state, viewport, modifier set, accumulation counter — and the
    /// outcome carries every request the embedder must perform: move or
    /// zoom the camera, change the cursor, recompute the look direction,
    /// regenerate the scene, or recreate the render textures.
    pub fn on_event(&mut self, event: Event) -> (out: EventOutcome)
        requires
            old(self).wf(),
        ensures
            final(self).wf(),
            *final(self) == world_after_event(*old(self), event),
            out == event_outcome_of(*old(self), event),
    {
        match event {
            Event::KeyDown(key) => {
                let routed = self.on_key_input(key, true);
                EventOutcome {
                    changed: routed.key.changed,
                    movement: Some(routed.key),
                    reload_requested: routed.reload_requested,
                    cursor: CursorRequest::NoChange,
                    look_from: None,
                    zoom_scroll: false,
                    resized: false,
                }
            }
            Event::KeyUp(key) => {
                let _ = self.on_key_input(key, false);
                EventOutcome::quiet()
            }
            Event::MouseMove { pos } => {
                // a motion event never captures a snapshot, so none is needed
                let unused: [u32; 16] = [0; 16];
                let moved = self.camera.mouse_drag(pos, None, None, &unused);
                EventOutcome {
                    changed: moved.changed,
                    movement: None,
                    reload_requested: false,
                    cursor: moved.cursor,
                    look_from: moved.look_from,
                    zoom_scroll: false,
                    resized: false,
                }
            }
            Event::MouseButton { button, pressed, pos, inverse_view } => {
                let state = if pressed { ButtonState::Pressed } else { ButtonState::Released };
                let dragged = self.camera.mouse_drag(pos, Some(state), Some(button), &inverse_view);
                EventOutcome {
                    changed: dragged.changed,
                    movement: None,
                    reload_requested: false,
                    cursor: dragged.cursor,
                    look_from: dragged.look_from,
                    zoom_scroll: false,
                    resized: false,
                }
            }
            Event::Scroll => {
                let accepted = self.camera.mouse_scroll(self.zoom_modifier_active);
                EventOutcome {
                    changed: accepted,
                    movement: None,
                    reload_requested: false,
                    cursor: CursorRequest::NoChange,
                    look_from: None,
                    zoom_scroll: accepted,
                    resized: false,
                }
            }
            Event::Resize { width, height } => {
                self.camera.set_resolution(width, height);
                self.camera.reset_render();
                EventOutcome {
                    changed: true,
                    movement: None,
                    reload_requested: false,
                    cursor: CursorRequest::NoChange,
                    look_from: None,
                    zoom_scroll: false,
                    resized: true,
                }
            }
            Event::ModifiersChanged { zoom_modifier } => {
                self.zoom_modifier_active = zoom_modifier;
                EventOutcome::quiet()
            }
        }
    }
}

} // verus!
