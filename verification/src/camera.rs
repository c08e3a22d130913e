//! Camera state and the input protocol that drives progressive accumulation.
//!
//! The camera owns two kinds of state. The tunable counters
//! (`samples_per_pixel`, `frames_to_render`, `current_frame`) are plain
//! integers and every rule about them is verified here. The pose (position,
//! look direction, field of view, clip planes, speed) consists of real
//! values, carried as IEEE-754 bit patterns that this module never
//! interprets: the embedder does the floating-point arithmetic for an
//! accepted input event and installs the result through a setter whose
//! contract says exactly which field moves.
//!
//! Every input handler reports `changed`: whether the event invalidated the
//! accumulated image. A `true` answer resets `current_frame` to zero in the
//! same call; a `false` answer leaves the accumulation untouched.

use vstd::prelude::*;

use crate::fbits::{
    DEFAULT_FOV_BITS, DEFAULT_SPEED_BITS, DEFAULT_Z_FAR_BITS, DEFAULT_Z_NEAR_BITS,
    F32_NEG_ONE_BITS, F32_ZERO_BITS,
};

verus! {

/// Upper clamp for both samples-per-pixel and the target frame count.
pub const TOGGLE_MAX: u32 = 256;

/// Target frame count a fresh camera starts with.
pub const DEFAULT_FRAMES_TO_RENDER: u32 = 8;

/// The keys the camera reacts to. `Other` stands for every key without a
/// binding, including the pseudo-key the frame loop uses to evaluate held
/// movement keys once per tick.
#[derive(Clone, Copy, PartialEq, Eq, Structural, Debug)]
pub enum Key {
    KeyW,
    KeyA,
    KeyS,
    KeyD,
    Space,
    ShiftLeft,
    KeyK,
    KeyJ,
    KeyI,
    KeyU,
    ArrowUp,
    ArrowDown,
    Backspace,
    KeyR,
    Other,
}

/// Which movement keys are currently held down. Movement is evaluated
/// against this set once per tick, so it is frame-rate independent and
/// diagonal combinations compose additively.
#[derive(Clone, Copy, PartialEq, Eq, Structural, Debug)]
pub struct HeldKeys {
    pub forward: bool,
    pub back: bool,
    pub right: bool,
    pub left: bool,
    pub up: bool,
    pub down: bool,
}

/// The held-key set after `key` goes down (`pressed`) or up (`!pressed`).
/// Keys without a movement binding leave the set as it is.
pub open spec fn held_after(h: HeldKeys, key: Key, pressed: bool) -> HeldKeys {
    match key {
        Key::KeyW => HeldKeys { forward: pressed, ..h },
        Key::KeyS => HeldKeys { back: pressed, ..h },
        Key::KeyD => HeldKeys { right: pressed, ..h },
        Key::KeyA => HeldKeys { left: pressed, ..h },
        Key::Space => HeldKeys { up: pressed, ..h },
        Key::ShiftLeft => HeldKeys { down: pressed, ..h },
        _ => h,
    }
}

impl HeldKeys {
    /// The empty set: no movement key held.
    pub open spec fn spec_none() -> HeldKeys {
        HeldKeys { forward: false, back: false, right: false, left: false, up: false, down: false }
    }

    pub fn none() -> (h: HeldKeys)
        ensures
            h == Self::spec_none(),
    {
        HeldKeys { forward: false, back: false, right: false, left: false, up: false, down: false }
    }

    /// True when at least one movement key is held.
    pub open spec fn any(self) -> bool {
        self.forward || self.back || self.right || self.left || self.up || self.down
    }

    /// Record a key going down or up.
    pub fn set(&mut self, key: Key, pressed: bool)
        ensures
            *final(self) == held_after(*old(self), key, pressed),
    {
        match key {
            Key::KeyW => self.forward = pressed,
            Key::KeyS => self.back = pressed,
            Key::KeyD => self.right = pressed,
            Key::KeyA => self.left = pressed,
            Key::Space => self.up = pressed,
            Key::ShiftLeft => self.down = pressed,
            _ => (),
        }
    }
}

/// Mouse buttons as the camera distinguishes them.
#[derive(Clone, Copy, PartialEq, Eq, Structural, Debug)]
pub enum MouseButtonKind {
    Left,
    Right,
    Other,
}

/// Whether a button event is a press or a release.
#[derive(Clone, Copy, PartialEq, Eq, Structural, Debug)]
pub enum ButtonState {
    Pressed,
    Released,
}

/// An active mouse-look drag: the cursor position captured when the
/// designated button went down, and the inverse projection captured at the
/// same moment. The snapshot is deliberately not recomputed while the drag
/// runs, so the projection the look direction is read through does not
/// depend on the evolving look direction itself.
#[derive(Clone, Copy, PartialEq, Eq, Debug)]
pub struct Drag {
    /// Cursor position at drag start: x and y as `f32` bit patterns.
    pub start: [u32; 2],
    /// Inverse of the world-to-pixel matrix at drag start, in column-major
    /// order, each entry an `f32` bit pattern.
    pub snapshot: [u32; 16],
}

/// What the embedder must do to the OS cursor after a drag event.
#[derive(Clone, Copy, PartialEq, Eq, Structural, Debug)]
pub enum CursorRequest {
    NoChange,
    /// The drag started: hide the cursor.
    Hide,
    /// The drag ended: restore the cursor.
    Show,
}

/// A request to recompute the look direction: project the pixel at
/// `viewport center + (anchor - mouse)` through `snapshot`, normalize, and
/// install the result with [`Camera::set_look`].
#[derive(Clone, Copy, PartialEq, Eq, Debug)]
pub struct LookRequest {
    pub anchor: [u32; 2],
    pub mouse: [u32; 2],
    pub snapshot: [u32; 16],
}

/// What a key event asks of the embedder, beyond the counter updates the
/// camera already performed itself.
#[derive(Clone, Copy, PartialEq, Eq, Structural, Debug)]
pub struct KeyOutcome {
    /// The event invalidated the accumulated image (and `current_frame`
    /// was reset to zero).
    pub changed: bool,
    /// Net requested translation along the camera-local forward axis, in
    /// {-1, 0, 1}; the embedder scales the normalized world-space axis by
    /// the movement speed.
    pub move_forward: i32,
    /// Net requested translation along the camera-local right axis.
    pub move_right: i32,
    /// Net requested translation along the camera-local up axis.
    pub move_up: i32,
    /// Zoom request in discrete steps: negative zooms in, positive zooms
    /// out, applied by the embedder in log-tangent space.
    pub zoom_steps: i32,
}

/// What a mouse-button or mouse-move event asks of the embedder.
#[derive(Clone, Copy, PartialEq, Eq, Debug)]
pub struct DragOutcome {
    /// The event invalidated the accumulated image.
    pub changed: bool,
    pub cursor: CursorRequest,
    pub look_from: Option<LookRequest>,
}

/// The two accumulation states: still collecting frames, or arrived at the
/// configured target.
#[derive(Clone, Copy, PartialEq, Eq, Structural, Debug)]
pub enum AccumState {
    Accumulating,
    Saturated,
}

/// Viewpoint, render tunables and accumulation progress.
pub struct Camera {
    /// World position: x, y, z as `f32` bit patterns.
    pub pos: [u32; 3],
    /// Unit look direction: x, y, z as `f32` bit patterns.
    pub look: [u32; 3],
    /// Field of view in half-turns, as an `f32` bit pattern.
    pub fov: u32,
    /// Movement speed in world units per tick, as an `f32` bit pattern.
    pub speed: u32,
    /// Near clip plane distance, as an `f32` bit pattern.
    pub z_near: u32,
    /// Far clip plane distance, as an `f32` bit pattern.
    pub z_far: u32,
    /// Viewport width in pixels.
    pub width: u32,
    /// Viewport height in pixels.
    pub height: u32,
    /// Rays traced per pixel per frame; always in [1, `TOGGLE_MAX`].
    pub samples_per_pixel: u32,
    /// Frames to accumulate before saturating; always in [1, `TOGGLE_MAX`].
    pub frames_to_render: u32,
    /// Frames accumulated since the last invalidation; never exceeds
    /// `frames_to_render`.
    pub current_frame: u32,
    /// The mouse button that drives mouse-look.
    pub look_button: MouseButtonKind,
    /// Whether scroll-zoom requires the modifier key.
    pub zoom_needs_modifier: bool,
    /// The active mouse-look drag, if one is running.
    pub drag: Option<Drag>,
}

/// True of the keys that toggle a tunable (and therefore always invalidate
/// the accumulated image when pressed).
pub open spec fn key_toggles(key: Key) -> bool {
    match key {
        Key::KeyK | Key::KeyJ | Key::KeyI | Key::KeyU => true,
        Key::ArrowUp | Key::ArrowDown | Key::Backspace => true,
        _ => false,
    }
}

/// Samples-per-pixel after one key event: doubled (clamped to
/// `TOGGLE_MAX`), halved (floored at 1), forced to 1 by the reset key, or
/// untouched.
pub open spec fn samples_after(s: int, key: Key) -> int {
    match key {
        Key::KeyK => if 2 * s <= TOGGLE_MAX { 2 * s } else { TOGGLE_MAX as int },
        Key::KeyJ => if s / 2 >= 1 { s / 2 } else { 1 },
        Key::Backspace => 1,
        _ => s,
    }
}

/// Target frame count after one key event, with the same clamping rules.
pub open spec fn frames_after(f: int, key: Key) -> int {
    match key {
        Key::KeyI => if 2 * f <= TOGGLE_MAX { 2 * f } else { TOGGLE_MAX as int },
        Key::KeyU => if f / 2 >= 1 { f / 2 } else { 1 },
        Key::Backspace => 1,
        _ => f,
    }
}

/// Net direction along one axis from a positive-sense and a
/// negative-sense held key.
pub open spec fn move_axis(pos: bool, neg: bool) -> int {
    (if pos { 1int } else { 0int }) - (if neg { 1int } else { 0int })
}

/// Discrete zoom steps a key event requests.
pub open spec fn zoom_steps_of(key: Key) -> int {
    match key {
        Key::ArrowUp => -1,
        Key::ArrowDown => 1,
        _ => 0,
    }
}

/// `current_frame` after one completed frame submission: one more, unless
/// the target was already reached.
pub open spec fn tick(cur: int, target: int) -> int {
    if cur < target { cur + 1 } else { cur }
}

/// Whether a key event invalidates the accumulated image: every toggle
/// key does, and so does any held movement key.
pub open spec fn key_changed(key: Key, held: HeldKeys) -> bool {
    key_toggles(key) || held.any()
}

/// The full camera transition for one key event: both tunables take their
/// clamped new values, the accumulation counter resets exactly when the
/// event invalidated the image, and nothing else moves.
pub open spec fn camera_after_key(c: Camera, key: Key, held: HeldKeys) -> Camera {
    Camera {
        samples_per_pixel: samples_after(c.samples_per_pixel as int, key) as u32,
        frames_to_render: frames_after(c.frames_to_render as int, key) as u32,
        current_frame: if key_changed(key, held) { 0u32 } else { c.current_frame },
        ..c
    }
}

/// The requests a key event hands the embedder: whether it invalidated
/// the image, the net movement direction along each camera axis, and the
/// discrete zoom steps.
pub open spec fn key_outcome_of(key: Key, held: HeldKeys) -> KeyOutcome {
    KeyOutcome {
        changed: key_changed(key, held),
        move_forward: move_axis(held.forward, held.back) as i32,
        move_right: move_axis(held.right, held.left) as i32,
        move_up: move_axis(held.up, held.down) as i32,
        zoom_steps: zoom_steps_of(key) as i32,
    }
}

/// The two cameras agree on the pose, the viewport, the input policy and
/// the tunables: an event may then only have moved the accumulation
/// counter or the drag state.
pub open spec fn same_but_frame_and_drag(a: Camera, b: Camera) -> bool {
    &&& a.pos == b.pos
    &&& a.look == b.look
    &&& a.fov == b.fov
    &&& a.speed == b.speed
    &&& a.z_near == b.z_near
    &&& a.z_far == b.z_far
    &&& a.width == b.width
    &&& a.height == b.height
    &&& a.samples_per_pixel == b.samples_per_pixel
    &&& a.frames_to_render == b.frames_to_render
    &&& a.look_button == b.look_button
    &&& a.zoom_needs_modifier == b.zoom_needs_modifier
}

/// The two cameras agree on everything except the accumulation counter.
pub open spec fn same_but_current_frame(a: Camera, b: Camera) -> bool {
    same_but_frame_and_drag(a, b) && a.drag == b.drag
}

impl Camera {
    /// Tunables in range and the accumulation counter below its target.
    pub open spec fn wf(self) -> bool {
        &&& 1 <= self.samples_per_pixel <= TOGGLE_MAX
        &&& 1 <= self.frames_to_render <= TOGGLE_MAX
        &&& self.current_frame <= self.frames_to_render
    }

    /// The default camera for a viewport: at the origin, looking down the
    /// negative z axis, one sample per pixel, eight frames to accumulate.
    pub open spec fn spec_default(width: u32, height: u32) -> Camera {
        Camera {
            pos: [F32_ZERO_BITS, F32_ZERO_BITS, F32_ZERO_BITS],
            look: [F32_ZERO_BITS, F32_ZERO_BITS, F32_NEG_ONE_BITS],
            fov: DEFAULT_FOV_BITS,
            speed: DEFAULT_SPEED_BITS,
            z_near: DEFAULT_Z_NEAR_BITS,
            z_far: DEFAULT_Z_FAR_BITS,
            width,
            height,
            samples_per_pixel: 1,
            frames_to_render: DEFAULT_FRAMES_TO_RENDER,
            current_frame: 0,
            look_button: MouseButtonKind::Right,
            zoom_needs_modifier: true,
            drag: None,
        }
    }

    pub fn new(width: u32, height: u32) -> (c: Camera)
        ensures
            c == Self::spec_default(width, height),
            c.wf(),
    {
        Camera {
            pos: [F32_ZERO_BITS, F32_ZERO_BITS, F32_ZERO_BITS],
            look: [F32_ZERO_BITS, F32_ZERO_BITS, F32_NEG_ONE_BITS],
            fov: DEFAULT_FOV_BITS,
            speed: DEFAULT_SPEED_BITS,
            z_near: DEFAULT_Z_NEAR_BITS,
            z_far: DEFAULT_Z_FAR_BITS,
            width,
            height,
            samples_per_pixel: 1,
            frames_to_render: DEFAULT_FRAMES_TO_RENDER,
            current_frame: 0,
            look_button: MouseButtonKind::Right,
            zoom_needs_modifier: true,
            drag: None,
        }
    }

    /// Handle one key press together with the set of held movement keys.
    ///
    /// The tunable counters are updated here; `changed` reports whether the
    /// event invalidated the accumulated image, and a `true` answer resets
    /// `current_frame` in the same call. The returned movement and zoom
    /// requests are for the embedder, which computes the floating-point
    /// translation and the log-tangent zoom and installs them through
    /// [`Camera::set_position`] and [`Camera::set_fov`].
    pub fn key_press(&mut self, key: Key, keys_held: &HeldKeys) -> (out: KeyOutcome)
        requires
            old(self).wf(),
        ensures
            final(self).wf(),
            *final(self) == camera_after_key(*old(self), key, *keys_held),
            out == key_outcome_of(key, *keys_held),
    {
        let mut changed = true;
        match key {
            Key::KeyK => {
                let doubled = self.samples_per_pixel * 2;
                self.samples_per_pixel = if doubled > TOGGLE_MAX { TOGGLE_MAX } else { doubled };
            }
            Key::KeyJ => {
                let halved = self.samples_per_pixel / 2;
                self.samples_per_pixel = if halved < 1 { 1 } else { halved };
            }
            Key::KeyI => {
                let doubled = self.frames_to_render * 2;
                self.frames_to_render = if doubled > TOGGLE_MAX { TOGGLE_MAX } else { doubled };
            }
            Key::KeyU => {
                let halved = self.frames_to_render / 2;
                self.frames_to_render = if halved < 1 { 1 } else { halved };
            }
            Key::ArrowUp => (),
            Key::ArrowDown => (),
            Key::Backspace => {
                self.frames_to_render = 1;
                self.samples_per_pixel = 1;
            }
            _ => {
                changed = false;
            }
        }

        if keys_held.forward || keys_held.back || keys_held.right || keys_held.left
            || keys_held.up || keys_held.down {
            changed = true;
        }

        if changed {
            self.current_frame = 0;
        }

        let move_forward: i32 = (if keys_held.forward { 1 } else { 0 })
            - (if keys_held.back { 1 } else { 0 });
        let move_right: i32 = (if keys_held.right { 1 } else { 0 })
            - (if keys_held.left { 1 } else { 0 });
        let move_up: i32 = (if keys_held.up { 1 } else { 0 })
            - (if keys_held.down { 1 } else { 0 });
        let zoom_steps: i32 = match key {
            Key::ArrowUp => -1,
            Key::ArrowDown => 1,
            _ => 0,
        };

        KeyOutcome { changed, move_forward, move_right, move_up, zoom_steps }
    }

    /// Handle one scroll event. `modifier_active` says whether the
    /// designated zoom modifier was exactly the active modifier set; when
    /// the camera's policy requires it and it is absent the event is
    /// ignored. An accepted scroll invalidates the accumulated image; the
    /// embedder then applies the log-tangent zoom and installs the new
    /// field of view through [`Camera::set_fov`].
    pub fn mouse_scroll(&mut self, modifier_active: bool) -> (changed: bool)
        requires
            old(self).wf(),
        ensures
            final(self).wf(),
            changed == (modifier_active || !old(self).zoom_needs_modifier),
            changed ==> final(self).current_frame == 0,
            !changed ==> *final(self) == *old(self),
            same_but_current_frame(*final(self), *old(self)),
    {
        if self.zoom_needs_modifier && !modifier_active {
            return false;
        }
        self.current_frame = 0;
        true
    }

    /// Install the position the embedder computed for an accepted movement
    /// request. Nothing else moves; in particular the accumulation counter
    /// was already reset by the event that asked for the movement.
    pub fn set_position(&mut self, pos: [u32; 3])
        ensures
            final(self).pos == pos,
            *final(self) == (Camera { pos, ..*old(self) }),
    {
        self.pos = pos;
    }

    /// Install the look direction the embedder computed for an accepted
    /// mouse-look request.
    pub fn set_look(&mut self, look: [u32; 3])
        ensures
            final(self).look == look,
            *final(self) == (Camera { look, ..*old(self) }),
    {
        self.look = look;
    }

    /// Install the field of view the embedder computed for an accepted
    /// zoom request.
    pub fn set_fov(&mut self, fov: u32)
        ensures
            final(self).fov == fov,
            *final(self) == (Camera { fov, ..*old(self) }),
    {
        self.fov = fov;
    }

    /// Record the new viewport after a window resize. The render targets
    /// must be recreated at the same dimensions before the next dispatch.
    pub fn set_resolution(&mut self, width: u32, height: u32)
        ensures
            *final(self) == (Camera { width, height, ..*old(self) }),
    {
        self.width = width;
        self.height = height;
    }
}

/// The event carries the camera's designated mouse-look button.
pub open spec fn is_look_button_event(c: Camera, button: Option<MouseButtonKind>) -> bool {
    button matches Some(b) && b == c.look_button
}

/// Whether a drag event invalidates the accumulated image: every
/// look-button event does except the release that ends a drag, and a
/// motion event does exactly while a drag is running.
pub open spec fn drag_changed(
    c: Camera,
    state: Option<ButtonState>,
    button: Option<MouseButtonKind>,
) -> bool {
    if is_look_button_event(c, button) {
        !(state == Some(ButtonState::Released) && c.drag is Some)
    } else {
        c.drag is Some
    }
}

/// The drag state after the event: cleared by the release that ends it,
/// opened by a press while none runs (capturing the cursor position and
/// the inverse projection), otherwise kept.
pub open spec fn drag_after(
    c: Camera,
    mouse: [u32; 2],
    state: Option<ButtonState>,
    button: Option<MouseButtonKind>,
    snapshot: [u32; 16],
) -> Option<Drag> {
    if is_look_button_event(c, button) {
        if state == Some(ButtonState::Released) && c.drag is Some {
            None
        } else if state == Some(ButtonState::Pressed) && c.drag is None {
            Some(Drag { start: mouse, snapshot })
        } else {
            c.drag
        }
    } else {
        c.drag
    }
}

/// The cursor request for the event: hide it when a drag starts, restore
/// it when one ends.
pub open spec fn drag_cursor(
    c: Camera,
    state: Option<ButtonState>,
    button: Option<MouseButtonKind>,
) -> CursorRequest {
    if is_look_button_event(c, button) {
        if state == Some(ButtonState::Released) && c.drag is Some {
            CursorRequest::Show
        } else if state == Some(ButtonState::Pressed) && c.drag is None {
            CursorRequest::Hide
        } else {
            CursorRequest::NoChange
        }
    } else {
        CursorRequest::NoChange
    }
}

/// The look request for the event: a motion while a drag runs asks the
/// embedder to project the cursor's offset from the drag anchor through
/// the snapshot captured at drag start.
pub open spec fn drag_look(
    c: Camera,
    mouse: [u32; 2],
    state: Option<ButtonState>,
    button: Option<MouseButtonKind>,
) -> Option<LookRequest> {
    match c.drag {
        Some(d) => if !is_look_button_event(c, button) {
            Some(LookRequest { anchor: d.start, mouse, snapshot: d.snapshot })
        } else {
            None
        },
        None => None,
    }
}

impl Camera {
    /// Handle one mouse event: a button press or release (`state` and
    /// `button` both given) or a cursor motion (both `None`).
    /// `inverse_view` is the current inverse of the world-to-pixel matrix,
    /// captured into the drag state when a drag starts.
    pub fn mouse_drag(
        &mut self,
        mouse_pos: [u32; 2],
        state: Option<ButtonState>,
        button: Option<MouseButtonKind>,
        inverse_view: &[u32; 16],
    ) -> (out: DragOutcome)
        requires
            old(self).wf(),
            button is Some ==> state is Some,
        ensures
            final(self).wf(),
            out.changed == drag_changed(*old(self), state, button),
            final(self).drag == drag_after(*old(self), mouse_pos, state, button, *inverse_view),
            out.cursor == drag_cursor(*old(self), state, button),
            out.look_from == drag_look(*old(self), mouse_pos, state, button),
            final(self).current_frame == (if out.changed { 0int } else { old(self).current_frame as int }),
            same_but_frame_and_drag(*final(self), *old(self)),
    {
        let is_look = match button {
            Some(b) => b == self.look_button,
            None => false,
        };
        if is_look {
            let st = match state {
                Some(s) => s,
                None => vstd::pervasive::unreached(),  // a button event carries a state
            };
            if st == ButtonState::Released && self.drag.is_some() {
                self.drag = None;
                return DragOutcome {
                    changed: false,
                    cursor: CursorRequest::Show,
                    look_from: None,
                };
            }
            let cursor = if st == ButtonState::Pressed && self.drag.is_none() {
                self.drag = Some(Drag { start: mouse_pos, snapshot: *inverse_view });
                CursorRequest::Hide
            } else {
                CursorRequest::NoChange
            };
            self.current_frame = 0;
            return DragOutcome { changed: true, cursor, look_from: None };
        }
        match self.drag {
            None => DragOutcome {
                changed: false,
                cursor: CursorRequest::NoChange,
                look_from: None,
            },
            Some(d) => {
                self.current_frame = 0;
                DragOutcome {
                    changed: true,
                    cursor: CursorRequest::NoChange,
                    look_from: Some(LookRequest {
                        anchor: d.start,
                        mouse: mouse_pos,
                        snapshot: d.snapshot,
                    }),
                }
            }
        }
    }

    /// Count one completed frame submission. Must be called only after the
    /// frame's command buffer has been handed to the device queue, never
    /// before: an input event arriving in between must observe a count
    /// consistent with what was actually rendered. The counter advances by
    /// exactly one and never past the target.
    pub fn increase_frame(&mut self)
        requires
            old(self).wf(),
        ensures
            final(self).wf(),
            final(self).current_frame == tick(
                old(self).current_frame as int,
                old(self).frames_to_render as int,
            ),
            same_but_current_frame(*final(self), *old(self)),
    {
        if self.current_frame < self.frames_to_render {
            self.current_frame = self.current_frame + 1;
        }
    }

    /// Restart the accumulation sequence: the next frame is counted from
    /// zero again.
    pub fn reset_render(&mut self)
        ensures
            final(self).current_frame == 0,
            same_but_current_frame(*final(self), *old(self)),
    {
        self.current_frame = 0;
    }

    /// The scene contents changed under the camera (for instance by a
    /// reload): every accumulated sample is stale, so restart. The
    /// embedder re-uploads the camera uniform afterwards.
    pub fn scene_was_updated(&mut self)
        ensures
            final(self).current_frame == 0,
            same_but_current_frame(*final(self), *old(self)),
    {
        self.reset_render();
    }

    /// Whether the accumulation target has been reached.
    pub fn render_finished(&self) -> (r: bool)
        ensures
            r == (self.current_frame >= self.frames_to_render),
    {
        self.current_frame >= self.frames_to_render
    }

    /// The accumulation state: `Saturated` exactly when the counter has
    /// arrived at the target.
    pub fn state(&self) -> (r: AccumState)
        ensures
            r == (if self.current_frame >= self.frames_to_render {
                AccumState::Saturated
            } else {
                AccumState::Accumulating
            }),
    {
        if self.current_frame >= self.frames_to_render {
            AccumState::Saturated
        } else {
            AccumState::Accumulating
        }
    }

    /// Accumulation progress as (frames done, frames to render), for
    /// progress reporting.
    pub fn progress(&self) -> (r: (u32, u32))
        ensures
            r.0 == self.current_frame,
            r.1 == self.frames_to_render,
    {
        (self.current_frame, self.frames_to_render)
    }

    /// Assemble the uniform block the compute kernel reads. The two
    /// matrices are computed by the embedder from this camera's pose (the
    /// projection pipeline is pixel-scale ∘ perspective ∘ look-rotation ∘
    /// translation) and passed in as bit patterns; the position is widened
    /// to four lanes by repeating z, and the integer tunables are copied
    /// as they stand.
    pub fn to_raw(&self, world_to_pixel: &[u32; 16], pixel_to_world: &[u32; 16]) -> (raw: CameraRaw)
        ensures
            raw.world_to_pixel == *world_to_pixel,
            raw.pixel_to_world == *pixel_to_world,
            raw.pos@ == seq![self.pos@[0], self.pos@[1], self.pos@[2], self.pos@[2]],
            raw.focal_length == self.z_near,
            raw.samples_per_pixel == self.samples_per_pixel,
            raw.frames_to_render == self.frames_to_render,
            raw.current_frame == self.current_frame,
    {
        let raw = CameraRaw {
            world_to_pixel: *world_to_pixel,
            pixel_to_world: *pixel_to_world,
            pos: [self.pos[0], self.pos[1], self.pos[2], self.pos[2]],
            focal_length: self.z_near,
            samples_per_pixel: self.samples_per_pixel,
            frames_to_render: self.frames_to_render,
            current_frame: self.current_frame,
        };
        proof {
            assert(raw.pos@ =~= seq![self.pos@[0], self.pos@[1], self.pos@[2], self.pos@[2]]);
        }
        raw
    }
}

/// The camera uniform block as the GPU sees it: two column-major 4x4
/// matrices, the position widened to four lanes, the focal length, and the
/// three accumulation tunables. Every word is 32 bits; real values are
/// IEEE-754 bit patterns.
pub struct CameraRaw {
    pub world_to_pixel: [u32; 16],
    pub pixel_to_world: [u32; 16],
    pub pos: [u32; 4],
    pub focal_length: u32,
    pub samples_per_pixel: u32,
    pub frames_to_render: u32,
    pub current_frame: u32,
}

/// Samples-per-pixel after a whole sequence of key events, oldest first.
pub open spec fn samples_after_keys(s: int, keys: Seq<Key>) -> int
    decreases keys.len(),
{
    if keys.len() == 0 {
        s
    } else {
        samples_after_keys(samples_after(s, keys[0]), keys.drop_first())
    }
}

/// Target frame count after a whole sequence of key events, oldest first.
pub open spec fn frames_after_keys(f: int, keys: Seq<Key>) -> int
    decreases keys.len(),
{
    if keys.len() == 0 {
        f
    } else {
        frames_after_keys(frames_after(f, keys[0]), keys.drop_first())
    }
}

/// However doubling, halving and reset key presses are interleaved, both
/// tunables stay within [1, `TOGGLE_MAX`]: doubling clamps at the top and
/// halving from 1 floors at 1, never 0.
pub proof fn lemma_toggles_stay_in_bounds(s: int, f: int, keys: Seq<Key>)
    requires
        1 <= s <= TOGGLE_MAX,
        1 <= f <= TOGGLE_MAX,
    ensures
        1 <= samples_after_keys(s, keys) <= TOGGLE_MAX,
        1 <= frames_after_keys(f, keys) <= TOGGLE_MAX,
    decreases keys.len(),
{
    if keys.len() > 0 {
        lemma_toggles_stay_in_bounds(
            samples_after(s, keys[0]),
            frames_after(f, keys[0]),
            keys.drop_first(),
        );
    }
}

/// `current_frame` after `n` completed frame submissions with no
/// invalidation in between.
pub open spec fn ticks(cur: int, target: int, n: nat) -> int
    decreases n,
{
    if n == 0 {
        cur
    } else {
        ticks(tick(cur, target), target, (n - 1) as nat)
    }
}

/// Each completed frame submission advances the counter by exactly one
/// until the target is reached and never past it: `n` quiet submissions
/// starting from `cur` land on `cur + n` or on the target, whichever is
/// smaller. Starting fresh, the counter therefore runs 1, 2, ..., target
/// and then stays saturated.
pub proof fn lemma_accumulation_saturates(cur: int, target: int, n: nat)
    requires
        0 <= cur <= target,
    ensures
        ticks(cur, target, n) == if cur + n <= target { cur + n } else { target as int },
    decreases n,
{
    if n > 0 {
        lemma_accumulation_saturates(tick(cur, target), target, (n - 1) as nat);
    }
}

} // verus!
