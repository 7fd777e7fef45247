//! Interactive camera and display-mode state.
//!
//! Pointer drags accumulate into a clamped polar angle and a wrapped
//! azimuthal angle, scroll input accumulates into a clamped zoom, and keys
//! switch the projection and display modes. All angles are kept in exact
//! integer units — one turn is [`FULL_TURN`] units — and zoom in integer
//! milli-units, so the clamp and wrap rules are proved for every input
//! sequence. The unverified shell converts these units to radians when it
//! builds the floating-point view and projection matrices.

use vstd::prelude::*;

verus! {

/// Angle units in one full revolution (one unit is 1/8000 of a degree).
pub const FULL_TURN: i64 = 2_880_000;

/// Angle units in a quarter revolution.
pub const QUARTER_TURN: i64 = 720_000;

/// Upper clamp of the polar angle: nine tenths of a quarter turn, keeping
/// the camera away from the poles to avoid gimbal flip.
pub const POLAR_ANGLE_MAX: i64 = 648_000;

/// Lower clamp of the polar angle, symmetric to [`POLAR_ANGLE_MAX`].
pub const POLAR_ANGLE_MIN: i64 = -648_000;

/// Angle units of azimuth per pixel of horizontal drag (a quarter turn per
/// 960 pixels, so a full 1920-pixel drag is half a turn).
pub const DELTA_X_ANGLE_FACTOR: i64 = 750;

/// Angle units of polar angle per pixel of vertical drag (a quarter turn
/// per 640 pixels).
pub const DELTA_Y_ANGLE_FACTOR: i64 = 1125;

/// Lower zoom clamp, in milli-units.
pub const ZOOM_MIN: i64 = -20_000;

/// Upper zoom clamp, in milli-units.
pub const ZOOM_MAX: i64 = -2_000;

/// Zoom at startup, in milli-units.
pub const ZOOM_DEFAULT: i64 = -4_500;

/// Milli-lines of scroll per milli-unit of zoom: one scroll line moves the
/// zoom by a tenth of a unit.
pub const ZOOM_DIVISOR: i64 = 10;

/// Whether a button or key went down or up.
#[derive(Clone, Copy, Debug, PartialEq, Eq, Structural)]
pub enum ElementState {
    Pressed,
    Released,
}

/// Which pointer button an input event reports.
#[derive(Clone, Copy, Debug, PartialEq, Eq, Structural)]
pub enum MouseButton {
    Left,
    Right,
    Middle,
    Other,
}

/// The phase of a scroll gesture; only `Moved` carries zoom input.
#[derive(Clone, Copy, Debug, PartialEq, Eq, Structural)]
pub enum TouchPhase {
    Started,
    Moved,
    Ended,
    Cancelled,
}

/// A scroll measure. Only vertical line deltas drive the zoom; pixel
/// deltas are ignored. The line delta is carried in milli-lines.
#[derive(Clone, Copy, Debug, PartialEq, Eq, Structural)]
pub enum MouseScrollDelta {
    LineDelta(i32),
    PixelDelta,
}

/// The keys the viewer reacts to; every other key maps to `Other`.
#[derive(Clone, Copy, Debug, PartialEq, Eq, Structural)]
pub enum KeyCode {
    Key1,
    Key2,
    Key3,
    Key4,
    Key5,
    Key6,
    Other,
}

/// A keyboard event: the transition and the key, if one was resolved.
#[derive(Clone, Copy, Debug, PartialEq, Eq)]
pub struct KeyboardInput {
    pub state: ElementState,
    pub virtual_keycode: Option<KeyCode>,
}

/// How the scene is projected onto the surface.
#[derive(Clone, Copy, Debug, PartialEq, Eq, Structural)]
pub enum Projection {
    Perspective,
    Axonometric,
}

/// How the model is shaded.
#[derive(Clone, Copy, Debug, PartialEq, Eq, Structural)]
pub enum ModelKind {
    Color,
    Texture,
}

/// The orbit camera: clamped polar angle, wrapped azimuthal angle, clamped
/// zoom, the last recorded pointer position, and the pointer and button
/// flags that gate dragging. Mutated only through the input hooks.
#[derive(Clone, Copy, Debug, PartialEq, Eq)]
pub struct CameraState {
    /// Polar orbit angle in angle units, always within the symmetric clamp.
    pub polar_angle: i64,
    /// Azimuthal orbit angle in angle units, always within `[0, FULL_TURN)`.
    pub azimuthal_angle: i64,
    /// Zoom in milli-units, always within `[ZOOM_MIN, ZOOM_MAX]`.
    pub zoom: i64,
    /// The pointer position recorded by the previous move event, if any.
    pub last_cursor_pos: Option<(i32, i32)>,
    /// True while the pointer is outside the window.
    pub cursor_left: bool,
    /// True while the left button is held.
    pub left_mouse_btn_pressed: bool,
    /// The projection the next frame derives.
    pub projection: Projection,
}

impl CameraState {
    /// Validity of the accumulated quantities: the clamp and wrap ranges.
    pub open spec fn wf(self) -> bool {
        &&& POLAR_ANGLE_MIN <= self.polar_angle <= POLAR_ANGLE_MAX
        &&& 0 <= self.azimuthal_angle < FULL_TURN
        &&& ZOOM_MIN <= self.zoom <= ZOOM_MAX
    }
}

/// `v` clamped into `[lo, hi]`.
pub open spec fn clamp_spec(v: int, lo: int, hi: int) -> int {
    if v < lo {
        lo
    } else if v > hi {
        hi
    } else {
        v
    }
}

/// `raw` wrapped into `[0, FULL_TURN)` (Euclidean remainder).
pub open spec fn wrap_angle_spec(raw: int) -> int {
    raw % (FULL_TURN as int)
}

/// The zoom step, in milli-units, of a scroll of `delta_milli_lines`
/// milli-lines: division by [`ZOOM_DIVISOR`], truncated toward zero.
pub open spec fn zoom_step_spec(delta_milli_lines: int) -> int {
    if delta_milli_lines >= 0 {
        delta_milli_lines / (ZOOM_DIVISOR as int)
    } else {
        -((-delta_milli_lines) / (ZOOM_DIVISOR as int))
    }
}

/// The full interactive state: the camera plus the display toggles.
#[derive(Clone, Copy, Debug, PartialEq, Eq)]
pub struct RendererState {
    pub camera: CameraState,
    /// Whether the mesh pass draws.
    pub show_mesh: bool,
    /// Whether the model pass draws.
    pub show_model: bool,
    /// Whether the model pass shades from the material color or the texture.
    pub model_kind: ModelKind,
}

/// One input event routed to the renderer state.
#[derive(Clone, Copy, Debug, PartialEq, Eq)]
pub enum CameraEvent {
    MouseInput { state: ElementState, button: MouseButton },
    MouseWheel { delta: MouseScrollDelta, phase: TouchPhase },
    Keyboard { input: KeyboardInput },
    CursorMove { x: i32, y: i32 },
    CursorEnter,
    CursorLeft,
}

impl RendererState {
    /// The state at startup.
    pub open spec fn initial_spec() -> RendererState {
        RendererState {
            camera: CameraState {
                polar_angle: 0,
                azimuthal_angle: 0,
                zoom: ZOOM_DEFAULT,
                last_cursor_pos: None,
                cursor_left: false,
                left_mouse_btn_pressed: false,
                projection: Projection::Perspective,
            },
            show_mesh: true,
            show_model: true,
            model_kind: ModelKind::Color,
        }
    }

    /// Button state after a pointer-button event: the drag gate is set
    /// exactly when the left button went down.
    pub open spec fn mouse_input_spec(self, state: ElementState, button: MouseButton)
        -> RendererState {
        RendererState {
            camera: CameraState {
                left_mouse_btn_pressed: state is Pressed && button is Left,
                ..self.camera
            },
            ..self
        }
    }

    /// Zoom after a scroll event: only a vertical line delta in the
    /// `Moved` phase moves the zoom, by its clamped step.
    pub open spec fn mouse_wheel_spec(self, delta: MouseScrollDelta, phase: TouchPhase)
        -> RendererState {
        if delta matches MouseScrollDelta::LineDelta(v) && phase is Moved {
            RendererState {
                camera: CameraState {
                    zoom: clamp_spec(
                        self.camera.zoom + zoom_step_spec(delta->LineDelta_0 as int),
                        ZOOM_MIN as int,
                        ZOOM_MAX as int,
                    ) as i64,
                    ..self.camera
                },
                ..self
            }
        } else {
            self
        }
    }

    /// The angles after one recorded drag from `prev` to `next`: no change
    /// unless the left button is held and the pointer is over the window;
    /// otherwise the polar angle moves by the vertical delta (clamped) and
    /// the azimuth by the horizontal delta (wrapped).
    pub open spec fn rotation_update_spec(self, prev: (i32, i32), next: (i32, i32))
        -> RendererState {
        if !self.camera.left_mouse_btn_pressed || self.camera.cursor_left {
            self
        } else {
            let delta_x = next.0 - prev.0;
            let delta_y = prev.1 - next.1;
            RendererState {
                camera: CameraState {
                    polar_angle: clamp_spec(
                        self.camera.polar_angle + delta_y * DELTA_Y_ANGLE_FACTOR,
                        POLAR_ANGLE_MIN as int,
                        POLAR_ANGLE_MAX as int,
                    ) as i64,
                    azimuthal_angle: wrap_angle_spec(
                        self.camera.azimuthal_angle + delta_x * DELTA_X_ANGLE_FACTOR,
                    ) as i64,
                    ..self.camera
                },
                ..self
            }
        }
    }

    /// The state after a pointer move to `(x, y)`: apply the drag from the
    /// previously recorded position, if one exists, then record `(x, y)`.
    pub open spec fn cursor_move_spec(self, x: i32, y: i32) -> RendererState {
        let moved = match self.camera.last_cursor_pos {
            Some(prev) => self.rotation_update_spec(prev, (x, y)),
            None => self,
        };
        RendererState {
            camera: CameraState { last_cursor_pos: Some((x, y)), ..moved.camera },
            ..moved
        }
    }

    /// The state after a key event: a pressed digit key switches the
    /// projection or a display mode; everything else changes nothing.
    pub open spec fn keyboard_input_spec(self, input: KeyboardInput) -> RendererState {
        if input.state is Pressed {
            match input.virtual_keycode {
                Some(KeyCode::Key1) => RendererState {
                    camera: CameraState { projection: Projection::Perspective, ..self.camera },
                    ..self
                },
                Some(KeyCode::Key2) => RendererState {
                    camera: CameraState { projection: Projection::Axonometric, ..self.camera },
                    ..self
                },
                Some(KeyCode::Key3) => RendererState { show_mesh: !self.show_mesh, ..self },
                Some(KeyCode::Key4) => RendererState { show_model: !self.show_model, ..self },
                Some(KeyCode::Key5) => RendererState { model_kind: ModelKind::Color, ..self },
                Some(KeyCode::Key6) => RendererState { model_kind: ModelKind::Texture, ..self },
                _ => self,
            }
        } else {
            self
        }
    }

    /// The state after the pointer entered the window.
    pub open spec fn cursor_enter_spec(self) -> RendererState {
        RendererState { camera: CameraState { cursor_left: false, ..self.camera }, ..self }
    }

    /// The state after the pointer left the window.
    pub open spec fn cursor_left_spec(self) -> RendererState {
        RendererState { camera: CameraState { cursor_left: true, ..self.camera }, ..self }
    }

    /// The state after one routed input event.
    pub open spec fn step_spec(self, ev: CameraEvent) -> RendererState {
        match ev {
            CameraEvent::MouseInput { state, button } => self.mouse_input_spec(state, button),
            CameraEvent::MouseWheel { delta, phase } => self.mouse_wheel_spec(delta, phase),
            CameraEvent::Keyboard { input } => self.keyboard_input_spec(input),
            CameraEvent::CursorMove { x, y } => self.cursor_move_spec(x, y),
            CameraEvent::CursorEnter => self.cursor_enter_spec(),
            CameraEvent::CursorLeft => self.cursor_left_spec(),
        }
    }

    /// The state after a whole sequence of routed input events.
    pub open spec fn run_spec(self, evs: Seq<CameraEvent>) -> RendererState
        decreases evs.len(),
    {
        if evs.len() == 0 {
            self
        } else {
            self.step_spec(evs[0]).run_spec(evs.drop_first())
        }
    }

    /// The state at startup.
    pub fn new() -> (r: RendererState)
        ensures
            r == RendererState::initial_spec(),
            r.camera.wf(),
    {
        RendererState {
            camera: CameraState {
                polar_angle: 0,
                azimuthal_angle: 0,
                zoom: ZOOM_DEFAULT,
                last_cursor_pos: None,
                cursor_left: false,
                left_mouse_btn_pressed: false,
                projection: Projection::Perspective,
            },
            show_mesh: true,
            show_model: true,
            model_kind: ModelKind::Color,
        }
    }

    /// Record whether the left button is now held.
    pub fn mouse_input_hook(&mut self, state: ElementState, button: MouseButton)
        ensures
            *final(self) == old(self).mouse_input_spec(state, button),
    {
        self.camera.left_mouse_btn_pressed = matches!(state, ElementState::Pressed) && matches!(
            button,
            MouseButton::Left,
        );
    }

    /// Accumulate a scroll into the zoom, clamped into
    /// `[ZOOM_MIN, ZOOM_MAX]` whatever the input magnitude or direction.
    pub fn mouse_wheel_hook(&mut self, delta: MouseScrollDelta, phase: TouchPhase)
        requires
            old(self).camera.wf(),
        ensures
            *final(self) == old(self).mouse_wheel_spec(delta, phase),
            final(self).camera.wf(),
    {
        match (delta, phase) {
            (MouseScrollDelta::LineDelta(vertical_milli), TouchPhase::Moved) => {
                let d: i64 = vertical_milli as i64;
                let step: i64 = if d >= 0 {
                    d / ZOOM_DIVISOR
                } else {
                    -((-d) / ZOOM_DIVISOR)
                };
                let raw: i64 = self.camera.zoom + step;
                self.camera.zoom = if raw < ZOOM_MIN {
                    ZOOM_MIN
                } else if raw > ZOOM_MAX {
                    ZOOM_MAX
                } else {
                    raw
                };
            },
            _ => {},
        }
    }

    /// Switch the projection or a display mode on a pressed digit key.
    pub fn keyboard_input_hook(&mut self, input: KeyboardInput)
        ensures
            *final(self) == old(self).keyboard_input_spec(input),
    {
        match (input.virtual_keycode, input.state) {
            (Some(KeyCode::Key1), ElementState::Pressed) => {
                self.camera.projection = Projection::Perspective;
            },
            (Some(KeyCode::Key2), ElementState::Pressed) => {
                self.camera.projection = Projection::Axonometric;
            },
            (Some(KeyCode::Key3), ElementState::Pressed) => {
                self.show_mesh = !self.show_mesh;
            },
            (Some(KeyCode::Key4), ElementState::Pressed) => {
                self.show_model = !self.show_model;
            },
            (Some(KeyCode::Key5), ElementState::Pressed) => {
                self.model_kind = ModelKind::Color;
            },
            (Some(KeyCode::Key6), ElementState::Pressed) => {
                self.model_kind = ModelKind::Texture;
            },
            _ => {},
        }
    }

    /// Apply one recorded drag from `prev` to `next` to the orbit angles.
    pub fn update_rotation_angles(&mut self, prev: (i32, i32), next: (i32, i32))
        requires
            old(self).camera.wf(),
        ensures
            *final(self) == old(self).rotation_update_spec(prev, next),
            final(self).camera.wf(),
    {
        if !self.camera.left_mouse_btn_pressed || self.camera.cursor_left {
            return ;
        }
        let delta_x: i64 = next.0 as i64 - prev.0 as i64;
        let delta_y: i64 = prev.1 as i64 - next.1 as i64;

        let raw_polar: i64 = self.camera.polar_angle + delta_y * DELTA_Y_ANGLE_FACTOR;
        self.camera.polar_angle = if raw_polar < POLAR_ANGLE_MIN {
            POLAR_ANGLE_MIN
        } else if raw_polar > POLAR_ANGLE_MAX {
            POLAR_ANGLE_MAX
        } else {
            raw_polar
        };

        let raw_azimuthal: i64 = self.camera.azimuthal_angle + delta_x * DELTA_X_ANGLE_FACTOR;
        self.camera.azimuthal_angle = wrap_angle(raw_azimuthal);
    }

    /// Route a pointer move: drag from the previously recorded position,
    /// then record the new one.
    pub fn cursor_move_hook(&mut self, x: i32, y: i32)
        requires
            old(self).camera.wf(),
        ensures
            *final(self) == old(self).cursor_move_spec(x, y),
            final(self).camera.wf(),
    {
        if let Some(prev) = self.camera.last_cursor_pos {
            self.update_rotation_angles(prev, (x, y));
        }
        self.camera.last_cursor_pos = Some((x, y));
    }

    /// The pointer entered the window.
    pub fn cursor_enter_hook(&mut self)
        ensures
            *final(self) == old(self).cursor_enter_spec(),
    {
        self.camera.cursor_left = false;
    }

    /// The pointer left the window.
    pub fn cursor_left_hook(&mut self)
        ensures
            *final(self) == old(self).cursor_left_spec(),
    {
        self.camera.cursor_left = true;
    }
}

/// `raw` wrapped into `[0, FULL_TURN)`.
fn wrap_angle(raw: i64) -> (r: i64)
    requires
        -0x2000_0000_0000_0000 <= raw <= 0x2000_0000_0000_0000,
    ensures
        r == wrap_angle_spec(raw as int),
        0 <= r < FULL_TURN,
{
    let m: i64 = raw % FULL_TURN;
    if m < 0 {
        m + FULL_TURN
    } else {
        m
    }
}

/// One routed event keeps the camera well formed: the polar angle stays
/// within its clamp, the azimuth within `[0, FULL_TURN)` and the zoom
/// within `[ZOOM_MIN, ZOOM_MAX]`.
pub proof fn lemma_step_preserves_wf(s: RendererState, ev: CameraEvent)
    requires
        s.camera.wf(),
    ensures
        s.step_spec(ev).camera.wf(),
{
}

/// Over every input sequence — drags, scrolls, keys in any order and of
/// any magnitude — the camera stays well formed: the polar angle never
/// leaves its symmetric clamp, the azimuth stays within one turn and the
/// zoom stays within its fixed range.
pub proof fn lemma_run_preserves_wf(s: RendererState, evs: Seq<CameraEvent>)
    requires
        s.camera.wf(),
    ensures
        s.run_spec(evs).camera.wf(),
    decreases evs.len(),
{
    if evs.len() > 0 {
        lemma_step_preserves_wf(s, evs[0]);
        lemma_run_preserves_wf(s.step_spec(evs[0]), evs.drop_first());
    }
}

/// For every drag sequence — any interleaving of pointer and button
/// events — the polar angle stays within its fixed symmetric clamp and
/// the azimuthal angle stays within `[0, FULL_TURN)` after its modulo
/// reduction.
pub proof fn lemma_drag_angles_stay_clamped(s: RendererState, evs: Seq<CameraEvent>)
    requires
        s.camera.wf(),
    ensures
        POLAR_ANGLE_MIN <= s.run_spec(evs).camera.polar_angle <= POLAR_ANGLE_MAX,
        0 <= s.run_spec(evs).camera.azimuthal_angle < FULL_TURN,
{
    lemma_run_preserves_wf(s, evs);
}

/// For every scroll sequence the zoom stays within its fixed
/// `[ZOOM_MIN, ZOOM_MAX]` clamp, regardless of the input magnitude or
/// direction.
pub proof fn lemma_scroll_zoom_stays_clamped(s: RendererState, evs: Seq<CameraEvent>)
    requires
        s.camera.wf(),
    ensures
        ZOOM_MIN <= s.run_spec(evs).camera.zoom <= ZOOM_MAX,
{
    lemma_run_preserves_wf(s, evs);
}

} // verus!
