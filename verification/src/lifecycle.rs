//! Window and context lifecycle, and the event dispatcher.
//!
//! The handler is a state machine over the phases `Uninitialized`,
//! `Suspended`, `Active` and `Terminated`. A resume signal creates the
//! drawable surface, makes the context current and — only the first time —
//! constructs the renderer state; later resumes reuse it. Resize with a
//! degenerate dimension is a no-op; close requests set the termination
//! flag; redraws forward the current surface size. Input events are routed
//! to the renderer's hooks. Every transition is expressed as a value-level
//! step that also lists the actions the unverified shell must perform, in
//! order.

use vstd::prelude::*;
use crate::camera::{
    CameraEvent, ElementState, KeyboardInput, MouseButton, MouseScrollDelta, RendererState,
    TouchPhase,
};

verus! {

/// Where the handler stands in the window's life.
#[derive(Clone, Copy, Debug, PartialEq, Eq, Structural)]
pub enum Phase {
    /// No configuration negotiated yet.
    Uninitialized,
    /// Configuration and context exist; no drawable surface yet.
    Suspended,
    /// Surface created, context current, renderer constructed.
    Active,
    /// A close was requested; the owning loop consumes the flag.
    Terminated,
}

/// One platform event, already reduced to plain values.
#[derive(Clone, Copy, Debug, PartialEq, Eq)]
pub enum PlatformEvent {
    /// The platform resumed the window; the fields carry its current size.
    Resumed { width: u32, height: u32 },
    /// The window was resized.
    Resized { width: u32, height: u32 },
    /// The user asked to close the window.
    CloseRequested,
    /// A pointer button changed state.
    MouseInput { state: ElementState, button: MouseButton },
    /// The wheel scrolled.
    MouseWheel { delta: MouseScrollDelta, phase: TouchPhase },
    /// A key changed state.
    KeyboardInput { input: KeyboardInput },
    /// The pointer moved to a position in surface pixels.
    CursorMoved { x: i32, y: i32 },
    /// The pointer entered the window.
    CursorEntered,
    /// The pointer left the window.
    CursorLeft,
    /// The platform asked for a redraw.
    RedrawRequested,
    /// The platform suspended the window; its surface is gone until the
    /// next resume.
    Suspended,
    /// Any event the viewer does not react to.
    Other,
}

/// One action the unverified shell performs on the handler's behalf.
#[derive(Clone, Copy, Debug, PartialEq, Eq)]
pub enum HandlerAction {
    /// Create (or recreate) the drawable surface at this size and make the
    /// context current against it.
    CreateSurface { width: u32, height: u32 },
    /// Construct the renderer's graphics-side objects against the live
    /// display. Emitted at most once per handler.
    ConstructRenderer,
    /// Resubmit new drawable dimensions to the surface.
    ResizeSurface { width: u32, height: u32 },
    /// Forward the new dimensions to the viewport.
    ResizeViewport { width: u32, height: u32 },
    /// Draw one frame at the current surface size.
    Draw { width: u32, height: u32 },
    /// Ask the platform for another redraw.
    RequestRedraw,
    /// Present the drawn frame.
    SwapBuffers,
    /// Release the drawable surface.
    DestroySurface,
    /// Stop the event loop.
    RequestExit,
}

/// The dispatcher's state: the lifecycle phase, the surface dimensions it
/// last accepted, the renderer state once constructed, and the
/// termination flag.
#[derive(Clone, Copy, Debug, PartialEq, Eq)]
pub struct EventsHandler {
    pub phase: Phase,
    pub surface_size: Option<(u32, u32)>,
    pub renderer: Option<RendererState>,
    pub exit_requested: bool,
}

impl EventsHandler {
    /// Validity: an active handler has a surface and a renderer, and any
    /// constructed renderer has a well-formed camera.
    pub open spec fn wf(self) -> bool {
        &&& self.phase is Active ==> self.surface_size is Some && self.renderer is Some
        &&& self.renderer matches Some(r) ==> r.camera.wf()
    }

    /// The handler before anything was negotiated with the platform.
    pub open spec fn initial_spec() -> EventsHandler {
        EventsHandler {
            phase: Phase::Uninitialized,
            surface_size: None,
            renderer: None,
            exit_requested: false,
        }
    }

    /// A resume while suspended creates the surface, makes the context
    /// current, and constructs the renderer state only if none exists yet;
    /// in any other phase it changes nothing.
    pub open spec fn resumed_spec(self, width: u32, height: u32) -> (
        EventsHandler,
        Seq<HandlerAction>,
    ) {
        if self.phase is Suspended {
            let base = seq![(HandlerAction::CreateSurface { width, height })];
            let (renderer, actions) = match self.renderer {
                Some(r) => (r, base),
                None => (RendererState::initial_spec(), base.push(HandlerAction::ConstructRenderer)),
            };
            (
                EventsHandler {
                    phase: Phase::Active,
                    surface_size: Some((width, height)),
                    renderer: Some(renderer),
                    ..self
                },
                actions,
            )
        } else {
            (self, Seq::empty())
        }
    }

    /// A resize with both dimensions nonzero, while active, records the
    /// new size and forwards it to the surface and the viewport; a
    /// degenerate size — one dimension zero — changes nothing at all.
    pub open spec fn resized_spec(self, width: u32, height: u32) -> (
        EventsHandler,
        Seq<HandlerAction>,
    ) {
        if width == 0 || height == 0 {
            (self, Seq::empty())
        } else if self.phase is Active {
            (
                EventsHandler { surface_size: Some((width, height)), ..self },
                seq![
                    (HandlerAction::ResizeSurface { width, height }),
                    (HandlerAction::ResizeViewport { width, height }),
                ],
            )
        } else {
            (self, Seq::empty())
        }
    }

    /// A suspend while active releases the surface but keeps the renderer,
    /// so that the next resume reuses it; in any other phase it changes
    /// nothing.
    pub open spec fn suspended_spec(self) -> (EventsHandler, Seq<HandlerAction>) {
        if self.phase is Active {
            (
                EventsHandler { phase: Phase::Suspended, surface_size: None, ..self },
                seq![HandlerAction::DestroySurface],
            )
        } else {
            (self, Seq::empty())
        }
    }

    /// A close request sets the termination flag and asks the loop to
    /// stop.
    pub open spec fn close_spec(self) -> (EventsHandler, Seq<HandlerAction>) {
        (
            EventsHandler { phase: Phase::Terminated, exit_requested: true, ..self },
            seq![HandlerAction::RequestExit],
        )
    }

    /// A due redraw, while active, draws at the current surface size, asks
    /// for the next redraw and presents; otherwise nothing happens.
    pub open spec fn redraw_spec(self) -> (EventsHandler, Seq<HandlerAction>) {
        if self.phase is Active {
            match self.surface_size {
                Some((width, height)) => (
                    self,
                    seq![
                        (HandlerAction::Draw { width, height }),
                        HandlerAction::RequestRedraw,
                        HandlerAction::SwapBuffers,
                    ],
                ),
                None => (self, Seq::empty()),
            }
        } else {
            (self, Seq::empty())
        }
    }

    /// An input event is routed to the renderer's hook, if a renderer
    /// exists; it performs no shell action.
    pub open spec fn input_spec(self, ev: CameraEvent) -> (EventsHandler, Seq<HandlerAction>) {
        match self.renderer {
            Some(r) => (
                EventsHandler { renderer: Some(r.step_spec(ev)), ..self },
                Seq::empty(),
            ),
            None => (self, Seq::empty()),
        }
    }

    /// The dispatch table: each platform event classified and routed.
    pub open spec fn handle_spec(self, ev: PlatformEvent) -> (EventsHandler, Seq<HandlerAction>) {
        match ev {
            PlatformEvent::Resumed { width, height } => self.resumed_spec(width, height),
            PlatformEvent::Resized { width, height } => self.resized_spec(width, height),
            PlatformEvent::CloseRequested => self.close_spec(),
            PlatformEvent::MouseInput { state, button } => self.input_spec(
                CameraEvent::MouseInput { state, button },
            ),
            PlatformEvent::MouseWheel { delta, phase } => self.input_spec(
                CameraEvent::MouseWheel { delta, phase },
            ),
            PlatformEvent::KeyboardInput { input } => self.input_spec(
                CameraEvent::Keyboard { input },
            ),
            PlatformEvent::CursorMoved { x, y } => self.input_spec(CameraEvent::CursorMove { x, y }),
            PlatformEvent::CursorEntered => self.input_spec(CameraEvent::CursorEnter),
            PlatformEvent::CursorLeft => self.input_spec(CameraEvent::CursorLeft),
            PlatformEvent::RedrawRequested => self.redraw_spec(),
            PlatformEvent::Suspended => self.suspended_spec(),
            PlatformEvent::Other => (self, Seq::empty()),
        }
    }

    /// The handler and the accumulated actions after a whole event
    /// sequence.
    pub open spec fn run_spec(self, evs: Seq<PlatformEvent>) -> (EventsHandler, Seq<HandlerAction>)
        decreases evs.len(),
    {
        if evs.len() == 0 {
            (self, Seq::empty())
        } else {
            let (h1, a1) = self.handle_spec(evs[0]);
            let (h2, a2) = h1.run_spec(evs.drop_first());
            (h2, a1 + a2)
        }
    }

    /// The handler before configuration negotiation.
    pub fn new() -> (r: EventsHandler)
        ensures
            r == EventsHandler::initial_spec(),
            r.wf(),
    {
        EventsHandler {
            phase: Phase::Uninitialized,
            surface_size: None,
            renderer: None,
            exit_requested: false,
        }
    }

    /// Record that the configuration was negotiated and a not-yet-current
    /// context was created: the handler is suspended until the first
    /// resume. Creation failures are fatal to startup and never reach
    /// this point.
    pub fn context_created(&mut self)
        requires
            old(self).wf(),
            old(self).phase is Uninitialized,
        ensures
            *final(self) == (EventsHandler { phase: Phase::Suspended, ..*old(self) }),
            final(self).wf(),
    {
        self.phase = Phase::Suspended;
    }

    /// Dispatch one platform event: mutate the state as the dispatch table
    /// says and return the actions the shell must perform, in order.
    pub fn handle(&mut self, ev: PlatformEvent) -> (r: Vec<HandlerAction>)
        requires
            old(self).wf(),
        ensures
            *final(self) == old(self).handle_spec(ev).0,
            r@ == old(self).handle_spec(ev).1,
            final(self).wf(),
    {
        match ev {
            PlatformEvent::Resumed { width, height } => self.handle_resumed_event(width, height),
            PlatformEvent::Resized { width, height } => self.resize(width, height),
            PlatformEvent::CloseRequested => {
                self.phase = Phase::Terminated;
                self.exit_requested = true;
                let mut actions: Vec<HandlerAction> = Vec::new();
                actions.push(HandlerAction::RequestExit);
                actions
            },
            PlatformEvent::MouseInput { state, button } => {
                if let Some(r) = &mut self.renderer {
                    r.mouse_input_hook(state, button);
                }
                Vec::new()
            },
            PlatformEvent::MouseWheel { delta, phase } => {
                if let Some(r) = &mut self.renderer {
                    r.mouse_wheel_hook(delta, phase);
                }
                Vec::new()
            },
            PlatformEvent::KeyboardInput { input } => {
                if let Some(r) = &mut self.renderer {
                    r.keyboard_input_hook(input);
                }
                Vec::new()
            },
            PlatformEvent::CursorMoved { x, y } => {
                if let Some(r) = &mut self.renderer {
                    r.cursor_move_hook(x, y);
                }
                Vec::new()
            },
            PlatformEvent::CursorEntered => {
                if let Some(r) = &mut self.renderer {
                    r.cursor_enter_hook();
                }
                Vec::new()
            },
            PlatformEvent::CursorLeft => {
                if let Some(r) = &mut self.renderer {
                    r.cursor_left_hook();
                }
                Vec::new()
            },
            PlatformEvent::RedrawRequested => self.handle_redraw_event(),
            PlatformEvent::Suspended => self.handle_suspended_event(),
            PlatformEvent::Other => Vec::new(),
        }
    }

    /// Release the surface on a suspend; the renderer survives for the
    /// next resume.
    fn handle_suspended_event(&mut self) -> (r: Vec<HandlerAction>)
        requires
            old(self).wf(),
        ensures
            *final(self) == old(self).suspended_spec().0,
            r@ == old(self).suspended_spec().1,
            final(self).wf(),
    {
        if !matches!(self.phase, Phase::Active) {
            return Vec::new();
        }
        self.phase = Phase::Suspended;
        self.surface_size = None;
        let mut actions: Vec<HandlerAction> = Vec::new();
        actions.push(HandlerAction::DestroySurface);
        actions
    }

    /// Create the surface and make the context current; construct the
    /// renderer state only on the first resume.
    fn handle_resumed_event(&mut self, width: u32, height: u32) -> (r: Vec<HandlerAction>)
        requires
            old(self).wf(),
        ensures
            *final(self) == old(self).resumed_spec(width, height).0,
            r@ == old(self).resumed_spec(width, height).1,
            final(self).wf(),
    {
        if !matches!(self.phase, Phase::Suspended) {
            return Vec::new();
        }
        let mut actions: Vec<HandlerAction> = Vec::new();
        actions.push(HandlerAction::CreateSurface { width, height });
        if self.renderer.is_none() {
            self.renderer = Some(RendererState::new());
            actions.push(HandlerAction::ConstructRenderer);
        }
        self.phase = Phase::Active;
        self.surface_size = Some((width, height));
        actions
    }

    /// Accept a resize, skipping degenerate sizes entirely.
    fn resize(&mut self, width: u32, height: u32) -> (r: Vec<HandlerAction>)
        requires
            old(self).wf(),
        ensures
            *final(self) == old(self).resized_spec(width, height).0,
            r@ == old(self).resized_spec(width, height).1,
            final(self).wf(),
    {
        if width == 0 || height == 0 {
            return Vec::new();
        }
        if !matches!(self.phase, Phase::Active) {
            return Vec::new();
        }
        self.surface_size = Some((width, height));
        let mut actions: Vec<HandlerAction> = Vec::new();
        actions.push(HandlerAction::ResizeSurface { width, height });
        actions.push(HandlerAction::ResizeViewport { width, height });
        actions
    }

    /// Draw at the current surface size, queue the next redraw, present.
    fn handle_redraw_event(&mut self) -> (r: Vec<HandlerAction>)
        requires
            old(self).wf(),
        ensures
            *final(self) == old(self).redraw_spec().0,
            r@ == old(self).redraw_spec().1,
            final(self).wf(),
    {
        if !matches!(self.phase, Phase::Active) {
            return Vec::new();
        }
        match self.surface_size {
            Some((width, height)) => {
                let mut actions: Vec<HandlerAction> = Vec::new();
                actions.push(HandlerAction::Draw { width, height });
                actions.push(HandlerAction::RequestRedraw);
                actions.push(HandlerAction::SwapBuffers);
                actions
            },
            None => Vec::new(),
        }
    }
}

/// Pick the configuration with the highest multisample count among the
/// offered ones: the index of the last maximum, matching a fold that
/// keeps the later of two equal candidates.
pub fn best_config_index(sample_counts: &Vec<u8>) -> (r: usize)
    requires
        sample_counts@.len() > 0,
    ensures
        r < sample_counts@.len(),
        forall|i: int|
            0 <= i < sample_counts@.len() ==> #[trigger] sample_counts@[i] <= sample_counts@[
                r as int
            ],
        forall|i: int|
            r < i < sample_counts@.len() ==> #[trigger] sample_counts@[i] < sample_counts@[
                r as int
            ],
{
    let mut best: usize = 0;
    let mut i: usize = 1;
    while i < sample_counts.len()
        invariant
            0 < i <= sample_counts@.len(),
            best < i,
            forall|j: int| 0 <= j < i ==> #[trigger] sample_counts@[j] <= sample_counts@[best as int],
            forall|j: int|
                best < j < i ==> #[trigger] sample_counts@[j] < sample_counts@[best as int],
        decreases sample_counts@.len() - i,
    {
        if sample_counts[i] >= sample_counts[best] {
            best = i;
        }
        i += 1;
    }
    best
}

/// How many renderer constructions a list of actions asks for.
pub open spec fn count_construct(actions: Seq<HandlerAction>) -> int
    decreases actions.len(),
{
    if actions.len() == 0 {
        0
    } else {
        (if actions[0] is ConstructRenderer {
            1int
        } else {
            0int
        }) + count_construct(actions.drop_first())
    }
}

/// Construction counts add over concatenation.
proof fn lemma_count_construct_add(a: Seq<HandlerAction>, b: Seq<HandlerAction>)
    ensures
        count_construct(a + b) == count_construct(a) + count_construct(b),
    decreases a.len(),
{
    if a.len() == 0 {
        assert(a + b =~= b);
    } else {
        assert((a + b).drop_first() =~= a.drop_first() + b);
        lemma_count_construct_add(a.drop_first(), b);
    }
}

/// One dispatch asks for a renderer construction only when none exists:
/// with a renderer present no construction is ever emitted, and a
/// constructed renderer never goes away.
pub proof fn lemma_handle_constructs_at_most_once(h: EventsHandler, ev: PlatformEvent)
    ensures
        ({
            let (h1, acts) = h.handle_spec(ev);
            &&& h.renderer is Some ==> count_construct(acts) == 0 && h1.renderer is Some
            &&& h.renderer is None ==> count_construct(acts) <= 1 && (count_construct(acts) == 1
                ==> h1.renderer is Some)
            &&& h.renderer is Some ==> h1.renderer is Some
        }),
{
    let (h1, acts) = h.handle_spec(ev);
    reveal_with_fuel(count_construct, 5);
    match ev {
        PlatformEvent::Resumed { width, height } => {
            if h.phase is Suspended {
                if h.renderer is Some {
                    assert(acts =~= seq![(HandlerAction::CreateSurface { width, height })]);
                } else {
                    assert(acts =~= seq![
                        (HandlerAction::CreateSurface { width, height }),
                        HandlerAction::ConstructRenderer,
                    ]);
                    assert(acts.drop_first() =~= seq![HandlerAction::ConstructRenderer]);
                    assert(acts.drop_first().drop_first() =~= Seq::<HandlerAction>::empty());
                }
            }
        },
        PlatformEvent::Resized { width, height } => {
            if !(width == 0 || height == 0) && h.phase is Active {
                assert(acts.drop_first() =~= seq![
                    (HandlerAction::ResizeViewport { width, height }),
                ]);
                assert(acts.drop_first().drop_first() =~= Seq::<HandlerAction>::empty());
            }
        },
        PlatformEvent::CloseRequested => {
            assert(acts.drop_first() =~= Seq::<HandlerAction>::empty());
        },
        PlatformEvent::Suspended => {
            if h.phase is Active {
                assert(acts.drop_first() =~= Seq::<HandlerAction>::empty());
            }
        },
        PlatformEvent::RedrawRequested => {
            if h.phase is Active && h.surface_size is Some {
                assert(acts.drop_first().drop_first().drop_first()
                    =~= Seq::<HandlerAction>::empty());
            }
        },
        _ => {},
    }
}

/// Over every event sequence the renderer is constructed at most once —
/// and never again once one exists, however many resume signals arrive.
pub proof fn lemma_renderer_constructed_at_most_once(h: EventsHandler, evs: Seq<PlatformEvent>)
    ensures
        ({
            let (h1, acts) = h.run_spec(evs);
            count_construct(acts) <= if h.renderer is Some {
                0int
            } else {
                1int
            }
        }),
    decreases evs.len(),
{
    if evs.len() == 0 {
    } else {
        let (h1, a1) = h.handle_spec(evs[0]);
        let (h2, a2) = h1.run_spec(evs.drop_first());
        lemma_handle_constructs_at_most_once(h, evs[0]);
        lemma_renderer_constructed_at_most_once(h1, evs.drop_first());
        lemma_count_construct_add(a1, a2);
    }
}

/// Dispatching any event keeps the handler well formed.
pub proof fn lemma_handle_preserves_wf(h: EventsHandler, ev: PlatformEvent)
    requires
        h.wf(),
    ensures
        h.handle_spec(ev).0.wf(),
{
    match h.renderer {
        Some(r) => {
            match ev {
                PlatformEvent::MouseInput { state, button } => {
                    crate::camera::lemma_step_preserves_wf(
                        r,
                        CameraEvent::MouseInput { state, button },
                    );
                },
                PlatformEvent::MouseWheel { delta, phase } => {
                    crate::camera::lemma_step_preserves_wf(
                        r,
                        CameraEvent::MouseWheel { delta, phase },
                    );
                },
                PlatformEvent::KeyboardInput { input } => {
                    crate::camera::lemma_step_preserves_wf(r, CameraEvent::Keyboard { input });
                },
                PlatformEvent::CursorMoved { x, y } => {
                    crate::camera::lemma_step_preserves_wf(r, CameraEvent::CursorMove { x, y });
                },
                PlatformEvent::CursorEntered => {
                    crate::camera::lemma_step_preserves_wf(r, CameraEvent::CursorEnter);
                },
                PlatformEvent::CursorLeft => {
                    crate::camera::lemma_step_preserves_wf(r, CameraEvent::CursorLeft);
                },
                _ => {},
            }
        },
        None => {},
    }
}

/// Over every event sequence the handler stays well formed; in
/// particular the camera of any constructed renderer keeps its angles and
/// zoom within their fixed ranges, whatever the platform sends.
pub proof fn lemma_run_preserves_wf(h: EventsHandler, evs: Seq<PlatformEvent>)
    requires
        h.wf(),
    ensures
        h.run_spec(evs).0.wf(),
    decreases evs.len(),
{
    if evs.len() > 0 {
        lemma_handle_preserves_wf(h, evs[0]);
        lemma_run_preserves_wf(h.handle_spec(evs[0]).0, evs.drop_first());
    }
}

/// The termination flag is monotone: once a close request set it, no
/// later event clears it.
pub proof fn lemma_exit_flag_is_monotone(h: EventsHandler, evs: Seq<PlatformEvent>)
    requires
        h.exit_requested,
    ensures
        h.run_spec(evs).0.exit_requested,
    decreases evs.len(),
{
    if evs.len() > 0 {
        lemma_exit_flag_is_monotone(h.handle_spec(evs[0]).0, evs.drop_first());
    }
}

/// A resize to a degenerate size — `(0, h)` or `(w, 0)` — is a complete
/// no-op: the prior surface dimensions, and everything else, stay
/// unchanged, and no action is emitted.
pub proof fn lemma_degenerate_resize_is_noop(h: EventsHandler, width: u32, height: u32)
    requires
        width == 0 || height == 0,
    ensures
        h.handle_spec(PlatformEvent::Resized { width, height }) == (h, Seq::<HandlerAction>::empty()),
{
}

} // verus!
