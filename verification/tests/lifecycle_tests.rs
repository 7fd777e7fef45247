use surface_viewer::camera::{
    ElementState, KeyCode, KeyboardInput, MouseButton, MouseScrollDelta, Projection, TouchPhase,
    ZOOM_DEFAULT,
};
use surface_viewer::lifecycle::{
    best_config_index, EventsHandler, HandlerAction, Phase, PlatformEvent,
};

fn fresh_handler() -> EventsHandler {
    let mut h = EventsHandler::new();
    h.context_created();
    h
}

#[test]
fn handler_phases_before_first_resume() {
    let mut h = EventsHandler::new();
    assert_eq!(h.phase, Phase::Uninitialized);
    assert_eq!(h.surface_size, None);
    assert!(h.renderer.is_none());
    assert!(!h.exit_requested);
    // A resume before the context exists changes nothing.
    let actions = h.handle(PlatformEvent::Resumed { width: 800, height: 600 });
    assert!(actions.is_empty());
    assert_eq!(h.phase, Phase::Uninitialized);
    h.context_created();
    assert_eq!(h.phase, Phase::Suspended);
}

#[test]
fn first_resume_creates_surface_and_constructs_renderer() {
    let mut h = fresh_handler();
    let actions = h.handle(PlatformEvent::Resumed { width: 800, height: 600 });
    assert_eq!(
        actions,
        vec![
            HandlerAction::CreateSurface { width: 800, height: 600 },
            HandlerAction::ConstructRenderer,
        ]
    );
    assert_eq!(h.phase, Phase::Active);
    assert_eq!(h.surface_size, Some((800, 600)));
    assert!(h.renderer.is_some());
}

#[test]
fn resume_after_suspend_reuses_renderer() {
    let mut h = fresh_handler();
    h.handle(PlatformEvent::Resumed { width: 800, height: 600 });
    // Rotate the camera so the reused renderer is distinguishable from a
    // fresh one.
    h.handle(PlatformEvent::MouseInput { state: ElementState::Pressed, button: MouseButton::Left });
    h.handle(PlatformEvent::CursorMoved { x: 0, y: 0 });
    h.handle(PlatformEvent::CursorMoved { x: 100, y: 0 });
    let azimuth = h.renderer.unwrap().camera.azimuthal_angle;
    assert!(azimuth > 0);

    let actions = h.handle(PlatformEvent::Suspended);
    assert_eq!(actions, vec![HandlerAction::DestroySurface]);
    assert_eq!(h.phase, Phase::Suspended);
    assert_eq!(h.surface_size, None);
    assert!(h.renderer.is_some());

    let actions = h.handle(PlatformEvent::Resumed { width: 400, height: 300 });
    // No second ConstructRenderer: the existing renderer is reused.
    assert_eq!(actions, vec![HandlerAction::CreateSurface { width: 400, height: 300 }]);
    assert_eq!(h.renderer.unwrap().camera.azimuthal_angle, azimuth);
}

#[test]
fn resume_while_active_is_a_no_op() {
    let mut h = fresh_handler();
    h.handle(PlatformEvent::Resumed { width: 800, height: 600 });
    let actions = h.handle(PlatformEvent::Resumed { width: 999, height: 999 });
    assert!(actions.is_empty());
    assert_eq!(h.surface_size, Some((800, 600)));
}

#[test]
fn degenerate_resize_keeps_prior_dimensions() {
    let mut h = fresh_handler();
    h.handle(PlatformEvent::Resumed { width: 800, height: 600 });
    let actions = h.handle(PlatformEvent::Resized { width: 0, height: 720 });
    assert!(actions.is_empty());
    assert_eq!(h.surface_size, Some((800, 600)));
    let actions = h.handle(PlatformEvent::Resized { width: 1280, height: 0 });
    assert!(actions.is_empty());
    assert_eq!(h.surface_size, Some((800, 600)));
}

#[test]
fn proper_resize_updates_surface_and_viewport() {
    let mut h = fresh_handler();
    h.handle(PlatformEvent::Resumed { width: 800, height: 600 });
    let actions = h.handle(PlatformEvent::Resized { width: 1280, height: 720 });
    assert_eq!(
        actions,
        vec![
            HandlerAction::ResizeSurface { width: 1280, height: 720 },
            HandlerAction::ResizeViewport { width: 1280, height: 720 },
        ]
    );
    assert_eq!(h.surface_size, Some((1280, 720)));
}

#[test]
fn resize_before_resume_is_a_no_op() {
    let mut h = fresh_handler();
    let actions = h.handle(PlatformEvent::Resized { width: 1280, height: 720 });
    assert!(actions.is_empty());
    assert_eq!(h.surface_size, None);
}

#[test]
fn redraw_draws_at_current_size_then_requeues_and_swaps() {
    let mut h = fresh_handler();
    h.handle(PlatformEvent::Resumed { width: 800, height: 600 });
    let actions = h.handle(PlatformEvent::RedrawRequested);
    assert_eq!(
        actions,
        vec![
            HandlerAction::Draw { width: 800, height: 600 },
            HandlerAction::RequestRedraw,
            HandlerAction::SwapBuffers,
        ]
    );
}

#[test]
fn redraw_before_resume_does_nothing() {
    let mut h = fresh_handler();
    let actions = h.handle(PlatformEvent::RedrawRequested);
    assert!(actions.is_empty());
}

#[test]
fn close_request_sets_termination_flag() {
    let mut h = fresh_handler();
    h.handle(PlatformEvent::Resumed { width: 800, height: 600 });
    let actions = h.handle(PlatformEvent::CloseRequested);
    assert_eq!(actions, vec![HandlerAction::RequestExit]);
    assert!(h.exit_requested);
    assert_eq!(h.phase, Phase::Terminated);
}

#[test]
fn input_events_reach_the_renderer_hooks() {
    let mut h = fresh_handler();
    h.handle(PlatformEvent::Resumed { width: 800, height: 600 });
    h.handle(PlatformEvent::MouseWheel {
        delta: MouseScrollDelta::LineDelta(1000),
        phase: TouchPhase::Moved,
    });
    assert_eq!(h.renderer.unwrap().camera.zoom, ZOOM_DEFAULT + 100);
    h.handle(PlatformEvent::KeyboardInput {
        input: KeyboardInput {
            state: ElementState::Pressed,
            virtual_keycode: Some(KeyCode::Key2),
        },
    });
    assert_eq!(h.renderer.unwrap().camera.projection, Projection::Axonometric);
    h.handle(PlatformEvent::CursorLeft);
    assert!(h.renderer.unwrap().camera.cursor_left);
    h.handle(PlatformEvent::CursorEntered);
    assert!(!h.renderer.unwrap().camera.cursor_left);
}

#[test]
fn input_before_any_resume_is_tolerated() {
    let mut h = fresh_handler();
    let actions = h.handle(PlatformEvent::MouseWheel {
        delta: MouseScrollDelta::LineDelta(1000),
        phase: TouchPhase::Moved,
    });
    assert!(actions.is_empty());
    assert!(h.renderer.is_none());
}

#[test]
fn unclassified_events_do_nothing() {
    let mut h = fresh_handler();
    let before = h;
    let actions = h.handle(PlatformEvent::Other);
    assert!(actions.is_empty());
    assert_eq!(h, before);
}

#[test]
fn config_choice_maximizes_samples_taking_the_last_tie() {
    assert_eq!(best_config_index(&vec![0]), 0);
    assert_eq!(best_config_index(&vec![2, 8, 4]), 1);
    assert_eq!(best_config_index(&vec![8, 1, 8]), 2);
    assert_eq!(best_config_index(&vec![3, 3, 3]), 2);
    assert_eq!(best_config_index(&vec![0, 2, 4, 16, 16, 8]), 4);
}
