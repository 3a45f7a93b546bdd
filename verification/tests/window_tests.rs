use template_app::window::{
    captured_state, maximize_toggle, refocuses_on, reported_state, restore_actions, saves_state_on,
    WindowAction, WindowEvent, WindowState, DEFAULT_HEIGHT, DEFAULT_WIDTH,
};

#[test]
fn reported_state_uses_what_was_read() {
    let s = reported_state(Some((10, -20)), Some((800, 600)), Some(true));
    assert_eq!(s, WindowState { x: 10, y: -20, width: 800, height: 600, maximized: true });
}

#[test]
fn reported_state_falls_back_to_defaults() {
    let s = reported_state(None, None, None);
    assert_eq!(s, WindowState { x: 0, y: 0, width: 960, height: 680, maximized: false });
    assert_eq!((DEFAULT_WIDTH, DEFAULT_HEIGHT), (960, 680));
    let s = reported_state(Some((5, 6)), None, Some(false));
    assert_eq!(s, WindowState { x: 5, y: 6, width: 960, height: 680, maximized: false });
}

#[test]
fn captured_state_needs_size_and_position() {
    assert_eq!(captured_state(None, Some((1, 2)), Some(true)), None);
    assert_eq!(captured_state(Some((3, 4)), None, Some(true)), None);
    assert_eq!(
        captured_state(Some((300, 400)), Some((1, 2)), None),
        Some(WindowState { x: 1, y: 2, width: 300, height: 400, maximized: false })
    );
    assert_eq!(
        captured_state(Some((300, 400)), Some((1, 2)), Some(true)),
        Some(WindowState { x: 1, y: 2, width: 300, height: 400, maximized: true })
    );
}

#[test]
fn restore_without_saved_state_does_nothing() {
    assert!(restore_actions(None).is_empty());
}

#[test]
fn restore_sets_size_then_position() {
    let s = WindowState { x: -3, y: 7, width: 1024, height: 768, maximized: false };
    assert_eq!(
        restore_actions(Some(s)),
        vec![
            WindowAction::SetSize { width: 1024, height: 768 },
            WindowAction::SetPosition { x: -3, y: 7 },
        ]
    );
}

#[test]
fn restore_sets_bounds_then_maximizes() {
    let s = WindowState { x: 0, y: 0, width: 1, height: 2, maximized: true };
    assert_eq!(
        restore_actions(Some(s)),
        vec![
            WindowAction::Unmaximize,
            WindowAction::SetSize { width: 1, height: 2 },
            WindowAction::SetPosition { x: 0, y: 0 },
            WindowAction::Maximize,
        ]
    );
}

#[test]
fn maximize_toggles() {
    assert_eq!(maximize_toggle(Some(true)), WindowAction::Unmaximize);
    assert_eq!(maximize_toggle(Some(false)), WindowAction::Maximize);
    assert_eq!(maximize_toggle(None), WindowAction::Maximize);
}

#[test]
fn events_that_save_state() {
    assert!(saves_state_on(WindowEvent::Resized));
    assert!(saves_state_on(WindowEvent::Moved));
    assert!(saves_state_on(WindowEvent::CloseRequested));
    assert!(!saves_state_on(WindowEvent::Focused(true)));
    assert!(!saves_state_on(WindowEvent::Other));
}

#[test]
fn refocus_only_on_gaining_focus() {
    assert!(refocuses_on(WindowEvent::Focused(true)));
    assert!(!refocuses_on(WindowEvent::Focused(false)));
    assert!(!refocuses_on(WindowEvent::Moved));
}

#[test]
fn restoring_a_captured_state_sets_it_back() {
    let saved = captured_state(Some((1280, 720)), Some((40, 30)), Some(true)).unwrap();
    let plan = restore_actions(Some(saved));
    assert_eq!(plan.first(), Some(&WindowAction::Unmaximize));
    assert_eq!(plan[1], WindowAction::SetSize { width: 1280, height: 720 });
    assert_eq!(plan[2], WindowAction::SetPosition { x: 40, y: 30 });
    assert_eq!(plan.last(), Some(&WindowAction::Maximize));
    let plain = restore_actions(captured_state(Some((1280, 720)), Some((40, 30)), Some(false)));
    assert!(!plain.contains(&WindowAction::Maximize));
}

#[test]
fn captured_state_is_the_reported_state() {
    let captured = captured_state(Some((1280, 720)), Some((40, 30)), None);
    assert_eq!(captured, Some(reported_state(Some((40, 30)), Some((1280, 720)), None)));
}
