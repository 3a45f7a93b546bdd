//! The decisions behind the main window's commands: the state that is
//! saved, what restoring a saved state does, how maximizing toggles, and
//! which window events save the state.

use vstd::prelude::*;

verus! {

/// Width reported when the window's size cannot be read.
pub const DEFAULT_WIDTH: u32 = 960;

/// Height reported when the window's size cannot be read.
pub const DEFAULT_HEIGHT: u32 = 680;

/// Position, size and maximized flag of the main window.
#[derive(Debug, Clone, Copy, PartialEq, Eq, Structural)]
pub struct WindowState {
    pub x: i32,
    pub y: i32,
    pub width: u32,
    pub height: u32,
    pub maximized: bool,
}

/// An operation on the main window.
#[derive(Debug, Clone, Copy, PartialEq, Eq, Structural)]
pub enum WindowAction {
    Minimize,
    Maximize,
    Unmaximize,
    Close,
    StartDragging,
    SetSize { width: u32, height: u32 },
    SetPosition { x: i32, y: i32 },
    Focus,
}

/// A window event, as far as the decisions here tell events apart.
#[derive(Debug, Clone, Copy, PartialEq, Eq, Structural)]
pub enum WindowEvent {
    Resized,
    Moved,
    CloseRequested,
    Focused(bool),
    Other,
}

/// The state reported for the window from what could be read of it: the
/// outer position (else `(0, 0)`), the outer size (else 960 by 680) and
/// whether it is maximized (else not).
pub open spec fn spec_reported_state(
    position: Option<(i32, i32)>,
    size: Option<(u32, u32)>,
    maximized: Option<bool>,
) -> WindowState {
    WindowState {
        x: match position { Some(p) => p.0, None => 0i32 },
        y: match position { Some(p) => p.1, None => 0i32 },
        width: match size { Some(z) => z.0, None => DEFAULT_WIDTH },
        height: match size { Some(z) => z.1, None => DEFAULT_HEIGHT },
        maximized: maximized == Some(true),
    }
}

/// The state reported for the window (see `spec_reported_state`). The
/// position, the size and the maximized flag are each taken from their own
/// reading where it succeeded, whatever became of the others.
pub fn reported_state(
    position: Option<(i32, i32)>,
    size: Option<(u32, u32)>,
    maximized: Option<bool>,
) -> (s: WindowState)
    ensures
        s == spec_reported_state(position, size, maximized),
        position matches Some(p) ==> s.x == p.0 && s.y == p.1,
        position is None ==> s.x == 0 && s.y == 0,
        size matches Some(z) ==> s.width == z.0 && s.height == z.1,
        size is None ==> s.width == 960 && s.height == 680,
        s.maximized <==> maximized == Some(true),
{
    let (x, y) = match position {
        Some(p) => p,
        None => (0, 0),
    };
    let (width, height) = match size {
        Some(z) => z,
        None => (DEFAULT_WIDTH, DEFAULT_HEIGHT),
    };
    let maximized = match maximized {
        Some(m) => m,
        None => false,
    };
    WindowState { x, y, width, height, maximized }
}

/// The state saved when the window moves, is resized or is closed: only when
/// both its size and its position could be read; maximized where that reads
/// `true`.
pub open spec fn spec_captured_state(
    size: Option<(u32, u32)>,
    position: Option<(i32, i32)>,
    maximized: Option<bool>,
) -> Option<WindowState> {
    match (size, position) {
        (Some(z), Some(p)) => Some(
            WindowState { x: p.0, y: p.1, width: z.0, height: z.1, maximized: maximized == Some(true) },
        ),
        _ => None,
    }
}

/// What restoring a saved state does: nothing without one; else set the
/// saved size, then the saved position, as the window's normal bounds, and
/// where the saved window was maximized, unmaximize it first and maximize it
/// again last.
pub open spec fn spec_restore_actions(saved: Option<WindowState>) -> Seq<WindowAction> {
    match saved {
        None => Seq::empty(),
        Some(s) => if s.maximized {
            seq![
                WindowAction::Unmaximize,
                WindowAction::SetSize { width: s.width, height: s.height },
                WindowAction::SetPosition { x: s.x, y: s.y },
                WindowAction::Maximize,
            ]
        } else {
            seq![
                WindowAction::SetSize { width: s.width, height: s.height },
                WindowAction::SetPosition { x: s.x, y: s.y },
            ]
        },
    }
}

/// The state saved when the window moves, is resized or is closed (see
/// `spec_captured_state`).
pub fn captured_state(
    size: Option<(u32, u32)>,
    position: Option<(i32, i32)>,
    maximized: Option<bool>,
) -> (s: Option<WindowState>)
    ensures
        s == spec_captured_state(size, position, maximized),
{
    match (size, position) {
        (Some(z), Some(p)) => {
            let m = match maximized {
                Some(b) => b,
                None => false,
            };
            Some(WindowState { x: p.0, y: p.1, width: z.0, height: z.1, maximized: m })
        },
        _ => None,
    }
}

/// What restoring a saved state does (see `spec_restore_actions`).
pub fn restore_actions(saved: Option<WindowState>) -> (actions: Vec<WindowAction>)
    ensures
        actions@ == spec_restore_actions(saved),
{
    let mut actions: Vec<WindowAction> = Vec::new();
    match saved {
        None => {},
        Some(s) => {
            if s.maximized {
                actions.push(WindowAction::Unmaximize);
            }
            actions.push(WindowAction::SetSize { width: s.width, height: s.height });
            actions.push(WindowAction::SetPosition { x: s.x, y: s.y });
            if s.maximized {
                actions.push(WindowAction::Maximize);
            }
        },
    }
    assert(actions@ =~= spec_restore_actions(saved));
    actions
}

/// The maximize command toggles: it unmaximizes a window that reads as
/// maximized, and maximizes it otherwise (also where the flag cannot be
/// read).
pub fn maximize_toggle(is_maximized: Option<bool>) -> (a: WindowAction)
    ensures
        a == (if is_maximized == Some(true) {
            WindowAction::Unmaximize
        } else {
            WindowAction::Maximize
        }),
{
    match is_maximized {
        Some(true) => WindowAction::Unmaximize,
        _ => WindowAction::Maximize,
    }
}

/// The events on which the window's state is saved: resizing, moving, and a
/// request to close.
pub fn saves_state_on(event: WindowEvent) -> (b: bool)
    ensures
        b == (event == WindowEvent::Resized || event == WindowEvent::Moved || event
            == WindowEvent::CloseRequested),
{
    match event {
        WindowEvent::Resized | WindowEvent::Moved | WindowEvent::CloseRequested => true,
        _ => false,
    }
}

/// The frameless window takes the focus back when it gains focus (on macOS).
pub fn refocuses_on(event: WindowEvent) -> (b: bool)
    ensures
        b == (event == WindowEvent::Focused(true)),
{
    match event {
        WindowEvent::Focused(true) => true,
        _ => false,
    }
}

/// Restoring a state that was captured from the window sets the window's
/// normal bounds to the captured size and then the captured position, and
/// leaves it maximized exactly when it was captured maximized: the plan's
/// last maximize-or-unmaximize action is `Maximize` then, and there is none
/// that could leave it maximized otherwise.
pub proof fn lemma_restore_captured(size: (u32, u32), position: (i32, i32), maximized: Option<bool>)
    ensures
        ({
            let plan = spec_restore_actions(spec_captured_state(Some(size), Some(position), maximized));
            let n = plan.len();
            &&& exists|i: int| 0 <= i < n - 1
                && #[trigger] plan[i] == WindowAction::SetSize { width: size.0, height: size.1 }
                && plan[i + 1] == WindowAction::SetPosition { x: position.0, y: position.1 }
            &&& (maximized == Some(true) ==> plan.last() == WindowAction::Maximize)
            &&& (maximized != Some(true) ==> forall|i: int| 0 <= i < n ==> plan[i] != WindowAction::Maximize)
        }),
{
    let plan = spec_restore_actions(spec_captured_state(Some(size), Some(position), maximized));
    if maximized == Some(true) {
        assert(plan[1] == WindowAction::SetSize { width: size.0, height: size.1 });
    } else {
        assert(plan[0] == WindowAction::SetSize { width: size.0, height: size.1 });
    }
}

/// Each field of the reported state comes from its own reading: a size that
/// was read is reported whatever the position reading gave, and the other
/// way round; an unread position is the origin, an unread size 960 by 680.
pub proof fn lemma_reported_fields_independent(
    position: Option<(i32, i32)>,
    size: Option<(u32, u32)>,
    maximized: Option<bool>,
)
    ensures
        ({
            let s = spec_reported_state(position, size, maximized);
            &&& (position matches Some(p) ==> s.x == p.0 && s.y == p.1)
            &&& (position is None ==> s.x == 0 && s.y == 0)
            &&& (size matches Some(z) ==> s.width == z.0 && s.height == z.1)
            &&& (size is None ==> s.width == 960 && s.height == 680)
            &&& (s.maximized <==> maximized == Some(true))
        }),
{
}

/// Reading the size twice with different position readings reports the
/// same size, and reading the position twice with different size readings
/// reports the same position.
pub proof fn lemma_reported_readings_do_not_interfere(
    p1: Option<(i32, i32)>,
    p2: Option<(i32, i32)>,
    z1: Option<(u32, u32)>,
    z2: Option<(u32, u32)>,
    m: Option<bool>,
)
    ensures
        spec_reported_state(p1, z1, m).width == spec_reported_state(p2, z1, m).width,
        spec_reported_state(p1, z1, m).height == spec_reported_state(p2, z1, m).height,
        spec_reported_state(p1, z1, m).x == spec_reported_state(p1, z2, m).x,
        spec_reported_state(p1, z1, m).y == spec_reported_state(p1, z2, m).y,
{
}

/// Where both the size and the position of the window can be read, the
/// state saved on a window event is the state the window reports.
pub proof fn lemma_captured_is_reported(size: (u32, u32), position: (i32, i32), maximized: Option<bool>)
    ensures
        spec_captured_state(Some(size), Some(position), maximized) == Some(
            spec_reported_state(Some(position), Some(size), maximized),
        ),
{
}

} // verus!
