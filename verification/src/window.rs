//! Showing and hiding the main window.
//!
//! The window is never closed or hidden for real, so that the page in it keeps
//! running: to hide it, it is parked far off screen and shrunk to one pixel.

use vstd::prelude::*;
use vstd::string::StringExecFns;

verus! {

/// What is to be done with the main window.
#[derive(Clone, Copy, Debug, PartialEq, Eq)]
pub enum WindowAction {
    /// Move it to `x`, `y` and give it this size.
    Park { x: i32, y: i32, width: u32, height: u32 },
    /// Give it this size, centre it, let it join all workspaces, focus it and
    /// tell the page that it is shown.
    Present { width: u32, height: u32 },
    /// Leave it alone.
    Nothing,
}

/// Where a parked window is put, on both axes.
pub const PARKED_AT: i32 = -2000;

/// A window further left or further up than this counts as hidden.
pub const HIDDEN_BEYOND: i32 = -1000;

/// Width and height of a parked window.
pub const PARKED_SIDE: u32 = 1;

/// Width of the window when it is presented.
pub const PRESENTED_WIDTH: u32 = 1400;

/// Height of the window when it is presented.
pub const PRESENTED_HEIGHT: u32 = 1000;

/// How long, in milliseconds, the window is shown at start before it is
/// parked, so that the page in it begins to run.
pub const PAGE_START_MS: u64 = 500;

/// Parking: far off to the upper left, one pixel wide and high.
pub open spec fn park() -> WindowAction {
    WindowAction::Park { x: PARKED_AT, y: PARKED_AT, width: PARKED_SIDE, height: PARKED_SIDE }
}

/// Presenting: at the size the window is meant to have.
pub open spec fn present() -> WindowAction {
    WindowAction::Present { width: PRESENTED_WIDTH, height: PRESENTED_HEIGHT }
}

/// One thing that is done to the window.
#[derive(Clone, Copy, Debug, PartialEq, Eq, Structural)]
pub enum WindowStep {
    /// Put its upper left corner here.
    MoveTo { x: i32, y: i32 },
    /// Give it this size.
    Resize { width: u32, height: u32 },
    /// Put it in the middle of the screen.
    Center,
    /// Let it be seen on every workspace.
    JoinAllWorkspaces,
    /// Give it the focus.
    Focus,
    /// Tell the page that the window is shown.
    TellPage,
}

/// The steps that an action is made of, in the order in which they are taken.
pub open spec fn steps_of(action: WindowAction) -> Seq<WindowStep> {
    match action {
        WindowAction::Park { x, y, width, height } => seq![
            WindowStep::MoveTo { x, y },
            WindowStep::Resize { width, height },
        ],
        WindowAction::Present { width, height } => seq![
            WindowStep::Resize { width, height },
            WindowStep::Center,
            WindowStep::JoinAllWorkspaces,
            WindowStep::Focus,
            WindowStep::TellPage,
        ],
        WindowAction::Nothing => Seq::<WindowStep>::empty(),
    }
}

/// Whether a step that fails ends an action that was asked for by a command:
/// moving, resizing, centring and focusing do, the other two are only tried.
/// (An action that answers a click, a menu item or a close request has
/// nobody to report to, and goes on whatever fails.)
pub open spec fn ends_on_failure(step: WindowStep) -> bool {
    !(step is JoinAllWorkspaces) && !(step is TellPage)
}

/// Whether a window whose upper left corner is at `position` counts as
/// visible. A window whose position is not known counts as hidden.
pub open spec fn on_screen(position: Option<(i32, i32)>) -> bool {
    match position {
        Some((x, y)) => x > HIDDEN_BEYOND && y > HIDDEN_BEYOND,
        None => false,
    }
}

/// What a toggle does to a window at `position`.
pub open spec fn toggled(position: Option<(i32, i32)>) -> WindowAction {
    if on_screen(position) {
        park()
    } else {
        present()
    }
}

/// Whether a window at `position` counts as visible.
pub fn is_on_screen(position: Option<(i32, i32)>) -> (r: bool)
    ensures
        r == on_screen(position),
{
    match position {
        Some((x, y)) => x > HIDDEN_BEYOND && y > HIDDEN_BEYOND,
        None => false,
    }
}

/// The action that hides the window.
pub fn park_window() -> (r: WindowAction)
    ensures
        r == park(),
{
    WindowAction::Park { x: PARKED_AT, y: PARKED_AT, width: PARKED_SIDE, height: PARKED_SIDE }
}

/// The action that shows the window.
pub fn present_window() -> (r: WindowAction)
    ensures
        r == present(),
{
    WindowAction::Present { width: PRESENTED_WIDTH, height: PRESENTED_HEIGHT }
}

/// The steps that `action` is made of, in the order in which they are taken.
pub fn window_steps(action: WindowAction) -> (r: Vec<WindowStep>)
    ensures
        r@ == steps_of(action),
{
    let mut steps: Vec<WindowStep> = Vec::new();
    match action {
        WindowAction::Park { x, y, width, height } => {
            steps.push(WindowStep::MoveTo { x, y });
            steps.push(WindowStep::Resize { width, height });
        },
        WindowAction::Present { width, height } => {
            steps.push(WindowStep::Resize { width, height });
            steps.push(WindowStep::Center);
            steps.push(WindowStep::JoinAllWorkspaces);
            steps.push(WindowStep::Focus);
            steps.push(WindowStep::TellPage);
        },
        WindowAction::Nothing => {},
    }
    steps
}

/// Whether a failure of `step` ends an action that a command asked for.
pub fn step_ends_on_failure(step: WindowStep) -> (r: bool)
    ensures
        r == ends_on_failure(step),
{
    match step {
        WindowStep::JoinAllWorkspaces | WindowStep::TellPage => false,
        _ => true,
    }
}

/// Hides a window that is visible and shows one that is not.
pub fn toggle_window(position: Option<(i32, i32)>) -> (r: WindowAction)
    ensures
        r == toggled(position),
{
    if is_on_screen(position) {
        park_window()
    } else {
        present_window()
    }
}

/// The user asked to close the window: the close is to be prevented and the
/// window parked instead.
pub fn on_close_requested() -> (r: WindowAction)
    ensures
        r == park(),
{
    park_window()
}

/// The script that tells the page of an event.
pub open spec fn dispatch_script_text(event: Seq<char>) -> Seq<char> {
    "window.dispatchEvent(new Event('"@ + event + "'))"@
}

/// The script that tells the page of `event`.
pub fn dispatch_script(event: &str) -> (r: String)
    ensures
        r@ == dispatch_script_text(event@),
{
    String::from_str("window.dispatchEvent(new Event('").concat(event).concat("'))")
}

/// The event that tells the page that the window is shown.
pub fn window_shown_event() -> (r: &'static str)
    ensures
        r@ == "window-shown"@,
{
    "window-shown"
}

/// The event that tells the page to start.
pub fn initialize_event() -> (r: &'static str)
    ensures
        r@ == "initialize-app"@,
{
    "initialize-app"
}

/// A parked window counts as hidden, so the toggle after a parking presents
/// the window again; and this holds wherever the window system puts a window
/// that was asked to go at least as far out as the parking place.
pub proof fn law_parked_window_is_presented_next(x: i32, y: i32)
    requires
        x <= PARKED_AT || y <= PARKED_AT,
    ensures
        !on_screen(Some((x, y))),
        toggled(Some((x, y))) == present(),
        toggled(Some((PARKED_AT, PARKED_AT))) == present(),
{
}

} // verus!
