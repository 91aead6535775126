//! The tray icon itself: what it is made of, what a click on it and on its
//! menu does, and what is done when showing a state on it fails.

use crate::icon::{icon_path, icon_path_text};
use crate::icon_cache::{IconError, IconImage};
use crate::state::{Theme, TrayState};
use crate::text::str_eq;
use crate::window::{present, present_window, toggle_window, toggled, WindowAction};
use vstd::prelude::*;

verus! {

/// A mouse button.
#[derive(Clone, Copy, Debug, PartialEq, Eq, Structural)]
pub enum MouseButton {
    Left,
    Right,
    Middle,
}

/// What a click on the tray icon does to the main window, which is at
/// `position` (if that is known): the left button toggles it, the others do
/// nothing (the right one opens the menu, which the system does by itself).
pub open spec fn click_action(button: MouseButton, position: Option<(i32, i32)>) -> WindowAction {
    if button is Left {
        toggled(position)
    } else {
        WindowAction::Nothing
    }
}

/// What a click on the tray icon does to the main window.
pub fn on_tray_click(button: MouseButton, position: Option<(i32, i32)>) -> (r: WindowAction)
    ensures
        r == click_action(button, position),
{
    match button {
        MouseButton::Left => toggle_window(position),
        _ => WindowAction::Nothing,
    }
}

/// What choosing an item of the tray menu does.
#[derive(Clone, Copy, Debug, PartialEq, Eq)]
pub enum MenuAction {
    /// Carry this out on the main window.
    Window(WindowAction),
    /// End the application with this exit code.
    Quit { code: i32 },
    /// Nothing.
    Nothing,
}

/// The action behind the menu item `id`.
pub open spec fn menu_action_for(id: Seq<char>) -> MenuAction {
    if id == "settings"@ {
        MenuAction::Window(present())
    } else if id == "quit"@ {
        MenuAction::Quit { code: 0i32 }
    } else {
        MenuAction::Nothing
    }
}

/// What choosing the menu item `id` does.
pub fn on_menu_event(id: &str) -> (r: MenuAction)
    ensures
        r == menu_action_for(id@),
{
    if str_eq(id, "settings") {
        MenuAction::Window(present_window())
    } else if str_eq(id, "quit") {
        MenuAction::Quit { code: 0 }
    } else {
        MenuAction::Nothing
    }
}

/// An entry of the tray menu.
#[derive(Clone, Copy, Debug, PartialEq, Eq)]
pub enum MenuEntry {
    Item { id: &'static str, label: &'static str, enabled: bool },
    Separator,
}

/// An entry of the tray menu as a mathematical value.
pub enum MenuEntryText {
    Item { id: Seq<char>, label: Seq<char>, enabled: bool },
    Separator,
}

impl View for MenuEntry {
    type V = MenuEntryText;

    open spec fn view(&self) -> MenuEntryText {
        match self {
            MenuEntry::Item { id, label, enabled } => MenuEntryText::Item {
                id: id@,
                label: label@,
                enabled: *enabled,
            },
            MenuEntry::Separator => MenuEntryText::Separator,
        }
    }
}

/// The tray menu, from top to bottom.
pub open spec fn tray_menu_text() -> Seq<MenuEntryText> {
    seq![
        MenuEntryText::Item { id: "settings"@, label: "Settings"@, enabled: true },
        MenuEntryText::Separator,
        MenuEntryText::Item { id: "quit"@, label: "Quit AirCut"@, enabled: true },
    ]
}

/// The entries of the tray menu, from top to bottom.
pub fn tray_menu() -> (r: Vec<MenuEntry>)
    ensures
        r@.len() == tray_menu_text().len(),
        forall|i: int| 0 <= i < r@.len() ==> (#[trigger] r@[i])@ == tray_menu_text()[i],
{
    let mut entries: Vec<MenuEntry> = Vec::new();
    entries.push(MenuEntry::Item { id: "settings", label: "Settings", enabled: true });
    entries.push(MenuEntry::Separator);
    entries.push(MenuEntry::Item { id: "quit", label: "Quit AirCut", enabled: true });
    entries
}

/// Every item of the tray menu does something.
pub proof fn law_every_menu_item_acts(i: int)
    requires
        0 <= i < tray_menu_text().len(),
    ensures
        tray_menu_text()[i] matches MenuEntryText::Item { id, .. } ==> !(menu_action_for(
            id,
        ) is Nothing),
{
}

/// What a tray icon is created with.
#[derive(Debug, PartialEq, Eq)]
pub struct TrayBlueprint {
    /// The identifier under which the application finds its tray icon again.
    pub id: &'static str,
    pub tooltip: &'static str,
    /// Where the first icon is, relative to the resource directory.
    pub icon_path: String,
    /// Whether a left click opens the menu.
    pub menu_on_left_click: bool,
}

/// The tray icon as it is created when the application starts, before any
/// state was asked for: it shows the icon of `Ready` under a tooltip of its
/// own, and a left click does not open the menu.
pub fn tray_blueprint_at_start(dark: bool) -> (r: TrayBlueprint)
    ensures
        r.id@ == "main"@,
        r.tooltip@ == "AirCut - Ready"@,
        r.icon_path@ == icon_path_text(TrayState::Ready, Theme::of_dark(dark)),
        !r.menu_on_left_click,
{
    TrayBlueprint {
        id: "main",
        tooltip: "AirCut - Ready",
        icon_path: icon_path(TrayState::Ready, Theme::from_dark(dark)),
        menu_on_left_click: false,
    }
}

/// The tray icon as it is created anew after it has gone missing, while
/// `current` is the controller's state: it shows the tooltip and the icon of
/// `current`, so that what is on display is still the state that was
/// accepted last.
pub fn tray_blueprint(current: TrayState, dark: bool) -> (r: TrayBlueprint)
    ensures
        r.id@ == "main"@,
        r.tooltip@ == current.tooltip_text(),
        r.icon_path@ == icon_path_text(current, Theme::of_dark(dark)),
        !r.menu_on_left_click,
{
    TrayBlueprint {
        id: "main",
        tooltip: current.tooltip(),
        icon_path: icon_path(current, Theme::from_dark(dark)),
        menu_on_left_click: false,
    }
}

/// The icon that a new tray icon gets.
#[derive(Debug, PartialEq, Eq)]
pub enum FirstIcon {
    /// The icon that was loaded from the blueprint's file.
    Loaded(IconImage),
    /// The icon of the application's windows.
    WindowDefault,
}

/// Chooses the icon for a new tray icon from what loading the blueprint's
/// file gave (`None` where there is no such file): the loaded icon, and the
/// windows' icon where none was loaded.
pub fn first_icon(loaded: Option<Result<IconImage, IconError>>) -> (r: FirstIcon)
    ensures
        match loaded {
            Some(Ok(icon)) => r == FirstIcon::Loaded(icon),
            _ => r == FirstIcon::WindowDefault,
        },
{
    match loaded {
        Some(Ok(icon)) => FirstIcon::Loaded(icon),
        _ => FirstIcon::WindowDefault,
    }
}

/// What went wrong while an accepted state was put on display.
#[derive(Clone, Copy, Debug, PartialEq, Eq, Structural)]
pub enum DisplayFault {
    /// There is no tray icon.
    TrayMissing,
    /// The tray icon did not take the tooltip.
    TooltipRefused,
    /// The icon's file does not exist, or the directory it lies in is not known.
    IconFileMissing,
    /// The icon's file could not be read or decoded.
    IconUnreadable,
    /// The tray icon did not take the icon.
    IconRefused,
}

/// What is done about a fault.
#[derive(Clone, Copy, Debug, PartialEq, Eq, Structural)]
pub enum Recovery {
    /// Create the tray icon anew, from the blueprint of the current state.
    RecreateTray,
    /// Note it and go on.
    LogOnly,
}

/// A missing tray icon is created anew; every other fault is only noted.
/// None of them undoes the transition: the state stays as it was accepted.
pub fn recovery_for(fault: DisplayFault) -> (r: Recovery)
    ensures
        r is RecreateTray <==> fault is TrayMissing,
{
    match fault {
        DisplayFault::TrayMissing => Recovery::RecreateTray,
        _ => Recovery::LogOnly,
    }
}

/// A step of putting an accepted state on display.
#[derive(Clone, Copy, Debug, PartialEq, Eq, Structural)]
pub enum DisplayStep {
    /// Give the tray icon the tooltip of the state.
    SetTooltip,
    /// Give the tray icon the icon of the state.
    SetIcon,
    /// Create the tray icon anew, from the blueprint of the current state.
    RecreateTray,
    /// Nothing more.
    Finished,
}

/// The step that follows `step`, which ended with `fault` or without one.
///
/// The tooltip comes first and the icon second, and a fault of the one does
/// not keep the other from being tried. A missing tray icon ends the attempt:
/// the tray icon is created anew, and since it is created showing the current
/// state, nothing is left to do after that. Whether the recreation succeeds
/// or not, the display is over.
pub open spec fn step_after(step: DisplayStep, fault: Option<DisplayFault>) -> DisplayStep {
    match step {
        DisplayStep::SetTooltip => if fault == Some(DisplayFault::TrayMissing) {
            DisplayStep::RecreateTray
        } else {
            DisplayStep::SetIcon
        },
        DisplayStep::SetIcon => if fault == Some(DisplayFault::TrayMissing) {
            DisplayStep::RecreateTray
        } else {
            DisplayStep::Finished
        },
        DisplayStep::RecreateTray => DisplayStep::Finished,
        DisplayStep::Finished => DisplayStep::Finished,
    }
}

/// The step with which putting a state on display begins.
pub fn first_display_step() -> (r: DisplayStep)
    ensures
        r == DisplayStep::SetTooltip,
{
    DisplayStep::SetTooltip
}

/// The step to take after `step`, which ended with `fault` or without one.
pub fn next_display_step(step: DisplayStep, fault: Option<DisplayFault>) -> (r: DisplayStep)
    ensures
        r == step_after(step, fault),
{
    let recreate = match fault {
        Some(f) => match recovery_for(f) {
            Recovery::RecreateTray => true,
            Recovery::LogOnly => false,
        },
        None => false,
    };
    match step {
        DisplayStep::SetTooltip => if recreate {
            DisplayStep::RecreateTray
        } else {
            DisplayStep::SetIcon
        },
        DisplayStep::SetIcon => if recreate {
            DisplayStep::RecreateTray
        } else {
            DisplayStep::Finished
        },
        DisplayStep::RecreateTray => DisplayStep::Finished,
        DisplayStep::Finished => DisplayStep::Finished,
    }
}

/// Putting a state on display is over after three steps at most, whatever
/// goes wrong, and the tray icon is created anew at most once.
pub proof fn law_display_ends(
    first: Option<DisplayFault>,
    second: Option<DisplayFault>,
    third: Option<DisplayFault>,
)
    ensures
        ({
            let one = step_after(DisplayStep::SetTooltip, first);
            let two = step_after(one, second);
            let three = step_after(two, third);
            &&& three is Finished
            &&& one is RecreateTray ==> two is Finished
            &&& !(three is RecreateTray)
            &&& !(one is RecreateTray && two is RecreateTray)
        }),
{
}

/// A fault other than a missing tray icon never keeps the rest from being
/// tried: the icon is set after the tooltip was refused.
pub proof fn law_fault_does_not_stop_display(fault: DisplayFault)
    requires
        !(fault is TrayMissing),
    ensures
        step_after(DisplayStep::SetTooltip, Some(fault)) == DisplayStep::SetIcon,
        step_after(DisplayStep::SetTooltip, None) == DisplayStep::SetIcon,
{
}

/// How often, in milliseconds, the application looks whether its tray icon
/// is still there.
pub const TRAY_CHECK_INTERVAL_MS: u64 = 30_000;

} // verus!
