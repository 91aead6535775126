//! Which icon file and tooltip go with a state.

use crate::state::{Theme, TrayState};
use vstd::prelude::*;
use vstd::string::StringExecFns;

verus! {

/// The path of the icon for `state` under `theme`, relative to the directory
/// that holds the application's resources.
pub open spec fn icon_path_text(state: TrayState, theme: Theme) -> Seq<char> {
    "icons/tray-"@ + state.icon_stem_text() + "-"@ + theme.tag_text() + ".png"@
}

/// The state whose icon stands for `name`: the state of that name, and
/// `Ready` for a name that no state has.
pub open spec fn state_named_or_ready(name: Seq<char>) -> TrayState {
    match TrayState::parse(name) {
        Some(state) => state,
        None => TrayState::Ready,
    }
}

/// The path of the icon for `state` under `theme`.
pub fn icon_path(state: TrayState, theme: Theme) -> (r: String)
    ensures
        r@ == icon_path_text(state, theme),
{
    String::from_str("icons/tray-").concat(state.icon_stem()).concat("-").concat(
        theme.tag(),
    ).concat(".png")
}

/// The icon path for the state called `state`, in the dark theme if `dark` and
/// in the light one if not. An unknown name gets the icon of `Ready`.
pub fn get_icon_path(state: &str, dark: bool) -> (r: String)
    ensures
        r@ == icon_path_text(state_named_or_ready(state@), Theme::of_dark(dark)),
{
    let shown = match TrayState::from_name(state) {
        Some(known) => known,
        None => TrayState::Ready,
    };
    icon_path(shown, Theme::from_dark(dark))
}

/// What the tray shows for a state: its tooltip and its icon.
#[derive(PartialEq, Eq, Debug)]
pub struct StateRecord {
    pub state: TrayState,
    pub tooltip: String,
    pub icon_path: String,
}

impl StateRecord {
    /// The record of `state` under `theme`. It is made anew from constants
    /// each time something is to be displayed.
    pub fn of(state: TrayState, theme: Theme) -> (r: StateRecord)
        ensures
            r.state == state,
            r.tooltip@ == state.tooltip_text(),
            r.icon_path@ == icon_path_text(state, theme),
    {
        StateRecord {
            state,
            tooltip: String::from_str(state.tooltip()),
            icon_path: icon_path(state, theme),
        }
    }
}

/// Two icon paths are the same only for the same theme and the same icon:
/// each state has an icon of its own, but for `Recognizing`, which shows the
/// icon of `Drawing`.
pub proof fn law_icon_path_identifies_icon(
    a: TrayState,
    theme_a: Theme,
    b: TrayState,
    theme_b: Theme,
)
    ensures
        icon_path_text(a, theme_a) == icon_path_text(b, theme_b) <==> theme_a == theme_b && (a == b
            || (a is Drawing && b is Recognizing) || (a is Recognizing && b is Drawing)),
{
    reveal_strlit("ready");
    reveal_strlit("drawing");
    reveal_strlit("recognized");
    reveal_strlit("not-recognized");
    reveal_strlit("disconnected");
    reveal_strlit("light");
    reveal_strlit("dark");
    // No two pairs of a stem and a tag are equally long together.
    let fixed = "icons/tray-"@.len() + "-"@.len() + ".png"@.len();
    assert(icon_path_text(a, theme_a).len() == fixed + a.icon_stem_text().len()
        + theme_a.tag_text().len());
}

} // verus!
