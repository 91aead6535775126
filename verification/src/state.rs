//! The statuses the tray icon can show, and the colour theme of the icons.

use crate::text::str_eq;
use vstd::prelude::*;

verus! {

/// What the tray icon tells the user about gesture recognition.
#[derive(Clone, Copy, PartialEq, Eq, Debug, Hash, Structural)]
pub enum TrayState {
    /// Idle, waiting for a gesture.
    Ready,
    /// A gesture is being recorded.
    Drawing,
    /// A recorded gesture is being matched.
    Recognizing,
    /// The last gesture was matched.
    Recognized,
    /// The last gesture matched nothing.
    NotRecognized,
    /// The backend cannot be reached.
    Disconnected,
}

/// How long `NotRecognized` is shown before the state falls back to `Ready`,
/// in milliseconds.
pub const NOT_RECOGNIZED_REVERT_MS: u64 = 300;

/// How long `Recognized` is shown before the state falls back to `Ready`, in
/// milliseconds.
pub const RECOGNIZED_REVERT_MS: u64 = 3000;

/// Whether the desktop uses a light or a dark appearance.
#[derive(Clone, Copy, PartialEq, Eq, Debug, Hash, Structural)]
pub enum Theme {
    Light,
    Dark,
}

impl Theme {
    /// The theme that goes with the answer to "is dark mode on?".
    pub open spec fn of_dark(dark: bool) -> Theme {
        if dark {
            Theme::Dark
        } else {
            Theme::Light
        }
    }

    /// The tag that icon file names carry for this theme.
    pub open spec fn tag_text(self) -> Seq<char> {
        match self {
            Theme::Light => "light"@,
            Theme::Dark => "dark"@,
        }
    }

    /// The dark theme if `dark`, the light one if not.
    pub fn from_dark(dark: bool) -> (r: Theme)
        ensures
            r == Theme::of_dark(dark),
    {
        if dark {
            Theme::Dark
        } else {
            Theme::Light
        }
    }

    /// The tag that icon file names carry for this theme.
    pub fn tag(self) -> (r: &'static str)
        ensures
            r@ == self.tag_text(),
    {
        match self {
            Theme::Light => "light",
            Theme::Dark => "dark",
        }
    }
}

impl TrayState {
    /// The name by which the user interface asks for this state.
    pub open spec fn name_text(self) -> Seq<char> {
        match self {
            TrayState::Ready => "ready"@,
            TrayState::Drawing => "drawing"@,
            TrayState::Recognizing => "recognizing"@,
            TrayState::Recognized => "recognized"@,
            TrayState::NotRecognized => "not_recognized"@,
            TrayState::Disconnected => "disconnected"@,
        }
    }

    /// The state that a name stands for, if it is the name of one.
    pub open spec fn parse(name: Seq<char>) -> Option<TrayState> {
        if name == "ready"@ {
            Some(TrayState::Ready)
        } else if name == "drawing"@ {
            Some(TrayState::Drawing)
        } else if name == "recognizing"@ {
            Some(TrayState::Recognizing)
        } else if name == "recognized"@ {
            Some(TrayState::Recognized)
        } else if name == "not_recognized"@ {
            Some(TrayState::NotRecognized)
        } else if name == "disconnected"@ {
            Some(TrayState::Disconnected)
        } else {
            None
        }
    }

    /// The tooltip of the tray icon while the state is shown.
    pub open spec fn tooltip_text(self) -> Seq<char> {
        match self {
            TrayState::Ready => "AirCut - Ready to detect gestures"@,
            TrayState::Drawing => "AirCut - Recording gesture..."@,
            TrayState::Recognizing => "AirCut - Recognizing gesture..."@,
            TrayState::Recognized => "AirCut - Gesture recognized"@,
            TrayState::NotRecognized => "Gesture not recognized"@,
            TrayState::Disconnected => "AirCut - Disconnected from backend"@,
        }
    }

    /// The part of the icon's file name that depends on the state. A gesture
    /// that is being matched keeps the icon of one that is being recorded.
    pub open spec fn icon_stem_text(self) -> Seq<char> {
        match self {
            TrayState::Ready => "ready"@,
            TrayState::Drawing => "drawing"@,
            TrayState::Recognizing => "drawing"@,
            TrayState::Recognized => "recognized"@,
            TrayState::NotRecognized => "not-recognized"@,
            TrayState::Disconnected => "disconnected"@,
        }
    }

    /// Milliseconds after which the state falls back to `Ready` by itself.
    pub open spec fn revert_delay(self) -> Option<u64> {
        match self {
            TrayState::NotRecognized => Some(NOT_RECOGNIZED_REVERT_MS),
            TrayState::Recognized => Some(RECOGNIZED_REVERT_MS),
            _ => None,
        }
    }

    /// The name by which the user interface asks for this state.
    pub fn name(self) -> (r: &'static str)
        ensures
            r@ == self.name_text(),
    {
        match self {
            TrayState::Ready => "ready",
            TrayState::Drawing => "drawing",
            TrayState::Recognizing => "recognizing",
            TrayState::Recognized => "recognized",
            TrayState::NotRecognized => "not_recognized",
            TrayState::Disconnected => "disconnected",
        }
    }

    /// The state called `name`, or `None` where no state is called so.
    pub fn from_name(name: &str) -> (r: Option<TrayState>)
        ensures
            r == TrayState::parse(name@),
    {
        if str_eq(name, "ready") {
            Some(TrayState::Ready)
        } else if str_eq(name, "drawing") {
            Some(TrayState::Drawing)
        } else if str_eq(name, "recognizing") {
            Some(TrayState::Recognizing)
        } else if str_eq(name, "recognized") {
            Some(TrayState::Recognized)
        } else if str_eq(name, "not_recognized") {
            Some(TrayState::NotRecognized)
        } else if str_eq(name, "disconnected") {
            Some(TrayState::Disconnected)
        } else {
            None
        }
    }

    /// The tooltip of the tray icon while this state is shown.
    pub fn tooltip(self) -> (r: &'static str)
        ensures
            r@ == self.tooltip_text(),
    {
        match self {
            TrayState::Ready => "AirCut - Ready to detect gestures",
            TrayState::Drawing => "AirCut - Recording gesture...",
            TrayState::Recognizing => "AirCut - Recognizing gesture...",
            TrayState::Recognized => "AirCut - Gesture recognized",
            TrayState::NotRecognized => "Gesture not recognized",
            TrayState::Disconnected => "AirCut - Disconnected from backend",
        }
    }

    /// The part of the icon's file name that depends on the state.
    pub fn icon_stem(self) -> (r: &'static str)
        ensures
            r@ == self.icon_stem_text(),
    {
        match self {
            TrayState::Ready => "ready",
            TrayState::Drawing => "drawing",
            TrayState::Recognizing => "drawing",
            TrayState::Recognized => "recognized",
            TrayState::NotRecognized => "not-recognized",
            TrayState::Disconnected => "disconnected",
        }
    }

    /// Milliseconds after which the state falls back to `Ready` by itself.
    pub fn revert_after_ms(self) -> (r: Option<u64>)
        ensures
            r == self.revert_delay(),
    {
        match self {
            TrayState::NotRecognized => Some(NOT_RECOGNIZED_REVERT_MS),
            TrayState::Recognized => Some(RECOGNIZED_REVERT_MS),
            _ => None,
        }
    }

    /// Every state has a name of its own: a name stands for a state exactly
    /// if it is that state's name.
    pub proof fn law_name_round_trip(self, name: Seq<char>)
        ensures
            TrayState::parse(self.name_text()) == Some(self),
            TrayState::parse(name) == Some(self) <==> name == self.name_text(),
    {
        reveal_strlit("ready");
        reveal_strlit("drawing");
        reveal_strlit("recognizing");
        reveal_strlit("recognized");
        reveal_strlit("not_recognized");
        reveal_strlit("disconnected");
        assert("ready"@.len() == 5);
        assert("drawing"@.len() == 7);
        assert("recognizing"@.len() == 11);
        assert("recognized"@.len() == 10);
        assert("not_recognized"@.len() == 14);
        assert("disconnected"@.len() == 12);
    }

    /// The tooltip tells which state is shown: no two states share one.
    pub proof fn law_tooltip_identifies_state(self, other: TrayState)
        ensures
            self.tooltip_text() == other.tooltip_text() <==> self == other,
    {
        // No two tooltips are equally long.
        reveal_strlit("AirCut - Ready to detect gestures");
        reveal_strlit("AirCut - Recording gesture...");
        reveal_strlit("AirCut - Recognizing gesture...");
        reveal_strlit("AirCut - Gesture recognized");
        reveal_strlit("Gesture not recognized");
        reveal_strlit("AirCut - Disconnected from backend");
        assert(self.tooltip_text().len() == other.tooltip_text().len() ==> self == other);
    }
}

} // verus!
