//! Window labels: the closed set of well-known window identities plus an
//! open variant for ad-hoc windows. Labels are the identity key for every
//! registry lookup.
use vstd::prelude::*;

use crate::strmap::str_eq;

verus! {

/// Known window labels with preset configurations, plus custom ones.
#[derive(Debug, Clone, PartialEq, Eq, Hash)]
pub enum WindowLabel {
    Main,
    MiniPlayer,
    DesktopLyrics,
    Settings,
    About,
    TrayPopup,
    Custom(String),
}

impl View for WindowLabel {
    type V = Seq<char>;

    open spec fn view(&self) -> Seq<char> {
        match self {
            WindowLabel::Main => "main"@,
            WindowLabel::MiniPlayer => "mini-player"@,
            WindowLabel::DesktopLyrics => "desktop-lyrics"@,
            WindowLabel::Settings => "settings"@,
            WindowLabel::About => "about"@,
            WindowLabel::TrayPopup => "tray-popup"@,
            WindowLabel::Custom(s) => s@,
        }
    }
}

/// Whether a label string names one of the six well-known windows.
pub open spec fn is_known_label(s: Seq<char>) -> bool {
    ||| s == "main"@
    ||| s == "mini-player"@
    ||| s == "desktop-lyrics"@
    ||| s == "settings"@
    ||| s == "about"@
    ||| s == "tray-popup"@
}

/// Makes the six well-known label strings concrete, so that they are known
/// to be pairwise distinct.
pub proof fn reveal_known_labels()
    ensures
        "main"@ != "mini-player"@,
        "main"@ != "desktop-lyrics"@,
        "main"@ != "settings"@,
        "main"@ != "about"@,
        "main"@ != "tray-popup"@,
        "mini-player"@ != "desktop-lyrics"@,
        "mini-player"@ != "settings"@,
        "mini-player"@ != "about"@,
        "mini-player"@ != "tray-popup"@,
        "desktop-lyrics"@ != "settings"@,
        "desktop-lyrics"@ != "about"@,
        "desktop-lyrics"@ != "tray-popup"@,
        "settings"@ != "about"@,
        "settings"@ != "tray-popup"@,
        "about"@ != "tray-popup"@,
        "main"@.len() > 0,
        "mini-player"@.len() > 0,
        "desktop-lyrics"@.len() > 0,
        "settings"@.len() > 0,
        "about"@.len() > 0,
        "tray-popup"@.len() > 0,
{
    reveal_strlit("main");
    reveal_strlit("mini-player");
    reveal_strlit("desktop-lyrics");
    reveal_strlit("settings");
    reveal_strlit("about");
    reveal_strlit("tray-popup");
    assert("main"@.len() == 4);
    assert("mini-player"@.len() == 11);
    assert("desktop-lyrics"@.len() == 14);
    assert("settings"@.len() == 8);
    assert("about"@.len() == 5);
    assert("tray-popup"@.len() == 10);
}

impl WindowLabel {
    /// The label as the string used for registry lookups and host calls.
    pub fn as_str(&self) -> (r: &str)
        ensures
            r@ == self@,
    {
        match self {
            WindowLabel::Main => "main",
            WindowLabel::MiniPlayer => "mini-player",
            WindowLabel::DesktopLyrics => "desktop-lyrics",
            WindowLabel::Settings => "settings",
            WindowLabel::About => "about",
            WindowLabel::TrayPopup => "tray-popup",
            WindowLabel::Custom(s) => s.as_str(),
        }
    }

    /// Reads a label string back into the enum; unknown strings become
    /// `Custom`.
    pub fn parse(s: &str) -> (r: Self)
        ensures
            r@ == s@,
            s@ == "main"@ ==> r is Main,
            s@ == "mini-player"@ ==> r is MiniPlayer,
            s@ == "desktop-lyrics"@ ==> r is DesktopLyrics,
            s@ == "settings"@ ==> r is Settings,
            s@ == "about"@ ==> r is About,
            s@ == "tray-popup"@ ==> r is TrayPopup,
            !is_known_label(s@) ==> r is Custom,
    {
        proof {
            reveal_known_labels();
        }
        if str_eq(s, "main") {
            WindowLabel::Main
        } else if str_eq(s, "mini-player") {
            WindowLabel::MiniPlayer
        } else if str_eq(s, "desktop-lyrics") {
            WindowLabel::DesktopLyrics
        } else if str_eq(s, "settings") {
            WindowLabel::Settings
        } else if str_eq(s, "about") {
            WindowLabel::About
        } else if str_eq(s, "tray-popup") {
            WindowLabel::TrayPopup
        } else {
            WindowLabel::Custom(s.to_owned())
        }
    }
}

} // verus!
