//! Actions the manager asks the host windowing layer to perform, and the
//! notifications it asks the host to emit. The manager mutates its own
//! registry — the source of truth — and returns these for the host loop to
//! carry out in order.
use vstd::prelude::*;

use crate::config::WindowConfig;

verus! {

/// Tint and opacity for a platform window effect.
#[derive(Debug, Clone, Copy, PartialEq, Eq, Structural)]
pub struct EffectParams {
    pub r: u8,
    pub g: u8,
    pub b: u8,
    pub a: u8,
}

/// The tint applied when no caller-chosen color is given.
pub open spec fn default_effect_params() -> EffectParams {
    EffectParams { r: 30, g: 30, b: 30, a: 200 }
}

/// One instruction to the host windowing layer.
#[derive(Debug, Clone, PartialEq)]
pub enum HostAction {
    /// Construct a new window with every field of the configuration applied.
    Build(WindowConfig),
    Show(String),
    Hide(String),
    Unminimize(String),
    Focus(String),
    Destroy(String),
    /// Move a window; coordinates are physical pixels.
    SetPositionPhysical(String, i64, i64),
    /// Resize a window; dimensions are logical pixels.
    SetSizeLogical(String, u32, u32),
    SetIgnoreCursorEvents(String, bool),
    /// Apply the platform window effect with the given tint.
    ApplyEffect(String, EffectParams),
    /// Notify listeners that the main window's visibility changed.
    EmitMainVisibility(bool),
    /// Notify listeners that the main window was asked to close.
    EmitMainCloseRequested,
    EmitLyricsMoved(i32, i32),
    EmitLyricsResized(u32, u32),
    /// Notify the popup content that it was just opened.
    EmitTrayPopupOpened,
    /// Stop the host's default handling of a close request.
    PreventClose,
    /// Persist window geometry and decoration state (never visibility).
    SaveWindowState,
    /// Terminate the process.
    Exit,
}

pub open spec fn is_show(a: HostAction, l: Seq<char>) -> bool {
    a matches HostAction::Show(s) && s@ == l
}

pub open spec fn is_hide(a: HostAction, l: Seq<char>) -> bool {
    a matches HostAction::Hide(s) && s@ == l
}

pub open spec fn is_unminimize(a: HostAction, l: Seq<char>) -> bool {
    a matches HostAction::Unminimize(s) && s@ == l
}

pub open spec fn is_focus(a: HostAction, l: Seq<char>) -> bool {
    a matches HostAction::Focus(s) && s@ == l
}

pub open spec fn is_destroy(a: HostAction, l: Seq<char>) -> bool {
    a matches HostAction::Destroy(s) && s@ == l
}

pub open spec fn is_emit_main_vis(a: HostAction, b: bool) -> bool {
    a matches HostAction::EmitMainVisibility(v) && v == b
}

pub open spec fn is_set_position(a: HostAction, l: Seq<char>, x: int, y: int) -> bool {
    a matches HostAction::SetPositionPhysical(s, ax, ay) && s@ == l && ax == x && ay == y
}

pub open spec fn is_set_size(a: HostAction, l: Seq<char>, w: int, h: int) -> bool {
    a matches HostAction::SetSizeLogical(s, aw, ah) && s@ == l && aw == w && ah == h
}

pub open spec fn is_apply_effect(a: HostAction, l: Seq<char>, p: EffectParams) -> bool {
    a matches HostAction::ApplyEffect(s, ap) && s@ == l && ap == p
}

/// How often an action sequence notifies about main-window visibility.
pub open spec fn count_main_vis(s: Seq<HostAction>) -> nat
    decreases s.len(),
{
    if s.len() == 0 {
        0
    } else {
        count_main_vis(s.drop_last()) + if s.last() matches HostAction::EmitMainVisibility(_) {
            1nat
        } else {
            0nat
        }
    }
}

/// The action sequence of a plain `show`: show, focus, and for the main
/// window a visibility notification.
pub open spec fn show_actions(s: Seq<HostAction>, l: Seq<char>) -> bool {
    &&& s.len() == (if l == "main"@ { 3int } else { 2int })
    &&& is_show(s[0], l)
    &&& is_focus(s[1], l)
    &&& (l == "main"@ ==> is_emit_main_vis(s[2], true))
}

/// The action sequence of a `hide`: hide, and for the main window a
/// visibility notification.
pub open spec fn hide_actions(s: Seq<HostAction>, l: Seq<char>) -> bool {
    &&& s.len() == (if l == "main"@ { 2int } else { 1int })
    &&& is_hide(s[0], l)
    &&& (l == "main"@ ==> is_emit_main_vis(s[1], false))
}

/// The action sequence that reveals and focuses a window: show, an
/// unminimize only when the window really is minimized, focus, and for the
/// main window a visibility notification.
pub open spec fn reveal_actions(s: Seq<HostAction>, l: Seq<char>, minimized: bool) -> bool {
    let base: int = if minimized { 3 } else { 2 };
    let total: int = if l == "main"@ { base + 1 } else { base };
    &&& s.len() == total
    &&& is_show(s[0], l)
    &&& (minimized ==> is_unminimize(s[1], l))
    &&& is_focus(s[if minimized { 2int } else { 1int }], l)
    &&& (l == "main"@ ==> is_emit_main_vis(s[total - 1], true))
}

/// The action sequence of focusing an already-live window during `create`:
/// as `reveal_actions`, but with no notification.
pub open spec fn create_focus_actions(s: Seq<HostAction>, l: Seq<char>, minimized: bool) -> bool {
    &&& s.len() == (if minimized { 3int } else { 2int })
    &&& is_show(s[0], l)
    &&& (minimized ==> is_unminimize(s[1], l))
    &&& is_focus(s[if minimized { 2int } else { 1int }], l)
}

/// The action sequence that constructs a new window: build it, then apply
/// the configured platform effect when the configuration names one the
/// catalog understands.
pub open spec fn build_actions(s: Seq<HostAction>, c: WindowConfig) -> bool {
    if c.window_effect matches Some(e) && e@ == "acrylic"@ {
        &&& s.len() == 2
        &&& s[0] == HostAction::Build(c)
        &&& is_apply_effect(s[1], c.label@, default_effect_params())
    } else {
        &&& s.len() == 1
        &&& s[0] == HostAction::Build(c)
    }
}

} // verus!
