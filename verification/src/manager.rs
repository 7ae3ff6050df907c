//! The window registry and manager: owns the mapping from label to live
//! window state, decides every lifecycle transition, and hands the host
//! layer the actions to carry out. The manager, not the host, is the source
//! of truth for which labels currently have a window.
use vstd::prelude::*;

use crate::actions::HostAction;
use crate::actions::EffectParams;
use crate::actions::build_actions;
use crate::actions::create_focus_actions;
use crate::actions::default_effect_params;
use crate::actions::hide_actions;
use crate::actions::is_apply_effect;
use crate::actions::is_destroy;
use crate::actions::is_set_position;
use crate::actions::is_set_size;
use crate::actions::is_show;
use crate::actions::is_focus;
use crate::actions::reveal_actions;
use crate::actions::show_actions;
use crate::config::WindowConfig;
use crate::label::reveal_known_labels;
use crate::strmap::StrMap;
use crate::strmap::str_eq;

verus! {

/// Why a window operation could not be carried out.
#[derive(Debug, Clone, Copy, PartialEq, Eq, Structural)]
pub enum WmError {
    /// The label has no live window.
    NotFound,
    /// The label has no catalog entry to create a window from.
    NoPreset,
    /// A custom configuration named a parent label with no live window.
    ParentNotFound,
    /// The operation has no implementation on this platform.
    PlatformUnsupported,
    /// The underlying windowing call itself would fail or has failed.
    HostFailure,
}

/// The manager's record of one live window.
#[derive(Debug, Clone, Copy, PartialEq, Eq, Structural)]
pub struct LiveWindow {
    pub visible: bool,
}

/// Answer to a state query: whether a label has a live window, and whether
/// that window is visible. A label without a window reads as not visible.
#[derive(Debug, Clone, Copy, PartialEq, Eq, Structural)]
pub struct WindowState {
    pub exists: bool,
    pub visible: bool,
}

/// Labels whose preset closes to the tray: closing hides the window
/// instead of destroying it. Only the main window behaves this way.
pub open spec fn closes_to_tray(l: Seq<char>) -> bool {
    l == "main"@
}

/// Labels whose preset configures a platform window effect.
pub open spec fn has_preset_effect(l: Seq<char>) -> bool {
    l == "mini-player"@ || l == "tray-popup"@
}

/// Build platform window-effect parameters from a named effect, with the
/// default tint. Unrecognized effect names resolve to nothing.
pub fn build_window_effects(effect: &str) -> (r: Option<EffectParams>)
    ensures
        effect@ == "acrylic"@ ==> r == Some(default_effect_params()),
        effect@ != "acrylic"@ ==> r is None,
{
    build_window_effects_with_color(effect, 30, 30, 30, 200)
}

/// Build platform window-effect parameters from a named effect and a custom
/// tint color. Unrecognized effect names resolve to nothing.
pub fn build_window_effects_with_color(effect: &str, r: u8, g: u8, b: u8, a: u8) -> (out: Option<
    EffectParams,
>)
    ensures
        effect@ == "acrylic"@ ==> (out matches Some(p) && p == (EffectParams {
            r: r,
            g: g,
            b: b,
            a: a,
        })),
        effect@ != "acrylic"@ ==> out is None,
{
    if str_eq(effect, "acrylic") {
        Some(EffectParams { r: r, g: g, b: b, a: a })
    } else {
        None
    }
}

/// The label-addressed window registry, abstracted as a map from label to
/// live-window state.
pub struct WindowManager {
    windows: StrMap<LiveWindow>,
}

impl View for WindowManager {
    type V = Map<Seq<char>, LiveWindow>;

    closed spec fn view(&self) -> Map<Seq<char>, LiveWindow> {
        self.windows@
    }
}

impl WindowManager {
    /// A manager with no live windows.
    pub fn new() -> (r: Self)
        ensures
            r@ == Map::<Seq<char>, LiveWindow>::empty(),
    {
        WindowManager { windows: StrMap::new() }
    }

    /// Whether a window with this label is live.
    pub fn window_exists(&self, label: &str) -> (r: bool)
        ensures
            r == self@.dom().contains(label@),
    {
        self.windows.contains_key(label)
    }

    /// Whether the label's window is visible; absent windows are reported
    /// as not found.
    pub fn is_window_visible(&self, label: &str) -> (r: Result<bool, WmError>)
        ensures
            self@.dom().contains(label@) ==> r == Ok::<bool, WmError>(self@[label@].visible),
            !self@.dom().contains(label@) ==> r == Err::<bool, WmError>(WmError::NotFound),
    {
        match self.windows.get(label) {
            Some(w) => Ok(w.visible),
            None => Err(WmError::NotFound),
        }
    }

    /// The state (exists, visible) of a label; a label without a live
    /// window exists=false, visible=false.
    pub fn get_window_state(&self, label: &str) -> (r: WindowState)
        ensures
            r.exists == self@.dom().contains(label@),
            r.visible == (self@.dom().contains(label@) && self@[label@].visible),
    {
        match self.windows.get(label) {
            Some(w) => WindowState { exists: true, visible: w.visible },
            None => WindowState { exists: false, visible: false },
        }
    }

    /// A snapshot of all live labels; their order carries no meaning.
    pub fn list_windows(&self) -> (r: Vec<String>)
        ensures
            self@.dom().finite(),
            r@.len() == self@.dom().len(),
            forall|j: int| 0 <= j < r@.len() ==> self@.dom().contains(#[trigger] r@[j]@),
            forall|k: Seq<char>|
                self@.dom().contains(k) ==> exists|j: int| 0 <= j < r@.len() && #[trigger] r@[j]@
                    == k,
    {
        self.windows.keys()
    }

    /// The host reported that a window was destroyed: drop it from the
    /// registry.
    pub fn note_destroyed(&mut self, label: &str)
        ensures
            final(self)@ == old(self)@.remove(label@),
    {
        self.windows.remove(label);
    }

    /// Create a window from a configuration, or focus the window already
    /// live under the same label when the configuration is single-instance.
    /// `host_minimized` is the host's report of whether that existing window
    /// is minimized; it decides whether an unminimize is issued.
    ///
    /// Outside the focus path, the parent label is resolved first, so a
    /// missing parent is reported even for a duplicate label. A duplicate
    /// label that is not single-instance is a construction failure: the
    /// host would refuse a second window with the same label.
    pub fn create_window(&mut self, config: &WindowConfig, host_minimized: bool) -> (r: Result<
        Vec<HostAction>,
        WmError,
    >)
        requires
            config.wf(),
        ensures
            old(self)@.dom().contains(config.label@) && config.single_instance ==> {
                &&& final(self)@ == old(self)@.insert(config.label@, (LiveWindow {
                    visible: true,
                }))
                &&& r matches Ok(acts) && create_focus_actions(acts@, config.label@, host_minimized)
            },
            !(old(self)@.dom().contains(config.label@) && config.single_instance) && (
            config.parent_label matches Some(p) && !old(self)@.dom().contains(p@)) ==> {
                &&& final(self)@ == old(self)@
                &&& r == Err::<Vec<HostAction>, WmError>(WmError::ParentNotFound)
            },
            old(self)@.dom().contains(config.label@) && !config.single_instance && (match config
                .parent_label {
                Some(p) => old(self)@.dom().contains(p@),
                None => true,
            }) ==> {
                &&& final(self)@ == old(self)@
                &&& r == Err::<Vec<HostAction>, WmError>(WmError::HostFailure)
            },
            !old(self)@.dom().contains(config.label@) && (match config.parent_label {
                Some(p) => old(self)@.dom().contains(p@),
                None => true,
            }) ==> {
                &&& final(self)@ == old(self)@.insert(config.label@, (LiveWindow {
                    visible: config.visible,
                }))
                &&& r matches Ok(acts) && build_actions(acts@, *config)
            },
    {
        let exists = self.windows.contains_key(config.label.as_str());
        if config.single_instance && exists {
            self.windows.insert(config.label.as_str(), LiveWindow { visible: true });
            let mut acts: Vec<HostAction> = Vec::new();
            acts.push(HostAction::Show(config.label.clone()));
            if host_minimized {
                acts.push(HostAction::Unminimize(config.label.clone()));
            }
            acts.push(HostAction::Focus(config.label.clone()));
            return Ok(acts);
        }
        match &config.parent_label {
            Some(p) => {
                if !self.windows.contains_key(p.as_str()) {
                    return Err(WmError::ParentNotFound);
                }
            },
            None => {},
        }
        if exists {
            return Err(WmError::HostFailure);
        }
        let mut acts: Vec<HostAction> = Vec::new();
        acts.push(HostAction::Build(config.duplicate()));
        match &config.window_effect {
            Some(e) => {
                match build_window_effects(e.as_str()) {
                    Some(params) => {
                        acts.push(HostAction::ApplyEffect(config.label.clone(), params));
                    },
                    None => {},
                }
            },
            None => {},
        }
        self.windows.insert(config.label.as_str(), LiveWindow { visible: config.visible });
        Ok(acts)
    }

    /// Show a window and claim focus; the main window additionally
    /// announces its new visibility.
    pub fn show_window(&mut self, label: &str) -> (r: Result<Vec<HostAction>, WmError>)
        ensures
            old(self)@.dom().contains(label@) ==> {
                &&& final(self)@ == old(self)@.insert(label@, (LiveWindow { visible: true }))
                &&& r matches Ok(acts) && show_actions(acts@, label@)
            },
            !old(self)@.dom().contains(label@) ==> {
                &&& final(self)@ == old(self)@
                &&& r == Err::<Vec<HostAction>, WmError>(WmError::NotFound)
            },
    {
        if !self.windows.contains_key(label) {
            return Err(WmError::NotFound);
        }
        self.windows.insert(label, LiveWindow { visible: true });
        let mut acts: Vec<HostAction> = Vec::new();
        acts.push(HostAction::Show(label.to_owned()));
        acts.push(HostAction::Focus(label.to_owned()));
        if str_eq(label, "main") {
            acts.push(HostAction::EmitMainVisibility(true));
        }
        Ok(acts)
    }

    /// Hide a window; the main window additionally announces its new
    /// visibility.
    pub fn hide_window(&mut self, label: &str) -> (r: Result<Vec<HostAction>, WmError>)
        ensures
            old(self)@.dom().contains(label@) ==> {
                &&& final(self)@ == old(self)@.insert(label@, (LiveWindow { visible: false }))
                &&& r matches Ok(acts) && hide_actions(acts@, label@)
            },
            !old(self)@.dom().contains(label@) ==> {
                &&& final(self)@ == old(self)@
                &&& r == Err::<Vec<HostAction>, WmError>(WmError::NotFound)
            },
    {
        if !self.windows.contains_key(label) {
            return Err(WmError::NotFound);
        }
        self.windows.insert(label, LiveWindow { visible: false });
        let mut acts: Vec<HostAction> = Vec::new();
        acts.push(HostAction::Hide(label.to_owned()));
        if str_eq(label, "main") {
            acts.push(HostAction::EmitMainVisibility(false));
        }
        Ok(acts)
    }

    /// Close a window. A label whose preset closes to the tray is hidden
    /// and kept; every other label's window is destroyed for good.
    pub fn close_window(&mut self, label: &str) -> (r: Result<Vec<HostAction>, WmError>)
        ensures
            closes_to_tray(label@) && old(self)@.dom().contains(label@) ==> {
                &&& final(self)@ == old(self)@.insert(label@, (LiveWindow { visible: false }))
                &&& r matches Ok(acts) && hide_actions(acts@, label@)
            },
            !closes_to_tray(label@) && old(self)@.dom().contains(label@) ==> {
                &&& final(self)@ == old(self)@.remove(label@)
                &&& r matches Ok(acts) && acts@.len() == 1 && is_destroy(acts@[0], label@)
            },
            !old(self)@.dom().contains(label@) ==> {
                &&& final(self)@ == old(self)@
                &&& r == Err::<Vec<HostAction>, WmError>(WmError::NotFound)
            },
    {
        proof {
            reveal_known_labels();
        }
        match WindowConfig::from_label(label) {
            Some(preset) => {
                if preset.closeable_to_tray {
                    return self.hide_window(label);
                }
            },
            None => {},
        }
        if !self.windows.contains_key(label) {
            return Err(WmError::NotFound);
        }
        self.windows.remove(label);
        let mut acts: Vec<HostAction> = Vec::new();
        acts.push(HostAction::Destroy(label.to_owned()));
        Ok(acts)
    }

    /// Toggle a window's visibility. A visible window is hidden; a hidden
    /// one is shown, unminimized only if the host reports it minimized, and
    /// focused. The main window announces each change.
    pub fn toggle_window(&mut self, label: &str, host_minimized: bool) -> (r: Result<
        Vec<HostAction>,
        WmError,
    >)
        ensures
            old(self)@.dom().contains(label@) && old(self)@[label@].visible ==> {
                &&& final(self)@ == old(self)@.insert(label@, (LiveWindow { visible: false }))
                &&& r matches Ok(acts) && hide_actions(acts@, label@)
            },
            old(self)@.dom().contains(label@) && !old(self)@[label@].visible ==> {
                &&& final(self)@ == old(self)@.insert(label@, (LiveWindow { visible: true }))
                &&& r matches Ok(acts) && reveal_actions(acts@, label@, host_minimized)
            },
            !old(self)@.dom().contains(label@) ==> {
                &&& final(self)@ == old(self)@
                &&& r == Err::<Vec<HostAction>, WmError>(WmError::NotFound)
            },
    {
        let visible = match self.windows.get(label) {
            Some(w) => w.visible,
            None => { return Err(WmError::NotFound) },
        };
        if visible {
            self.windows.insert(label, LiveWindow { visible: false });
            let mut acts: Vec<HostAction> = Vec::new();
            acts.push(HostAction::Hide(label.to_owned()));
            if str_eq(label, "main") {
                acts.push(HostAction::EmitMainVisibility(false));
            }
            Ok(acts)
        } else {
            self.windows.insert(label, LiveWindow { visible: true });
            let mut acts: Vec<HostAction> = Vec::new();
            acts.push(HostAction::Show(label.to_owned()));
            if host_minimized {
                acts.push(HostAction::Unminimize(label.to_owned()));
            }
            acts.push(HostAction::Focus(label.to_owned()));
            if str_eq(label, "main") {
                acts.push(HostAction::EmitMainVisibility(true));
            }
            Ok(acts)
        }
    }

    /// Show, conditionally unminimize, and focus a window; the main window
    /// announces that it became visible.
    pub fn focus_window(&mut self, label: &str, host_minimized: bool) -> (r: Result<
        Vec<HostAction>,
        WmError,
    >)
        ensures
            old(self)@.dom().contains(label@) ==> {
                &&& final(self)@ == old(self)@.insert(label@, (LiveWindow { visible: true }))
                &&& r matches Ok(acts) && reveal_actions(acts@, label@, host_minimized)
            },
            !old(self)@.dom().contains(label@) ==> {
                &&& final(self)@ == old(self)@
                &&& r == Err::<Vec<HostAction>, WmError>(WmError::NotFound)
            },
    {
        if !self.windows.contains_key(label) {
            return Err(WmError::NotFound);
        }
        self.windows.insert(label, LiveWindow { visible: true });
        let mut acts: Vec<HostAction> = Vec::new();
        acts.push(HostAction::Show(label.to_owned()));
        if host_minimized {
            acts.push(HostAction::Unminimize(label.to_owned()));
        }
        acts.push(HostAction::Focus(label.to_owned()));
        if str_eq(label, "main") {
            acts.push(HostAction::EmitMainVisibility(true));
        }
        Ok(acts)
    }

    /// Move a window to a physical position, then show and focus it, in
    /// that order, so it appears already placed.
    pub fn show_window_at_position(&mut self, label: &str, x: i64, y: i64) -> (r: Result<
        Vec<HostAction>,
        WmError,
    >)
        ensures
            old(self)@.dom().contains(label@) ==> {
                &&& final(self)@ == old(self)@.insert(label@, (LiveWindow { visible: true }))
                &&& r matches Ok(acts) && acts@.len() == 3 && is_set_position(
                    acts@[0],
                    label@,
                    x as int,
                    y as int,
                ) && is_show(acts@[1], label@) && is_focus(acts@[2], label@)
            },
            !old(self)@.dom().contains(label@) ==> {
                &&& final(self)@ == old(self)@
                &&& r == Err::<Vec<HostAction>, WmError>(WmError::NotFound)
            },
    {
        if !self.windows.contains_key(label) {
            return Err(WmError::NotFound);
        }
        self.windows.insert(label, LiveWindow { visible: true });
        let mut acts: Vec<HostAction> = Vec::new();
        acts.push(HostAction::SetPositionPhysical(label.to_owned(), x, y));
        acts.push(HostAction::Show(label.to_owned()));
        acts.push(HostAction::Focus(label.to_owned()));
        Ok(acts)
    }

    /// Let a window ignore (or stop ignoring) cursor events.
    pub fn set_ignore_cursor_events(&self, label: &str, ignore: bool) -> (r: Result<
        Vec<HostAction>,
        WmError,
    >)
        ensures
            self@.dom().contains(label@) ==> (r matches Ok(acts) && acts@.len() == 1 && (acts@[0]
                matches HostAction::SetIgnoreCursorEvents(s, i) && s@ == label@ && i == ignore)),
            !self@.dom().contains(label@) ==> r == Err::<Vec<HostAction>, WmError>(
                WmError::NotFound,
            ),
    {
        if !self.windows.contains_key(label) {
            return Err(WmError::NotFound);
        }
        let mut acts: Vec<HostAction> = Vec::new();
        acts.push(HostAction::SetIgnoreCursorEvents(label.to_owned(), ignore));
        Ok(acts)
    }

    /// Resize a window to a logical size.
    pub fn resize_window(&self, label: &str, width: u32, height: u32) -> (r: Result<
        Vec<HostAction>,
        WmError,
    >)
        ensures
            self@.dom().contains(label@) ==> (r matches Ok(acts) && acts@.len() == 1 && is_set_size(
                acts@[0],
                label@,
                width as int,
                height as int,
            )),
            !self@.dom().contains(label@) ==> r == Err::<Vec<HostAction>, WmError>(
                WmError::NotFound,
            ),
    {
        if !self.windows.contains_key(label) {
            return Err(WmError::NotFound);
        }
        let mut acts: Vec<HostAction> = Vec::new();
        acts.push(HostAction::SetSizeLogical(label.to_owned(), width, height));
        Ok(acts)
    }

    /// Move a window to a physical position without showing it.
    pub fn set_window_position(&self, label: &str, x: i32, y: i32) -> (r: Result<
        Vec<HostAction>,
        WmError,
    >)
        ensures
            self@.dom().contains(label@) ==> (r matches Ok(acts) && acts@.len() == 1
                && is_set_position(acts@[0], label@, x as int, y as int)),
            !self@.dom().contains(label@) ==> r == Err::<Vec<HostAction>, WmError>(
                WmError::NotFound,
            ),
    {
        if !self.windows.contains_key(label) {
            return Err(WmError::NotFound);
        }
        let mut acts: Vec<HostAction> = Vec::new();
        acts.push(HostAction::SetPositionPhysical(label.to_owned(), x as i64, y as i64));
        Ok(acts)
    }

    /// Reapply the label's preset window effect with a custom tint. Labels
    /// whose preset has no effect get no action; that is not an error.
    pub fn set_window_effect_color(&self, label: &str, r: u8, g: u8, b: u8, a: u8) -> (out: Result<
        Vec<HostAction>,
        WmError,
    >)
        ensures
            self@.dom().contains(label@) && has_preset_effect(label@) ==> (out matches Ok(acts)
                && acts@.len() == 1 && is_apply_effect(acts@[0], label@, (EffectParams {
                r: r,
                g: g,
                b: b,
                a: a,
            }))),
            self@.dom().contains(label@) && !has_preset_effect(label@) ==> (out matches Ok(acts)
                && acts@.len() == 0),
            !self@.dom().contains(label@) ==> out == Err::<Vec<HostAction>, WmError>(
                WmError::NotFound,
            ),
    {
        proof {
            reveal_known_labels();
        }
        if !self.windows.contains_key(label) {
            return Err(WmError::NotFound);
        }
        let mut acts: Vec<HostAction> = Vec::new();
        match WindowConfig::from_label(label) {
            Some(preset) => {
                match &preset.window_effect {
                    Some(e) => {
                        match build_window_effects_with_color(e.as_str(), r, g, b, a) {
                            Some(params) => {
                                acts.push(HostAction::ApplyEffect(label.to_owned(), params));
                            },
                            None => {},
                        }
                    },
                    None => {},
                }
            },
            None => {},
        }
        Ok(acts)
    }
}

} // verus!
