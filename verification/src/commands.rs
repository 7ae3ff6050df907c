//! The command surface: label-addressed entry points that resolve presets,
//! stage payloads, and delegate to the manager. The host's UI bridge calls
//! these and then carries out the returned actions.
use vstd::prelude::*;

use crate::actions::HostAction;
use crate::actions::create_focus_actions;
use crate::actions::build_actions;
use crate::config::WindowConfig;
use crate::config::is_about_preset;
use crate::config::is_desktop_lyrics_preset;
use crate::config::is_main_preset;
use crate::config::is_mini_player_preset;
use crate::config::is_settings_preset;
use crate::config::is_tray_popup_preset;
use crate::label::is_known_label;
use crate::label::reveal_known_labels;
use crate::manager::LiveWindow;
use crate::manager::WindowManager;
use crate::manager::WmError;
use crate::payload::PayloadCache;

verus! {

/// The preset the catalog associates with a known label.
pub open spec fn preset_spec(l: Seq<char>, c: WindowConfig) -> bool {
    &&& l == "main"@ ==> is_main_preset(c)
    &&& l == "mini-player"@ ==> is_mini_player_preset(c)
    &&& l == "desktop-lyrics"@ ==> is_desktop_lyrics_preset(c)
    &&& l == "settings"@ ==> is_settings_preset(c)
    &&& l == "about"@ ==> is_about_preset(c)
    &&& l == "tray-popup"@ ==> is_tray_popup_preset(c)
}

/// What creating a window from a preset label does to the registry: an
/// unknown label is refused; a label already live is focused (every preset
/// is single-instance); otherwise the preset window is built, initially
/// visible for every preset but the tray popup.
pub open spec fn created_from_preset(
    pre: Map<Seq<char>, LiveWindow>,
    post: Map<Seq<char>, LiveWindow>,
    r: Result<Vec<HostAction>, WmError>,
    l: Seq<char>,
    minimized: bool,
) -> bool {
    &&& !is_known_label(l) ==> post == pre && r == Err::<Vec<HostAction>, WmError>(
        WmError::NoPreset,
    )
    &&& is_known_label(l) && pre.dom().contains(l) ==> {
        &&& post == pre.insert(l, (LiveWindow { visible: true }))
        &&& r matches Ok(acts) && create_focus_actions(acts@, l, minimized)
    }
    &&& is_known_label(l) && !pre.dom().contains(l) ==> {
        &&& post == pre.insert(l, (LiveWindow { visible: (l != "tray-popup"@) }))
        &&& r matches Ok(acts) && exists|c: WindowConfig|
            #[trigger] build_actions(acts@, c) && c.label@ == l && preset_spec(l, c)
    }
}

/// Create a window from a preset label.
pub fn create_window(m: &mut WindowManager, label: &str, host_minimized: bool) -> (r: Result<
    Vec<HostAction>,
    WmError,
>)
    ensures
        created_from_preset(old(m)@, final(m)@, r, label@, host_minimized),
{
    proof {
        reveal_known_labels();
    }
    let config = match WindowConfig::from_label(label) {
        Some(c) => c,
        None => { return Err(WmError::NoPreset) },
    };
    let r = m.create_window(&config, host_minimized);
    proof {
        if !old(m)@.dom().contains(label@) {
            match &r {
                Ok(acts) => {
                    assert(build_actions(acts@, config) && config.label@ == label@ && preset_spec(
                        label@,
                        config,
                    ));
                },
                Err(_) => {},
            }
        }
    }
    r
}

/// Create a window with a fully custom configuration; behaves exactly as
/// the manager's create: focus when single-instance and live, otherwise
/// parent resolution first, then the duplicate-label refusal.
pub fn create_custom_window(m: &mut WindowManager, config: &WindowConfig, host_minimized: bool) -> (
    r: Result<Vec<HostAction>, WmError>)
    requires
        config.wf(),
    ensures
        old(m)@.dom().contains(config.label@) && config.single_instance ==> {
            &&& final(m)@ == old(m)@.insert(config.label@, (LiveWindow { visible: true }))
            &&& r matches Ok(acts) && create_focus_actions(acts@, config.label@, host_minimized)
        },
        !(old(m)@.dom().contains(config.label@) && config.single_instance) && (
        config.parent_label matches Some(p) && !old(m)@.dom().contains(p@)) ==> {
            &&& final(m)@ == old(m)@
            &&& r == Err::<Vec<HostAction>, WmError>(WmError::ParentNotFound)
        },
        old(m)@.dom().contains(config.label@) && !config.single_instance && (match config
            .parent_label {
            Some(p) => old(m)@.dom().contains(p@),
            None => true,
        }) ==> {
            &&& final(m)@ == old(m)@
            &&& r == Err::<Vec<HostAction>, WmError>(WmError::HostFailure)
        },
        !old(m)@.dom().contains(config.label@) && (match config.parent_label {
            Some(p) => old(m)@.dom().contains(p@),
            None => true,
        }) ==> {
            &&& final(m)@ == old(m)@.insert(config.label@, (LiveWindow {
                visible: config.visible,
            }))
            &&& r matches Ok(acts) && build_actions(acts@, *config)
        },
{
    m.create_window(config, host_minimized)
}

/// Create a window from a preset label with an attached payload. The
/// payload is staged first, so the new window can take it while it
/// initializes; it is staged even when the label has no preset.
pub fn create_window_with_payload(
    m: &mut WindowManager,
    cache: &mut PayloadCache,
    label: &str,
    payload: serde_json::Value,
    host_minimized: bool,
) -> (r: Result<Vec<HostAction>, WmError>)
    ensures
        final(cache)@ == old(cache)@.insert(label@, payload),
        created_from_preset(old(m)@, final(m)@, r, label@, host_minimized),
{
    cache.set(label, payload);
    create_window(m, label, host_minimized)
}

/// Close a window by label: the command-surface name for the manager's
/// `close_window`, with its exact soft-close semantics.
pub fn close_managed_window(m: &mut WindowManager, label: &str) -> (r: Result<
    Vec<HostAction>,
    WmError,
>)
    ensures
        crate::manager::closes_to_tray(label@) && old(m)@.dom().contains(label@) ==> {
            &&& final(m)@ == old(m)@.insert(label@, (LiveWindow { visible: false }))
            &&& r matches Ok(acts) && crate::actions::hide_actions(acts@, label@)
        },
        !crate::manager::closes_to_tray(label@) && old(m)@.dom().contains(label@) ==> {
            &&& final(m)@ == old(m)@.remove(label@)
            &&& r matches Ok(acts) && acts@.len() == 1 && crate::actions::is_destroy(
                acts@[0],
                label@,
            )
        },
        !old(m)@.dom().contains(label@) ==> {
            &&& final(m)@ == old(m)@
            &&& r == Err::<Vec<HostAction>, WmError>(WmError::NotFound)
        },
{
    m.close_window(label)
}

/// Which pieces of window state are persisted across restarts.
#[derive(Debug, Clone, Copy, PartialEq, Eq, Structural)]
pub struct PersistFlags {
    pub size: bool,
    pub position: bool,
    pub maximized: bool,
    pub fullscreen: bool,
    pub decorations: bool,
    pub visible: bool,
}

/// The flags used whenever window state is saved: geometry and decoration
/// state are kept, visibility never is — every window starts hidden on
/// relaunch so the UI controls the reveal moment.
pub fn persist_state_flags() -> (r: PersistFlags)
    ensures
        r.size,
        r.position,
        r.maximized,
        r.fullscreen,
        r.decorations,
        !r.visible,
{
    PersistFlags {
        size: true,
        position: true,
        maximized: true,
        fullscreen: true,
        decorations: true,
        visible: false,
    }
}

/// Quit the application: persist window state, then terminate.
pub fn quit_app() -> (acts: Vec<HostAction>)
    ensures
        acts@ == seq![HostAction::SaveWindowState, HostAction::Exit],
{
    let mut acts: Vec<HostAction> = Vec::new();
    acts.push(HostAction::SaveWindowState);
    acts.push(HostAction::Exit);
    acts
}

} // verus!
