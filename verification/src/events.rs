//! The event router: translates host-delivered window events into manager
//! state changes and actions. Close requests on the main window are
//! intercepted, the tray popup dismisses itself on focus loss, the lyrics
//! overlay re-emits its geometry, and destruction drops the registry entry.
use vstd::prelude::*;

use crate::actions::HostAction;
use crate::actions::is_hide;
use crate::label::reveal_known_labels;
use crate::manager::LiveWindow;
use crate::manager::WindowManager;
use crate::strmap::str_eq;

verus! {

/// A window event as reported by the host runtime. Coordinates and sizes
/// are physical pixels.
#[derive(Debug, Clone, Copy, PartialEq, Eq, Structural)]
pub enum HostWindowEvent {
    CloseRequested,
    Focused(bool),
    Moved(i32, i32),
    Resized(u32, u32),
    Destroyed,
}

/// Re-emit geometry changes of the desktop-lyrics overlay as dedicated
/// notifications; every other label or event is ignored.
pub fn handle_desktop_lyrics_event(label: &str, event: &HostWindowEvent) -> (acts: Vec<
    HostAction,
>)
    ensures
        label@ == "desktop-lyrics"@ ==> (event matches HostWindowEvent::Moved(x, y)
            ==> acts@.len() == 1 && acts@[0] == HostAction::EmitLyricsMoved(*x, *y)),
        label@ == "desktop-lyrics"@ ==> (event matches HostWindowEvent::Resized(w, h)
            ==> acts@.len() == 1 && acts@[0] == HostAction::EmitLyricsResized(*w, *h)),
        label@ != "desktop-lyrics"@ ==> acts@.len() == 0,
        !(event is Moved || event is Resized) ==> acts@.len() == 0,
{
    let mut acts: Vec<HostAction> = Vec::new();
    if !str_eq(label, "desktop-lyrics") {
        return acts;
    }
    match event {
        HostWindowEvent::Moved(x, y) => {
            acts.push(HostAction::EmitLyricsMoved(*x, *y));
        },
        HostWindowEvent::Resized(w, h) => {
            acts.push(HostAction::EmitLyricsResized(*w, *h));
        },
        _ => {},
    }
    acts
}

/// Translate one host window event into registry updates and actions.
///
/// A close request on the main window is intercepted: the host must not
/// destroy the window; geometry is persisted and the decision is handed to
/// the UI. The tray popup hides when it loses focus. The lyrics overlay
/// re-emits its geometry. A destroyed window leaves the registry.
pub fn handle_window_event(m: &mut WindowManager, label: &str, event: &HostWindowEvent) -> (acts:
    Vec<HostAction>)
    ensures
        event is CloseRequested ==> final(m)@ == old(m)@,
        label@ == "main"@ && event is CloseRequested ==> acts@ == seq![
            HostAction::PreventClose,
            HostAction::SaveWindowState,
            HostAction::EmitMainCloseRequested,
        ],
        label@ != "main"@ && event is CloseRequested ==> acts@.len() == 0,
        label@ == "tray-popup"@ && event == HostWindowEvent::Focused(false)
            && old(m)@.dom().contains(label@) ==> {
            &&& final(m)@ == old(m)@.insert(label@, (LiveWindow { visible: false }))
            &&& acts@.len() == 1 && is_hide(acts@[0], label@)
        },
        label@ == "tray-popup"@ && event == HostWindowEvent::Focused(false)
            && !old(m)@.dom().contains(label@) ==> final(m)@ == old(m)@ && acts@.len() == 0,
        event matches HostWindowEvent::Focused(f) && (*f || label@ != "tray-popup"@)
            ==> final(m)@ == old(m)@ && acts@.len() == 0,
        (event is Moved || event is Resized) ==> final(m)@ == old(m)@,
        label@ == "desktop-lyrics"@ ==> (event matches HostWindowEvent::Moved(x, y)
            ==> acts@.len() == 1 && acts@[0] == HostAction::EmitLyricsMoved(*x, *y)),
        label@ == "desktop-lyrics"@ ==> (event matches HostWindowEvent::Resized(w, h)
            ==> acts@.len() == 1 && acts@[0] == HostAction::EmitLyricsResized(*w, *h)),
        label@ != "desktop-lyrics"@ && (event is Moved || event is Resized) ==> acts@.len() == 0,
        event is Destroyed ==> final(m)@ == old(m)@.remove(label@) && acts@.len() == 0,
{
    proof {
        reveal_known_labels();
    }
    match event {
        HostWindowEvent::CloseRequested => {
            let mut acts: Vec<HostAction> = Vec::new();
            if str_eq(label, "main") {
                acts.push(HostAction::PreventClose);
                acts.push(HostAction::SaveWindowState);
                acts.push(HostAction::EmitMainCloseRequested);
            }
            acts
        },
        HostWindowEvent::Focused(f) => {
            let mut acts: Vec<HostAction> = Vec::new();
            if !*f && str_eq(label, "tray-popup") && m.window_exists(label) {
                match m.hide_window(label) {
                    Ok(mut hidden) => {
                        acts.append(&mut hidden);
                    },
                    Err(_) => {},
                }
            }
            acts
        },
        HostWindowEvent::Moved(_, _) => handle_desktop_lyrics_event(label, event),
        HostWindowEvent::Resized(_, _) => handle_desktop_lyrics_event(label, event),
        HostWindowEvent::Destroyed => {
            m.note_destroyed(label);
            Vec::new()
        },
    }
}

} // verus!
