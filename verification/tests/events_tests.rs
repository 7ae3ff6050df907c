use player_windows::actions::HostAction;
use player_windows::commands::create_window;
use player_windows::events::{handle_desktop_lyrics_event, handle_window_event, HostWindowEvent};
use player_windows::geometry::{PxRect, TrayEdge};
use player_windows::manager::{WindowManager, WmError};
use player_windows::tray::{handle_tray_click, show_tray_popup, TrayButton};

#[test]
fn main_close_request_is_intercepted() {
    let mut m = WindowManager::new();
    create_window(&mut m, "main", false).unwrap();
    let acts = handle_window_event(&mut m, "main", &HostWindowEvent::CloseRequested);
    assert_eq!(
        acts,
        vec![
            HostAction::PreventClose,
            HostAction::SaveWindowState,
            HostAction::EmitMainCloseRequested,
        ]
    );
    assert!(m.window_exists("main"));
}

#[test]
fn close_requests_on_other_windows_are_ignored() {
    let mut m = WindowManager::new();
    create_window(&mut m, "settings", false).unwrap();
    let acts = handle_window_event(&mut m, "settings", &HostWindowEvent::CloseRequested);
    assert!(acts.is_empty());
}

#[test]
fn tray_popup_hides_on_focus_loss() {
    let mut m = WindowManager::new();
    create_window(&mut m, "tray-popup", false).unwrap();
    m.show_window("tray-popup").unwrap();
    let acts = handle_window_event(&mut m, "tray-popup", &HostWindowEvent::Focused(false));
    assert_eq!(acts, vec![HostAction::Hide("tray-popup".to_string())]);
    assert_eq!(m.is_window_visible("tray-popup"), Ok(false));
}

#[test]
fn focus_gain_is_ignored() {
    let mut m = WindowManager::new();
    create_window(&mut m, "tray-popup", false).unwrap();
    m.show_window("tray-popup").unwrap();
    let acts = handle_window_event(&mut m, "tray-popup", &HostWindowEvent::Focused(true));
    assert!(acts.is_empty());
    assert_eq!(m.is_window_visible("tray-popup"), Ok(true));
}

#[test]
fn lyrics_geometry_is_re_emitted() {
    let acts = handle_desktop_lyrics_event("desktop-lyrics", &HostWindowEvent::Moved(15, -20));
    assert_eq!(acts, vec![HostAction::EmitLyricsMoved(15, -20)]);
    let acts = handle_desktop_lyrics_event("desktop-lyrics", &HostWindowEvent::Resized(800, 120));
    assert_eq!(acts, vec![HostAction::EmitLyricsResized(800, 120)]);
    let acts = handle_desktop_lyrics_event("main", &HostWindowEvent::Moved(15, -20));
    assert!(acts.is_empty());
}

#[test]
fn destruction_reported_by_the_host_empties_the_slot() {
    let mut m = WindowManager::new();
    create_window(&mut m, "about", false).unwrap();
    let acts = handle_window_event(&mut m, "about", &HostWindowEvent::Destroyed);
    assert!(acts.is_empty());
    assert!(!m.window_exists("about"));
}

#[test]
fn tray_popup_is_created_lazily_then_placed_and_announced() {
    let mut m = WindowManager::new();
    let anchor = PxRect { x: 1850, y: 1050, width: 24, height: 24 };
    let monitors = vec![PxRect { x: 0, y: 0, width: 1920, height: 1080 }];
    let acts = show_tray_popup(&mut m, anchor, 260, 310, 8, TrayEdge::Bottom, &monitors).unwrap();
    assert_eq!(acts.len(), 7);
    assert!(matches!(acts[0], HostAction::Build(_)));
    assert!(matches!(acts[1], HostAction::ApplyEffect(_, _)));
    assert_eq!(acts[2], HostAction::SetSizeLogical("tray-popup".to_string(), 260, 310));
    assert_eq!(
        acts[3],
        HostAction::SetPositionPhysical("tray-popup".to_string(), 1660, 732)
    );
    assert_eq!(acts[4], HostAction::Show("tray-popup".to_string()));
    assert_eq!(acts[5], HostAction::Focus("tray-popup".to_string()));
    assert_eq!(acts[6], HostAction::EmitTrayPopupOpened);
    assert_eq!(m.is_window_visible("tray-popup"), Ok(true));
}

#[test]
fn tray_popup_already_live_is_only_repositioned() {
    let mut m = WindowManager::new();
    create_window(&mut m, "tray-popup", false).unwrap();
    let anchor = PxRect { x: 500, y: 1050, width: 24, height: 24 };
    let monitors = vec![PxRect { x: 0, y: 0, width: 1920, height: 1080 }];
    let acts = show_tray_popup(&mut m, anchor, 260, 310, 8, TrayEdge::Bottom, &monitors).unwrap();
    assert_eq!(acts.len(), 5);
    assert_eq!(acts[0], HostAction::SetSizeLogical("tray-popup".to_string(), 260, 310));
    assert_eq!(
        acts[1],
        HostAction::SetPositionPhysical("tray-popup".to_string(), 382, 732)
    );
    assert_eq!(acts.last(), Some(&HostAction::EmitTrayPopupOpened));
    assert_eq!(m.list_windows(), vec!["tray-popup".to_string()]);
}

#[test]
fn tray_left_click_always_shows_main() {
    let mut m = WindowManager::new();
    let anchor = PxRect { x: 500, y: 1050, width: 24, height: 24 };
    let monitors = vec![PxRect { x: 0, y: 0, width: 1920, height: 1080 }];
    assert_eq!(
        handle_tray_click(&mut m, TrayButton::Left, anchor, 260, 310, 8, TrayEdge::Bottom, &monitors),
        Err(WmError::NotFound)
    );
    create_window(&mut m, "main", false).unwrap();
    m.hide_window("main").unwrap();
    let acts = handle_tray_click(
        &mut m, TrayButton::Left, anchor, 260, 310, 8, TrayEdge::Bottom, &monitors,
    )
    .unwrap();
    assert_eq!(
        acts,
        vec![
            HostAction::Show("main".to_string()),
            HostAction::Focus("main".to_string()),
            HostAction::EmitMainVisibility(true),
        ]
    );
    // A second left click shows again: the tray never toggles.
    let acts = handle_tray_click(
        &mut m, TrayButton::Left, anchor, 260, 310, 8, TrayEdge::Bottom, &monitors,
    )
    .unwrap();
    assert_eq!(acts.last(), Some(&HostAction::EmitMainVisibility(true)));
    assert_eq!(m.is_window_visible("main"), Ok(true));
}

#[test]
fn tray_right_click_opens_the_popup() {
    let mut m = WindowManager::new();
    let anchor = PxRect { x: 500, y: 1050, width: 24, height: 24 };
    let monitors = vec![PxRect { x: 0, y: 0, width: 1920, height: 1080 }];
    let acts = handle_tray_click(
        &mut m, TrayButton::Right, anchor, 260, 310, 8, TrayEdge::Bottom, &monitors,
    )
    .unwrap();
    assert!(matches!(acts[0], HostAction::Build(_)));
    assert_eq!(acts.last(), Some(&HostAction::EmitTrayPopupOpened));
    assert_eq!(m.is_window_visible("tray-popup"), Ok(true));
}
