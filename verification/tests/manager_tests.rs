use player_windows::actions::{EffectParams, HostAction};
use player_windows::commands::{
    create_custom_window, create_window, create_window_with_payload, persist_state_flags, quit_app,
};
use player_windows::config::WindowConfig;
use player_windows::manager::{WindowManager, WmError};
use player_windows::payload::PayloadCache;

fn count_main_vis(acts: &[HostAction]) -> usize {
    acts.iter()
        .filter(|a| matches!(a, HostAction::EmitMainVisibility(_)))
        .count()
}

#[test]
fn absent_labels_report_not_found() {
    let mut m = WindowManager::new();
    assert!(!m.window_exists("mini-player"));
    assert_eq!(m.is_window_visible("mini-player"), Err(WmError::NotFound));
    assert_eq!(m.show_window("mini-player"), Err(WmError::NotFound));
    assert_eq!(m.hide_window("mini-player"), Err(WmError::NotFound));
    assert_eq!(m.close_window("mini-player"), Err(WmError::NotFound));
    assert_eq!(m.toggle_window("mini-player", false), Err(WmError::NotFound));
    assert_eq!(m.focus_window("mini-player", false), Err(WmError::NotFound));
    assert_eq!(
        m.show_window_at_position("mini-player", 10, 10),
        Err(WmError::NotFound)
    );
    assert_eq!(
        m.set_ignore_cursor_events("mini-player", true),
        Err(WmError::NotFound)
    );
    assert_eq!(m.resize_window("mini-player", 10, 10), Err(WmError::NotFound));
    assert_eq!(m.set_window_position("mini-player", 1, 2), Err(WmError::NotFound));
    assert_eq!(
        m.set_window_effect_color("mini-player", 1, 2, 3, 4),
        Err(WmError::NotFound)
    );
    let st = m.get_window_state("mini-player");
    assert!(!st.exists);
    assert!(!st.visible);
}

#[test]
fn single_instance_create_twice_keeps_one_window() {
    let mut m = WindowManager::new();
    let first = create_window(&mut m, "main", false).unwrap();
    assert!(matches!(first[0], HostAction::Build(_)));
    assert_eq!(m.list_windows().len(), 1);

    let second = create_window(&mut m, "main", false).unwrap();
    assert_eq!(
        second,
        vec![
            HostAction::Show("main".to_string()),
            HostAction::Focus("main".to_string()),
        ]
    );
    assert_eq!(m.list_windows(), vec!["main".to_string()]);
}

#[test]
fn second_create_unminimizes_only_when_minimized() {
    let mut m = WindowManager::new();
    create_window(&mut m, "settings", false).unwrap();
    let focused = create_window(&mut m, "settings", true).unwrap();
    assert_eq!(
        focused,
        vec![
            HostAction::Show("settings".to_string()),
            HostAction::Unminimize("settings".to_string()),
            HostAction::Focus("settings".to_string()),
        ]
    );
}

#[test]
fn unknown_label_has_no_preset() {
    let mut m = WindowManager::new();
    assert_eq!(create_window(&mut m, "unknown-label", false), Err(WmError::NoPreset));
    assert!(!m.window_exists("unknown-label"));
}

#[test]
fn close_on_tray_closeable_hides_instead_of_destroying() {
    let mut m = WindowManager::new();
    create_window(&mut m, "main", false).unwrap();
    let acts = m.close_window("main").unwrap();
    assert_eq!(
        acts,
        vec![
            HostAction::Hide("main".to_string()),
            HostAction::EmitMainVisibility(false),
        ]
    );
    let st = m.get_window_state("main");
    assert!(st.exists);
    assert!(!st.visible);
}

#[test]
fn close_on_other_presets_destroys() {
    let mut m = WindowManager::new();
    create_window(&mut m, "settings", false).unwrap();
    let acts = m.close_window("settings").unwrap();
    assert_eq!(acts, vec![HostAction::Destroy("settings".to_string())]);
    assert!(!m.window_exists("settings"));
}

#[test]
fn toggle_twice_restores_visibility() {
    let mut m = WindowManager::new();
    create_window(&mut m, "mini-player", false).unwrap();
    assert_eq!(m.is_window_visible("mini-player"), Ok(true));
    m.toggle_window("mini-player", false).unwrap();
    assert_eq!(m.is_window_visible("mini-player"), Ok(false));
    m.toggle_window("mini-player", false).unwrap();
    assert_eq!(m.is_window_visible("mini-player"), Ok(true));
}

#[test]
fn toggle_main_emits_visibility_exactly_once_per_call() {
    let mut m = WindowManager::new();
    create_window(&mut m, "main", false).unwrap();

    let hide_acts = m.toggle_window("main", false).unwrap();
    assert_eq!(count_main_vis(&hide_acts), 1);
    assert_eq!(hide_acts.last(), Some(&HostAction::EmitMainVisibility(false)));

    let show_acts = m.toggle_window("main", false).unwrap();
    assert_eq!(count_main_vis(&show_acts), 1);
    assert_eq!(show_acts.last(), Some(&HostAction::EmitMainVisibility(true)));
}

#[test]
fn toggle_hidden_window_unminimizes_only_if_minimized() {
    let mut m = WindowManager::new();
    create_window(&mut m, "settings", false).unwrap();
    m.hide_window("settings").unwrap();
    let acts = m.toggle_window("settings", true).unwrap();
    assert_eq!(
        acts,
        vec![
            HostAction::Show("settings".to_string()),
            HostAction::Unminimize("settings".to_string()),
            HostAction::Focus("settings".to_string()),
        ]
    );
    m.hide_window("settings").unwrap();
    let acts = m.toggle_window("settings", false).unwrap();
    assert_eq!(
        acts,
        vec![
            HostAction::Show("settings".to_string()),
            HostAction::Focus("settings".to_string()),
        ]
    );
}

#[test]
fn show_and_hide_main_emit_visibility() {
    let mut m = WindowManager::new();
    create_window(&mut m, "main", false).unwrap();
    let acts = m.hide_window("main").unwrap();
    assert_eq!(acts.last(), Some(&HostAction::EmitMainVisibility(false)));
    let acts = m.show_window("main").unwrap();
    assert_eq!(
        acts,
        vec![
            HostAction::Show("main".to_string()),
            HostAction::Focus("main".to_string()),
            HostAction::EmitMainVisibility(true),
        ]
    );
}

#[test]
fn custom_window_with_missing_parent_fails() {
    let mut m = WindowManager::new();
    let mut config = WindowConfig::about();
    config.label = "notes".to_string();
    config.parent_label = Some("main".to_string());
    assert_eq!(
        create_custom_window(&mut m, &config, false),
        Err(WmError::ParentNotFound)
    );
    assert!(!m.window_exists("notes"));
}

#[test]
fn custom_window_with_live_parent_succeeds() {
    let mut m = WindowManager::new();
    create_window(&mut m, "main", false).unwrap();
    let mut config = WindowConfig::about();
    config.label = "notes".to_string();
    config.parent_label = Some("main".to_string());
    assert!(create_custom_window(&mut m, &config, false).is_ok());
    assert!(m.window_exists("notes"));
}

#[test]
fn duplicate_label_without_single_instance_is_a_host_failure() {
    let mut m = WindowManager::new();
    create_window(&mut m, "about", false).unwrap();
    let mut config = WindowConfig::about();
    config.single_instance = false;
    assert_eq!(
        create_custom_window(&mut m, &config, false),
        Err(WmError::HostFailure)
    );
}

#[test]
fn missing_parent_is_reported_before_the_duplicate_label() {
    let mut m = WindowManager::new();
    create_window(&mut m, "about", false).unwrap();
    let mut config = WindowConfig::about();
    config.single_instance = false;
    config.parent_label = Some("main".to_string());
    assert_eq!(
        create_custom_window(&mut m, &config, false),
        Err(WmError::ParentNotFound)
    );
    assert_eq!(m.list_windows(), vec!["about".to_string()]);
}

#[test]
fn create_applies_configured_effect() {
    let mut m = WindowManager::new();
    let acts = create_window(&mut m, "mini-player", false).unwrap();
    assert_eq!(acts.len(), 2);
    assert!(matches!(acts[0], HostAction::Build(_)));
    assert_eq!(
        acts[1],
        HostAction::ApplyEffect(
            "mini-player".to_string(),
            EffectParams { r: 30, g: 30, b: 30, a: 200 }
        )
    );
}

#[test]
fn effect_color_follows_the_preset_catalog() {
    let mut m = WindowManager::new();
    create_window(&mut m, "mini-player", false).unwrap();
    create_window(&mut m, "main", false).unwrap();
    let acts = m.set_window_effect_color("mini-player", 1, 2, 3, 4).unwrap();
    assert_eq!(
        acts,
        vec![HostAction::ApplyEffect(
            "mini-player".to_string(),
            EffectParams { r: 1, g: 2, b: 3, a: 4 }
        )]
    );
    let acts = m.set_window_effect_color("main", 1, 2, 3, 4).unwrap();
    assert!(acts.is_empty());
}

#[test]
fn show_at_position_places_before_showing() {
    let mut m = WindowManager::new();
    create_window(&mut m, "tray-popup", false).unwrap();
    assert_eq!(m.is_window_visible("tray-popup"), Ok(false));
    let acts = m.show_window_at_position("tray-popup", 40, 50).unwrap();
    assert_eq!(
        acts,
        vec![
            HostAction::SetPositionPhysical("tray-popup".to_string(), 40, 50),
            HostAction::Show("tray-popup".to_string()),
            HostAction::Focus("tray-popup".to_string()),
        ]
    );
    assert_eq!(m.is_window_visible("tray-popup"), Ok(true));
}

#[test]
fn thin_mutators_address_the_live_window() {
    let mut m = WindowManager::new();
    create_window(&mut m, "desktop-lyrics", false).unwrap();
    assert_eq!(
        m.set_ignore_cursor_events("desktop-lyrics", true).unwrap(),
        vec![HostAction::SetIgnoreCursorEvents("desktop-lyrics".to_string(), true)]
    );
    assert_eq!(
        m.resize_window("desktop-lyrics", 640, 100).unwrap(),
        vec![HostAction::SetSizeLogical("desktop-lyrics".to_string(), 640, 100)]
    );
    assert_eq!(
        m.set_window_position("desktop-lyrics", -5, 7).unwrap(),
        vec![HostAction::SetPositionPhysical("desktop-lyrics".to_string(), -5, 7)]
    );
}

#[test]
fn destroyed_windows_leave_the_registry() {
    let mut m = WindowManager::new();
    create_window(&mut m, "about", false).unwrap();
    assert!(m.window_exists("about"));
    m.note_destroyed("about");
    assert!(!m.window_exists("about"));
}

#[test]
fn create_with_payload_stages_the_payload_first() {
    let mut m = WindowManager::new();
    let mut cache = PayloadCache::new();
    let payload = serde_json::Value::String("track-42".to_string());
    create_window_with_payload(&mut m, &mut cache, "mini-player", payload.clone(), false).unwrap();
    assert!(m.window_exists("mini-player"));
    assert_eq!(cache.take("mini-player"), Some(payload));
}

#[test]
fn payload_is_staged_even_without_a_preset() {
    let mut m = WindowManager::new();
    let mut cache = PayloadCache::new();
    let payload = serde_json::Value::Null;
    assert_eq!(
        create_window_with_payload(&mut m, &mut cache, "unknown-label", payload.clone(), false),
        Err(WmError::NoPreset)
    );
    assert!(!m.window_exists("unknown-label"));
    assert_eq!(cache.take("unknown-label"), Some(payload));
}

#[test]
fn quit_persists_state_without_visibility() {
    let flags = persist_state_flags();
    assert!(flags.size && flags.position && flags.maximized && flags.fullscreen && flags.decorations);
    assert!(!flags.visible);
    assert_eq!(
        quit_app(),
        vec![HostAction::SaveWindowState, HostAction::Exit]
    );
}
