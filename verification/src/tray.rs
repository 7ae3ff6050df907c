//! The tray controller: a click on the tray icon either reveals the main
//! window (left) or opens the popup near the tray anchor (right). Opening
//! the popup makes sure its window is live (creating it from its preset as
//! a fallback), forces it back to its preset size, positions it next to
//! the anchor with monitor clamping, reveals it, and notifies its content.
use vstd::prelude::*;

use crate::actions::HostAction;
use crate::actions::default_effect_params;
use crate::actions::is_apply_effect;
use crate::actions::is_focus;
use crate::actions::is_set_position;
use crate::actions::is_set_size;
use crate::actions::is_show;
use crate::actions::show_actions;
use crate::config::WindowConfig;
use crate::config::is_tray_popup_preset;
use crate::geometry::COORD_LIMIT;
use crate::geometry::PxRect;
use crate::geometry::TrayEdge;
use crate::geometry::candidate_x;
use crate::geometry::candidate_y;
use crate::geometry::clamp_spec;
use crate::geometry::first_monitor_containing;
use crate::geometry::position_popup;
use crate::geometry::rect_wf;
use crate::manager::LiveWindow;
use crate::manager::WindowManager;
use crate::manager::WmError;

verus! {

/// Where the popup's top-left corner ends up, in physical pixels.
pub open spec fn popup_position_spec(
    anchor: PxRect,
    popup_w: int,
    popup_h: int,
    gap: int,
    edge: TrayEdge,
    monitors: Seq<PxRect>,
) -> (int, int) {
    let cx = candidate_x(anchor, popup_w);
    let cy = candidate_y(anchor, popup_h, gap, edge);
    match first_monitor_containing(monitors, anchor.x as int, anchor.y as int) {
        Some(mo) => (
            clamp_spec(cx, mo.x as int, mo.x + mo.width - popup_w),
            clamp_spec(cy, mo.y as int, mo.y + mo.height - popup_h),
        ),
        None => (cx, cy),
    }
}

/// The action sequence that opens the tray popup: when the popup was not
/// yet live, first build it from its preset and apply its effect; then
/// force the preset size, place, show, focus, and notify.
pub open spec fn tray_popup_actions(s: Seq<HostAction>, existed: bool, pos: (int, int)) -> bool {
    let l = "tray-popup"@;
    let k: int = if existed {
        0
    } else {
        2
    };
    &&& s.len() == k + 5
    &&& (!existed ==> (s[0] matches HostAction::Build(c) && is_tray_popup_preset(c))
        && is_apply_effect(s[1], l, default_effect_params()))
    &&& is_set_size(s[k], l, 260, 310)
    &&& is_set_position(s[k + 1], l, pos.0, pos.1)
    &&& is_show(s[k + 2], l)
    &&& is_focus(s[k + 3], l)
    &&& s[k + 4] == HostAction::EmitTrayPopupOpened
}

/// Show the tray popup near the tray anchor. The anchor, popup size and
/// gap are physical pixels (the host converts logical sizes by its scale
/// factor). The popup is created from its preset if it is not yet live,
/// snapped back to its preset logical size, placed by the positioner, and
/// revealed; finally its content is told to refresh.
pub fn show_tray_popup(
    m: &mut WindowManager,
    anchor: PxRect,
    popup_w: i64,
    popup_h: i64,
    gap: i64,
    edge: TrayEdge,
    monitors: &Vec<PxRect>,
) -> (r: Result<Vec<HostAction>, WmError>)
    requires
        rect_wf(anchor),
        0 <= popup_w <= COORD_LIMIT,
        0 <= popup_h <= COORD_LIMIT,
        0 <= gap <= COORD_LIMIT,
        forall|i: int| 0 <= i < monitors@.len() ==> rect_wf(#[trigger] monitors@[i]),
    ensures
        final(m)@ == old(m)@.insert("tray-popup"@, (LiveWindow { visible: true })),
        r matches Ok(acts) && tray_popup_actions(
            acts@,
            old(m)@.dom().contains("tray-popup"@),
            popup_position_spec(
                anchor,
                popup_w as int,
                popup_h as int,
                gap as int,
                edge,
                monitors@,
            ),
        ),
{
    let config = WindowConfig::tray_popup();
    let mut acts: Vec<HostAction> = Vec::new();
    if !m.window_exists("tray-popup") {
        match m.create_window(&config, false) {
            Ok(mut created) => {
                acts.append(&mut created);
            },
            Err(e) => {
                proof {
                    assert(false);
                }
                return Err(e);
            },
        }
    }
    acts.push(HostAction::SetSizeLogical("tray-popup".to_owned(), config.width, config.height));
    let (x, y) = position_popup(anchor, popup_w, popup_h, gap, edge, monitors);
    match m.show_window_at_position("tray-popup", x, y) {
        Ok(mut shown) => {
            acts.append(&mut shown);
        },
        Err(e) => {
            proof {
                assert(false);
            }
            return Err(e);
        },
    }
    acts.push(HostAction::EmitTrayPopupOpened);
    Ok(acts)
}

/// A click on the tray icon.
#[derive(Debug, Clone, Copy, PartialEq, Eq, Structural)]
pub enum TrayButton {
    Left,
    Right,
}

/// The tray controller's decision: a left click always shows the main
/// window (never toggles); a right click opens the popup near the anchor.
pub fn handle_tray_click(
    m: &mut WindowManager,
    button: TrayButton,
    anchor: PxRect,
    popup_w: i64,
    popup_h: i64,
    gap: i64,
    edge: TrayEdge,
    monitors: &Vec<PxRect>,
) -> (r: Result<Vec<HostAction>, WmError>)
    requires
        button is Right ==> rect_wf(anchor) && 0 <= popup_w <= COORD_LIMIT && 0 <= popup_h
            <= COORD_LIMIT && 0 <= gap <= COORD_LIMIT && (forall|i: int|
            0 <= i < monitors@.len() ==> rect_wf(#[trigger] monitors@[i])),
    ensures
        button is Left && old(m)@.dom().contains("main"@) ==> {
            &&& final(m)@ == old(m)@.insert("main"@, (LiveWindow { visible: true }))
            &&& r matches Ok(acts) && show_actions(acts@, "main"@)
        },
        button is Left && !old(m)@.dom().contains("main"@) ==> {
            &&& final(m)@ == old(m)@
            &&& r == Err::<Vec<HostAction>, WmError>(WmError::NotFound)
        },
        button is Right ==> {
            &&& final(m)@ == old(m)@.insert("tray-popup"@, (LiveWindow { visible: true }))
            &&& r matches Ok(acts) && tray_popup_actions(
                acts@,
                old(m)@.dom().contains("tray-popup"@),
                popup_position_spec(
                    anchor,
                    popup_w as int,
                    popup_h as int,
                    gap as int,
                    edge,
                    monitors@,
                ),
            )
        },
{
    match button {
        TrayButton::Left => m.show_window("main"),
        TrayButton::Right => show_tray_popup(m, anchor, popup_w, popup_h, gap, edge, monitors),
    }
}

} // verus!
