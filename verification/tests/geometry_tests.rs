use player_windows::geometry::{position_popup, PxRect, TrayEdge, POPUP_GAP};

fn monitor_1080p() -> PxRect {
    PxRect { x: 0, y: 0, width: 1920, height: 1080 }
}

#[test]
fn logical_gap_is_eight_pixels() {
    assert_eq!(POPUP_GAP, 8);
}

#[test]
fn popup_above_anchor_stays_inside_monitor() {
    let anchor = PxRect { x: 500, y: 1050, width: 24, height: 24 };
    let monitors = vec![monitor_1080p()];
    let (x, y) = position_popup(anchor, 260, 310, 8, TrayEdge::Bottom, &monitors);
    // Centered: 500 + 12 - 130; above: 1050 - 310 - 8.
    assert_eq!((x, y), (382, 732));
    assert!(x >= 0 && x + 260 <= 1920);
    assert!(y >= 0 && y + 310 <= 1080);
}

#[test]
fn popup_below_anchor_stays_inside_monitor() {
    let anchor = PxRect { x: 500, y: 0, width: 24, height: 24 };
    let monitors = vec![monitor_1080p()];
    let (x, y) = position_popup(anchor, 260, 310, 8, TrayEdge::Top, &monitors);
    // Below: 0 + 24 + 8.
    assert_eq!((x, y), (382, 32));
    assert!(x >= 0 && x + 260 <= 1920);
    assert!(y >= 0 && y + 310 <= 1080);
}

#[test]
fn popup_below_near_bottom_is_clamped_inside() {
    let anchor = PxRect { x: 500, y: 1000, width: 24, height: 24 };
    let monitors = vec![monitor_1080p()];
    let (x, y) = position_popup(anchor, 200, 300, 10, TrayEdge::Top, &monitors);
    // Candidate y = 1034 spills past 1080 - 300 = 780 and is clamped.
    assert_eq!((x, y), (412, 780));
    assert!(y + 300 <= 1080);
}

#[test]
fn anchor_near_right_edge_clamps_to_the_right_edge() {
    let anchor = PxRect { x: 1850, y: 1050, width: 24, height: 24 };
    let monitors = vec![monitor_1080p()];
    let (x, y) = position_popup(anchor, 260, 310, 8, TrayEdge::Bottom, &monitors);
    // Candidate x = 1850 + 12 - 130 = 1732 > 1920 - 260 = 1660.
    assert_eq!(x, 1660);
    assert_eq!(x + 260, 1920);
    assert_eq!(y, 732);
}

#[test]
fn anchor_near_left_edge_clamps_to_the_left_edge() {
    let anchor = PxRect { x: 2, y: 1050, width: 24, height: 24 };
    let monitors = vec![monitor_1080p()];
    let (x, _) = position_popup(anchor, 260, 310, 8, TrayEdge::Bottom, &monitors);
    assert_eq!(x, 0);
}

#[test]
fn popup_wider_than_monitor_collapses_to_monitor_origin() {
    let anchor = PxRect { x: 300, y: 200, width: 24, height: 24 };
    let monitors = vec![PxRect { x: 100, y: 100, width: 400, height: 300 }];
    let (x, y) = position_popup(anchor, 1000, 1000, 8, TrayEdge::Top, &monitors);
    assert_eq!((x, y), (100, 100));
}

#[test]
fn monitor_containing_the_anchor_is_used_for_clamping() {
    let anchor = PxRect { x: 2000, y: 500, width: 24, height: 24 };
    let monitors = vec![
        monitor_1080p(),
        PxRect { x: 1920, y: 0, width: 1280, height: 1024 },
    ];
    let (x, y) = position_popup(anchor, 260, 310, 8, TrayEdge::Top, &monitors);
    // Candidate (1882, 532) has x left of the second monitor and is pulled in.
    assert_eq!((x, y), (1920, 532));
}

#[test]
fn no_containing_monitor_leaves_the_candidate_unclamped() {
    let anchor = PxRect { x: -5000, y: -5000, width: 24, height: 24 };
    let monitors = vec![monitor_1080p()];
    let (x, y) = position_popup(anchor, 260, 310, 8, TrayEdge::Bottom, &monitors);
    assert_eq!((x, y), (-5000 + 12 - 130, -5000 - 310 - 8));
}
