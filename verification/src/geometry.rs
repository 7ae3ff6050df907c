//! Tray-popup positioning: pure geometry in physical pixels. The popup is
//! centered horizontally on the tray anchor, offset past it vertically
//! according to the platform's tray-edge convention, and clamped into the
//! monitor that contains the anchor.
use vstd::prelude::*;

verus! {

/// The gap, in logical pixels, kept between the tray anchor and the popup;
/// hosts scale it to physical pixels alongside the popup size.
pub const POPUP_GAP: u32 = 8;

/// Magnitude bound on every coordinate and size handled here; host
/// coordinates are 32-bit, so this is generous and keeps 64-bit arithmetic
/// far from overflow.
pub const COORD_LIMIT: i64 = 4294967296;

/// A rectangle in physical pixels: the tray anchor, or a monitor's bounds.
#[derive(Debug, Clone, Copy, PartialEq, Eq, Structural)]
pub struct PxRect {
    pub x: i64,
    pub y: i64,
    pub width: i64,
    pub height: i64,
}

/// Which screen edge the platform's tray lives on. A top-edge tray places
/// the popup below the anchor; a bottom-edge tray places it above.
#[derive(Debug, Clone, Copy, PartialEq, Eq, Structural)]
pub enum TrayEdge {
    Top,
    Bottom,
}

/// A rectangle with in-range coordinates and non-negative sizes.
pub open spec fn rect_wf(r: PxRect) -> bool {
    &&& -COORD_LIMIT <= r.x <= COORD_LIMIT
    &&& -COORD_LIMIT <= r.y <= COORD_LIMIT
    &&& 0 <= r.width <= COORD_LIMIT
    &&& 0 <= r.height <= COORD_LIMIT
}

/// Whether a point lies within a monitor's bounds.
pub open spec fn contains_point(m: PxRect, px: int, py: int) -> bool {
    &&& m.x <= px < m.x + m.width
    &&& m.y <= py < m.y + m.height
}

/// The first listed monitor whose bounds contain the point, if any.
pub open spec fn first_monitor_containing(s: Seq<PxRect>, px: int, py: int) -> Option<PxRect>
    decreases s.len(),
{
    if s.len() == 0 {
        None
    } else if contains_point(s[0], px, py) {
        Some(s[0])
    } else {
        first_monitor_containing(s.drop_first(), px, py)
    }
}

/// Clamp `v` into `[lo, hi]`; when the interval is empty the clamp
/// collapses to `lo`.
pub open spec fn clamp_spec(v: int, lo: int, hi: int) -> int {
    let h = if hi >= lo {
        hi
    } else {
        lo
    };
    if v < lo {
        lo
    } else if v > h {
        h
    } else {
        v
    }
}

/// The unclamped popup left edge: centered on the anchor's midpoint.
pub open spec fn candidate_x(anchor: PxRect, popup_w: int) -> int {
    anchor.x + anchor.width / 2 - popup_w / 2
}

/// The unclamped popup top edge: past the anchor by the gap, on the side
/// the tray-edge convention dictates.
pub open spec fn candidate_y(anchor: PxRect, popup_h: int, gap: int, edge: TrayEdge) -> int {
    match edge {
        TrayEdge::Top => anchor.y + anchor.height + gap,
        TrayEdge::Bottom => anchor.y - popup_h - gap,
    }
}

fn clamp_i64(v: i64, lo: i64, hi: i64) -> (r: i64)
    ensures
        r == clamp_spec(v as int, lo as int, hi as int),
{
    let h = if hi >= lo {
        hi
    } else {
        lo
    };
    if v < lo {
        lo
    } else if v > h {
        h
    } else {
        v
    }
}

/// The first monitor in the list whose bounds contain the point.
pub fn find_monitor_containing(monitors: &Vec<PxRect>, px: i64, py: i64) -> (r: Option<PxRect>)
    requires
        forall|i: int| 0 <= i < monitors@.len() ==> rect_wf(#[trigger] monitors@[i]),
    ensures
        r == first_monitor_containing(monitors@, px as int, py as int),
        r matches Some(m) ==> rect_wf(m),
{
    let ghost s = monitors@;
    proof {
        assert(s.skip(0) =~= s);
    }
    let mut i: usize = 0;
    while i < monitors.len()
        invariant
            0 <= i <= s.len(),
            s == monitors@,
            forall|j: int| 0 <= j < s.len() ==> rect_wf(#[trigger] s[j]),
            first_monitor_containing(s, px as int, py as int) == first_monitor_containing(
                s.skip(i as int),
                px as int,
                py as int,
            ),
        decreases s.len() - i,
    {
        let m = monitors[i];
        proof {
            assert(s.skip(i as int)[0] == s[i as int]);
        }
        if m.x <= px && px < m.x + m.width && m.y <= py && py < m.y + m.height {
            return Some(m);
        }
        proof {
            assert(s.skip(i as int).drop_first() =~= s.skip(i as int + 1));
        }
        i = i + 1;
    }
    proof {
        assert(s.skip(i as int).len() == 0);
    }
    None
}

/// Compute the popup's top-left corner in physical pixels: center it on
/// the anchor, offset it past the anchor on the conventional side, then
/// clamp it into the monitor containing the anchor's top-left point. When
/// no monitor contains that point the candidate is used unclamped.
pub fn position_popup(
    anchor: PxRect,
    popup_w: i64,
    popup_h: i64,
    gap: i64,
    edge: TrayEdge,
    monitors: &Vec<PxRect>,
) -> (pos: (i64, i64))
    requires
        rect_wf(anchor),
        0 <= popup_w <= COORD_LIMIT,
        0 <= popup_h <= COORD_LIMIT,
        0 <= gap <= COORD_LIMIT,
        forall|i: int| 0 <= i < monitors@.len() ==> rect_wf(#[trigger] monitors@[i]),
    ensures
        ({
            let cx = candidate_x(anchor, popup_w as int);
            let cy = candidate_y(anchor, popup_h as int, gap as int, edge);
            match first_monitor_containing(monitors@, anchor.x as int, anchor.y as int) {
                Some(m) => pos.0 == clamp_spec(cx, m.x as int, m.x + m.width - popup_w) && pos.1
                    == clamp_spec(cy, m.y as int, m.y + m.height - popup_h),
                None => pos.0 == cx && pos.1 == cy,
            }
        }),
{
    let cx = anchor.x + anchor.width / 2 - popup_w / 2;
    let cy = match edge {
        TrayEdge::Top => anchor.y + anchor.height + gap,
        TrayEdge::Bottom => anchor.y - popup_h - gap,
    };
    match find_monitor_containing(monitors, anchor.x, anchor.y) {
        Some(m) => {
            let x = clamp_i64(cx, m.x, m.x + m.width - popup_w);
            let y = clamp_i64(cy, m.y, m.y + m.height - popup_h);
            (x, y)
        },
        None => (cx, cy),
    }
}

/// A popup no larger than the monitor containing its anchor lands entirely
/// inside that monitor, under either tray-edge convention.
pub proof fn lemma_popup_fits_monitor(
    anchor: PxRect,
    popup_w: int,
    popup_h: int,
    gap: int,
    edge: TrayEdge,
    m: PxRect,
)
    requires
        m.x <= anchor.x,
        anchor.x + anchor.width <= m.x + m.width,
        m.y <= anchor.y,
        anchor.y + anchor.height <= m.y + m.height,
        anchor.width >= 0,
        anchor.height >= 0,
        0 <= popup_w <= m.width,
        0 <= popup_h <= m.height,
        0 <= gap,
    ensures
        ({
            let x = clamp_spec(candidate_x(anchor, popup_w), m.x as int, m.x + m.width - popup_w);
            let y = clamp_spec(
                candidate_y(anchor, popup_h, gap, edge),
                m.y as int,
                m.y + m.height - popup_h,
            );
            &&& m.x <= x
            &&& x + popup_w <= m.x + m.width
            &&& m.y <= y
            &&& y + popup_h <= m.y + m.height
        }),
{
}

/// An anchor so close to the monitor's right edge that the centered
/// candidate would spill past it is clamped so that the popup's right edge
/// equals the monitor's right edge exactly.
pub proof fn lemma_popup_clamped_right_edge(anchor: PxRect, popup_w: int, m: PxRect)
    requires
        0 <= popup_w <= m.width,
        candidate_x(anchor, popup_w) > m.x + m.width - popup_w,
    ensures
        clamp_spec(candidate_x(anchor, popup_w), m.x as int, m.x + m.width - popup_w) + popup_w
            == m.x + m.width,
{
}

} // verus!
