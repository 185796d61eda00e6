//! Keeping the pet's window on screen: where a window whose centre lies on no
//! monitor is moved back to.
use vstd::prelude::*;

verus! {

/// A monitor's area in physical pixels of the global desktop.
#[derive(Debug, Clone, Copy, PartialEq, Eq, Structural)]
pub struct MonitorRect {
    pub x: i32,
    pub y: i32,
    pub width: u32,
    pub height: u32,
}

/// The margin (px) from a monitor's top-left corner at which a stray window
/// is placed.
pub const RESCUE_MARGIN: i32 = 40;

/// The point `(cx, cy)` lies on monitor `m` (its size read as `i32`).
pub open spec fn on_monitor(cx: int, cy: int, m: MonitorRect) -> bool {
    m.x <= cx < m.x + (m.width as i32) && m.y <= cy < m.y + (m.height as i32)
}

/// The window's extent read as `i32`, and its centre.
pub open spec fn center(pos_x: i32, pos_y: i32, width: u32, height: u32) -> (int, int) {
    (pos_x + (width as i32) / 2, pos_y + (height as i32) / 2)
}

/// The sums the clamp forms fit in `i32`.
pub open spec fn clamp_fits(
    pos_x: i32,
    pos_y: i32,
    width: u32,
    height: u32,
    monitors: Seq<MonitorRect>,
    primary: Option<MonitorRect>,
) -> bool {
    &&& ((width as i32) > 0 && (height as i32) > 0) ==> {
        let (cx, cy) = center(pos_x, pos_y, width, height);
        i32::MIN <= cx <= i32::MAX && i32::MIN <= cy <= i32::MAX
    }
    &&& forall|i: int|
        0 <= i < monitors.len() ==> #[trigger] monitors[i].x + (monitors[i].width as i32)
            <= i32::MAX && monitors[i].y + (monitors[i].height as i32) <= i32::MAX
            && monitors[i].x + (monitors[i].width as i32) >= i32::MIN && monitors[i].y
            + (monitors[i].height as i32) >= i32::MIN
    &&& match primary {
        Some(p) => p.x + RESCUE_MARGIN <= i32::MAX && p.y + RESCUE_MARGIN <= i32::MAX,
        None => monitors.len() > 0 ==> monitors[0].x + RESCUE_MARGIN <= i32::MAX && monitors[0].y
            + RESCUE_MARGIN <= i32::MAX,
    }
}

/// Where the window goes: nowhere (`None`) while it has no area, while there
/// are no monitors, or while its centre lies on some monitor; else to the
/// primary monitor (or the first) at `RESCUE_MARGIN` from its corner.
pub open spec fn clamp_spec(
    pos_x: i32,
    pos_y: i32,
    width: u32,
    height: u32,
    monitors: Seq<MonitorRect>,
    primary: Option<MonitorRect>,
) -> Option<(i32, i32)> {
    let (cx, cy) = center(pos_x, pos_y, width, height);
    if (width as i32) <= 0 || (height as i32) <= 0 {
        None
    } else if monitors.len() == 0 {
        None
    } else if exists|i: int| 0 <= i < monitors.len() && on_monitor(cx, cy, #[trigger] monitors[i]) {
        None
    } else {
        let m = match primary {
            Some(p) => p,
            None => monitors[0],
        };
        Some(((m.x + RESCUE_MARGIN) as i32, (m.y + RESCUE_MARGIN) as i32))
    }
}

pub fn clamp_target(
    pos_x: i32,
    pos_y: i32,
    width: u32,
    height: u32,
    monitors: &Vec<MonitorRect>,
    primary: Option<MonitorRect>,
) -> (r: Option<(i32, i32)>)
    requires
        clamp_fits(pos_x, pos_y, width, height, monitors@, primary),
    ensures
        r == clamp_spec(pos_x, pos_y, width, height, monitors@, primary),
{
    let w = width as i32;
    let h = height as i32;
    if w <= 0 || h <= 0 {
        return None;
    }
    let cx = pos_x + w / 2;
    let cy = pos_y + h / 2;
    if monitors.len() == 0 {
        return None;
    }
    let mut i: usize = 0;
    while i < monitors.len()
        invariant
            i <= monitors@.len(),
            clamp_fits(pos_x, pos_y, width, height, monitors@, primary),
            cx == center(pos_x, pos_y, width, height).0,
            cy == center(pos_x, pos_y, width, height).1,
            forall|j: int| 0 <= j < i ==> !on_monitor(cx as int, cy as int, #[trigger] monitors@[j]),
        decreases monitors@.len() - i,
    {
        let mon = monitors[i];
        assert(monitors@[i as int] == mon);
        let mx1 = mon.x + mon.width as i32;
        let my1 = mon.y + mon.height as i32;
        if cx >= mon.x && cx < mx1 && cy >= mon.y && cy < my1 {
            assert(on_monitor(cx as int, cy as int, monitors@[i as int]));
            return None;
        }
        i = i + 1;
    }
    let mon = match primary {
        Some(p) => p,
        None => monitors[0],
    };
    Some((mon.x + RESCUE_MARGIN, mon.y + RESCUE_MARGIN))
}


/// A window with area stays where it is exactly when its centre
/// (`pos_x + width/2`, `pos_y + height/2`) lies on some monitor, or when there
/// is no monitor; otherwise it goes `RESCUE_MARGIN` from the corner of the
/// primary monitor (the first where none is primary).
pub proof fn law_clamp_moves_only_off_screen_centres(
    pos_x: i32,
    pos_y: i32,
    width: u32,
    height: u32,
    monitors: Seq<MonitorRect>,
    primary: Option<MonitorRect>,
)
    requires
        (width as i32) > 0,
        (height as i32) > 0,
        clamp_fits(pos_x, pos_y, width, height, monitors, primary),
    ensures
        ({
            let cx = pos_x + (width as i32) / 2;
            let cy = pos_y + (height as i32) / 2;
            let centre_on_screen = exists|i: int|
                0 <= i < monitors.len() && #[trigger] monitors[i].x <= cx && cx < monitors[i].x
                    + (monitors[i].width as i32) && monitors[i].y <= cy && cy < monitors[i].y
                    + (monitors[i].height as i32);
            &&& (clamp_spec(pos_x, pos_y, width, height, monitors, primary) is None) <==> (
            monitors.len() == 0 || centre_on_screen)
            &&& (monitors.len() > 0 && !centre_on_screen) ==> clamp_spec(
                pos_x,
                pos_y,
                width,
                height,
                monitors,
                primary,
            ) == Some(
                match primary {
                    Some(p) => ((p.x + 40) as i32, (p.y + 40) as i32),
                    None => ((monitors[0].x + 40) as i32, (monitors[0].y + 40) as i32),
                },
            )
        }),
{
    let cx = pos_x + (width as i32) / 2;
    let cy = pos_y + (height as i32) / 2;
    assert(center(pos_x, pos_y, width, height) == (cx, cy));
    if exists|i: int|
        0 <= i < monitors.len() && #[trigger] monitors[i].x <= cx && cx < monitors[i].x
            + (monitors[i].width as i32) && monitors[i].y <= cy && cy < monitors[i].y
            + (monitors[i].height as i32) {
        let i = choose|i: int|
            0 <= i < monitors.len() && #[trigger] monitors[i].x <= cx && cx < monitors[i].x
                + (monitors[i].width as i32) && monitors[i].y <= cy && cy < monitors[i].y
                + (monitors[i].height as i32);
        assert(on_monitor(cx, cy, monitors[i]));
    }
}
} // verus!
