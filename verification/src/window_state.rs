//! The geometry of the main window between two runs: it is saved when the window closes and
//! restored at the next start where the window would still be on a monitor. All numbers are
//! physical pixels.

use vstd::prelude::*;

use crate::config;
use crate::platform::{HostEnv, Platform};
use crate::text;

verus! {

/// Position and size of the main window.
#[derive(Clone, Copy, Debug, PartialEq, Eq, Structural)]
pub struct WindowGeometry {
    pub x: i32,
    pub y: i32,
    pub width: u32,
    pub height: u32,
}

/// The middle of an interval that starts at `start` and is `length` long, rounded down.
pub open spec fn middle(start: i32, length: u32) -> int {
    start + length as int / 2
}

/// Whether `n` lies in the interval that starts at `start` and is `length` long.
pub open spec fn within(n: int, start: i32, length: u32) -> bool {
    start <= n < start + length
}

/// Whether the centre of the window lies on the monitor `(x, y, width, height)`.
pub open spec fn is_centered_on(g: WindowGeometry, monitor: (i32, i32, u32, u32)) -> bool {
    &&& within(middle(g.x, g.width), monitor.0, monitor.2)
    &&& within(middle(g.y, g.height), monitor.1, monitor.3)
}

/// Whether the centre of the window lies on one of the monitors.
pub open spec fn is_visible(g: WindowGeometry, monitors: Seq<(i32, i32, u32, u32)>) -> bool {
    exists|i: int| 0 <= i < monitors.len() && is_centered_on(g, #[trigger] monitors[i])
}

/// Tests whether a saved window would still be visible: whether its centre lies on one of
/// `monitors`, each of which is `(x, y, width, height)`. After a monitor was unplugged a window
/// may lie outside all of them and must not be restored there.
pub fn is_visible_on(g: &WindowGeometry, monitors: &[(i32, i32, u32, u32)]) -> (visible: bool)
    ensures
        visible == is_visible(*g, monitors@),
        visible == exists|i: int|
            0 <= i < monitors@.len() && (#[trigger] monitors@[i]).0 <= g.x + g.width as int / 2
                < monitors@[i].0 + monitors@[i].2 && monitors@[i].1 <= g.y + g.height as int / 2
                < monitors@[i].1 + monitors@[i].3,
{
    let cx: i64 = g.x as i64 + g.width as i64 / 2;
    let cy: i64 = g.y as i64 + g.height as i64 / 2;
    for i in 0..monitors.len()
        invariant
            cx == middle(g.x, g.width),
            cy == middle(g.y, g.height),
            forall|k: int| 0 <= k < i ==> !is_centered_on(*g, #[trigger] monitors@[k]),
    {
        let (mx, my, mw, mh) = monitors[i];
        if cx >= mx as i64 && cx < mx as i64 + mw as i64 && cy >= my as i64 && cy < my as i64
            + mh as i64 {
            assert(is_centered_on(*g, monitors@[i as int]));
            return true;
        }
    }
    false
}

/// The geometry with which the main window starts: the saved one where it is still visible. With
/// none the window is fitted to its screen.
pub fn geometry_to_restore(
    saved: Option<WindowGeometry>,
    monitors: &[(i32, i32, u32, u32)],
) -> (restored: Option<WindowGeometry>)
    ensures
        restored == (if saved is Some && is_visible(saved->0, monitors@) {
            saved
        } else {
            None
        }),
        restored is Some ==> restored == saved,
        restored is Some <==> saved is Some && exists|i: int|
            0 <= i < monitors@.len() && (#[trigger] monitors@[i]).0 <= saved->0.x
                + saved->0.width as int / 2 < monitors@[i].0 + monitors@[i].2 && monitors@[i].1
                <= saved->0.y + saved->0.height as int / 2 < monitors@[i].1 + monitors@[i].3,
{
    match saved {
        Some(g) => if is_visible_on(&g, monitors) {
            Some(g)
        } else {
            None
        },
        None => None,
    }
}

/// The geometry to save from the window's position and size. A window that is already gone has
/// neither, and nothing is saved.
pub fn geometry_of(position: Option<(i32, i32)>, size: Option<(u32, u32)>) -> (g: Option<
    WindowGeometry,
>)
    ensures
        match (position, size) {
            (Some((x, y)), Some((width, height))) => g == Some(
                (WindowGeometry { x, y, width, height }),
            ),
            _ => g is None,
        },
{
    match (position, size) {
        (Some((x, y)), Some((width, height))) => Some(WindowGeometry { x, y, width, height }),
        _ => None,
    }
}

/// The path of the file that holds the geometry.
pub fn state_file(platform: Platform, env: &HostEnv) -> (path: Option<String>)
    ensures
        text::opt_text(path) == config::config_file(platform, *env, "window-state.json"@),
{
    config::app_config_file(platform, env, "window-state.json")
}

/// A window that lies on a monitor with its whole area is visible.
pub proof fn law_window_inside_a_monitor_is_visible(
    g: WindowGeometry,
    monitors: Seq<(i32, i32, u32, u32)>,
    i: int,
)
    requires
        0 <= i < monitors.len(),
        0 < g.width,
        0 < g.height,
        monitors[i].0 <= g.x,
        g.x + g.width <= monitors[i].0 + monitors[i].2,
        monitors[i].1 <= g.y,
        g.y + g.height <= monitors[i].1 + monitors[i].3,
    ensures
        is_visible(g, monitors),
{
    assert(is_centered_on(g, monitors[i]));
}

/// A further monitor hides no window: what is visible on some monitors is visible on all.
pub proof fn law_more_monitors_keep_a_window_visible(
    g: WindowGeometry,
    some: Seq<(i32, i32, u32, u32)>,
    all: Seq<(i32, i32, u32, u32)>,
)
    requires
        is_visible(g, some),
        forall|i: int| 0 <= i < some.len() ==> all.contains(#[trigger] some[i]),
    ensures
        is_visible(g, all),
{
    let i = choose|i: int| 0 <= i < some.len() && is_centered_on(g, #[trigger] some[i]);
    assert(all.contains(some[i]));
    let k = choose|k: int| 0 <= k < all.len() && all[k] == some[i];
    assert(is_centered_on(g, all[k]));
}

/// A window is visible exactly where its centre lies on a monitor: not left of it or above it, and
/// short of its right and lower edge.
pub proof fn law_visible_window_has_its_centre_on_a_monitor(
    g: WindowGeometry,
    monitors: Seq<(i32, i32, u32, u32)>,
)
    ensures
        is_visible(g, monitors) <==> exists|i: int|
            0 <= i < monitors.len() && (#[trigger] monitors[i]).0 <= g.x + g.width as int / 2
                < monitors[i].0 + monitors[i].2 && monitors[i].1 <= g.y + g.height as int / 2
                < monitors[i].1 + monitors[i].3,
{
}

/// A window that lies beside all monitors with its whole area is not visible.
pub proof fn law_window_beside_all_monitors_is_not_visible(
    g: WindowGeometry,
    monitors: Seq<(i32, i32, u32, u32)>,
)
    requires
        forall|i: int|
            0 <= i < monitors.len() ==> (g.x >= (#[trigger] monitors[i]).0 + monitors[i].2 || g.x
                + g.width < monitors[i].0 || g.y >= monitors[i].1 + monitors[i].3 || g.y + g.height
                < monitors[i].1),
    ensures
        !is_visible(g, monitors),
{
}

} // verus!
