//! The picker's rules: which windows can be picked, which window lies under
//! a point, and the rectangle that a drag spans.

use crate::geometry::Rect;
use vstd::prelude::*;

verus! {

/// Selection mode.
#[derive(Debug, Clone, Copy, PartialEq, Eq, Structural)]
pub enum SelectionMode {
    Region,
    Window,
}

/// Selection result.
#[derive(Debug, Clone, Copy, PartialEq, Eq, Structural)]
pub struct SelectionResult {
    pub mode: SelectionMode,
    pub rect: Rect,
    pub hwnd: Option<isize>,
}

/// A window that can be picked.
#[derive(Debug, Clone)]
pub struct WindowInfo {
    pub hwnd: isize,
    pub rect: Rect,
    pub class_name: String,
    pub z_order: usize,
}

impl WindowInfo {
    /// Whether the point lies inside the window.
    pub fn contains(&self, x: i32, y: i32) -> (r: bool)
        ensures
            r == self.rect.spec_contains(x as int, y as int),
    {
        self.rect.contains(x, y)
    }
}

/// The style bit of a disabled window.
pub const WS_DISABLED: u32 = 0x0800_0000;

/// The extended style bit of a tool window.
pub const WS_EX_TOOLWINDOW: u32 = 0x0000_0080;

/// A window has to be wider and higher than this to be offered.
pub const MIN_WINDOW_EXTENT: i64 = 50;

/// The four edges of a window, as the platform reports them.
#[derive(Debug, Clone, Copy, PartialEq, Eq, Structural)]
pub struct Edges {
    pub left: i32,
    pub top: i32,
    pub right: i32,
    pub bottom: i32,
}

/// What the platform tells about a window, as far as the picker asks.
#[derive(Debug, Clone, Copy, PartialEq, Eq, Structural)]
pub struct WindowTraits {
    pub visible: bool,
    pub style: u32,
    pub ex_style: u32,
    /// The cloaking attribute, where the platform could tell it.
    pub cloaked: Option<u32>,
    /// Whether another window owns this one.
    pub owned: bool,
    /// Whether the window is its own root.
    pub is_root: bool,
    /// The window's edges; none where the platform could not tell them.
    pub edges: Option<Edges>,
}

/// Whether a window is offered by the picker: visible, not disabled, no tool
/// window, not cloaked, not owned, a root window, and more than fifty pixels
/// wide and high.
pub open spec fn spec_should_include_window(t: WindowTraits) -> bool {
    &&& t.visible
    &&& t.style & WS_DISABLED == 0
    &&& t.ex_style & WS_EX_TOOLWINDOW == 0
    &&& (t.cloaked matches Some(c) ==> c == 0)
    &&& !t.owned
    &&& t.is_root
    &&& t.edges matches Some(e) && e.right - e.left > MIN_WINDOW_EXTENT && e.bottom - e.top
        > MIN_WINDOW_EXTENT
}

/// Whether a window is offered by the picker.
pub fn should_include_window(t: &WindowTraits) -> (r: bool)
    ensures
        r == spec_should_include_window(*t),
{
    if !t.visible {
        return false;
    }
    if t.style & WS_DISABLED != 0 {
        return false;
    }
    if t.ex_style & WS_EX_TOOLWINDOW != 0 {
        return false;
    }
    match t.cloaked {
        Some(c) => {
            if c != 0 {
                return false;
            }
        },
        None => {},
    }
    if t.owned {
        return false;
    }
    if !t.is_root {
        return false;
    }
    match t.edges {
        Some(e) => {
            let width: i64 = e.right as i64 - e.left as i64;
            let height: i64 = e.bottom as i64 - e.top as i64;
            width > MIN_WINDOW_EXTENT && height > MIN_WINDOW_EXTENT
        },
        None => false,
    }
}

/// The distance from `low` to `high` as an extent; none if `high` lies before.
pub open spec fn span(low: int, high: int) -> u32 {
    if high >= low {
        (high - low) as u32
    } else {
        0u32
    }
}

/// The rectangle between four edges. Edges in the wrong order give no extent.
pub fn rect_from_edges(left: i32, top: i32, right: i32, bottom: i32) -> (r: Rect)
    ensures
        r == (Rect {
            x: left,
            y: top,
            width: span(left as int, right as int),
            height: span(top as int, bottom as int),
        }),
{
    let width: i64 = if right >= left { right as i64 - left as i64 } else { 0 };
    let height: i64 = if bottom >= top { bottom as i64 - top as i64 } else { 0 };
    Rect { x: left, y: top, width: width as u32, height: height as u32 }
}

/// The record of a window that the picker keeps, from what the platform told.
pub fn get_window_info(
    hwnd: isize,
    edges: Edges,
    class_name: String,
    z_order: usize,
) -> (w: WindowInfo)
    ensures
        w.hwnd == hwnd,
        w.rect == (Rect {
            x: edges.left,
            y: edges.top,
            width: span(edges.left as int, edges.right as int),
            height: span(edges.top as int, edges.bottom as int),
        }),
        w.class_name@ == class_name@,
        w.z_order == z_order,
{
    let rect = rect_from_edges(edges.left, edges.top, edges.right, edges.bottom);
    WindowInfo { hwnd, rect, class_name, z_order }
}

/// The place of the first window, from `from` on, that contains the point;
/// the number of windows if none does.
pub open spec fn first_hit_from(windows: Seq<WindowInfo>, x: int, y: int, from: int) -> int
    decreases windows.len() - from,
{
    if from < 0 || from >= windows.len() {
        windows.len() as int
    } else if windows[from].rect.spec_contains(x, y) {
        from
    } else {
        first_hit_from(windows, x, y, from + 1)
    }
}

/// The place of the topmost window that contains the point, if any does.
/// The windows are in order from the top down.
pub open spec fn first_hit(windows: Seq<WindowInfo>, x: int, y: int) -> Option<int> {
    let i = first_hit_from(windows, x, y, 0);
    if i < windows.len() {
        Some(i)
    } else {
        None
    }
}

/// The first hit contains the point, and no window before it does; without
/// a hit no window contains the point.
pub proof fn lemma_first_hit(windows: Seq<WindowInfo>, x: int, y: int, from: int)
    requires
        0 <= from <= windows.len(),
    ensures
        from <= first_hit_from(windows, x, y, from) <= windows.len(),
        first_hit_from(windows, x, y, from) < windows.len() ==> windows[first_hit_from(
            windows,
            x,
            y,
            from,
        )].rect.spec_contains(x, y),
        forall|k: int|
            from <= k < first_hit_from(windows, x, y, from) ==> !(#[trigger] windows[k]).rect.spec_contains(
                x,
                y,
            ),
    decreases windows.len() - from,
{
    if from < windows.len() && !windows[from].rect.spec_contains(x, y) {
        lemma_first_hit(windows, x, y, from + 1);
    }
}

/// The place of the topmost window under a point, if there is one.
pub fn find_window_index(windows: &Vec<WindowInfo>, screen_x: i32, screen_y: i32) -> (r: Option<
    usize,
>)
    ensures
        match first_hit(windows@, screen_x as int, screen_y as int) {
            Some(i) => r.is_some() && r.unwrap() == i,
            None => r.is_none(),
        },
{
    let mut i: usize = 0;
    while i < windows.len()
        invariant
            i <= windows.len(),
            first_hit_from(windows@, screen_x as int, screen_y as int, 0) == first_hit_from(
                windows@,
                screen_x as int,
                screen_y as int,
                i as int,
            ),
        decreases windows.len() - i,
    {
        if windows[i].contains(screen_x, screen_y) {
            return Some(i);
        }
        i = i + 1;
    }
    None
}

/// The topmost window under a point, if there is one.
pub fn find_window_at(windows: &Vec<WindowInfo>, screen_x: i32, screen_y: i32) -> (r: Option<
    &WindowInfo,
>)
    ensures
        match first_hit(windows@, screen_x as int, screen_y as int) {
            Some(i) => r.is_some() && *r.unwrap() == windows@[i],
            None => r.is_none(),
        },
{
    proof {
        lemma_first_hit(windows@, screen_x as int, screen_y as int, 0);
    }
    match find_window_index(windows, screen_x, screen_y) {
        Some(i) => {
            let w: &WindowInfo = &windows[i];
            Some(w)
        },
        None => None,
    }
}

/// The rectangle that a drag between two points spans.
pub open spec fn spec_selection_rect(start_x: i32, start_y: i32, end_x: i32, end_y: i32) -> Rect {
    Rect {
        x: if start_x <= end_x { start_x } else { end_x },
        y: if start_y <= end_y { start_y } else { end_y },
        width: if start_x <= end_x { (end_x - start_x) as u32 } else { (start_x - end_x) as u32 },
        height: if start_y <= end_y { (end_y - start_y) as u32 } else { (start_y - end_y) as u32 },
    }
}

/// The rectangle that a drag between two points spans: its origin is the
/// lesser coordinate on each axis, its extent the distance.
pub fn calc_selection_rect(start_x: i32, start_y: i32, end_x: i32, end_y: i32) -> (r: Rect)
    ensures
        r == spec_selection_rect(start_x, start_y, end_x, end_y),
{
    let x: i32 = if start_x <= end_x { start_x } else { end_x };
    let y: i32 = if start_y <= end_y { start_y } else { end_y };
    let width: i64 = if start_x <= end_x {
        end_x as i64 - start_x as i64
    } else {
        start_x as i64 - end_x as i64
    };
    let height: i64 = if start_y <= end_y {
        end_y as i64 - start_y as i64
    } else {
        start_y as i64 - end_y as i64
    };
    Rect { x, y, width: width as u32, height: height as u32 }
}

/// The rectangle of a drag does not depend on the direction of the drag, and
/// both of the drag's end points lie on its closed outline.
pub proof fn lemma_selection_rect_symmetric(ax: i32, ay: i32, bx: i32, by: i32)
    ensures
        spec_selection_rect(ax, ay, bx, by) == spec_selection_rect(bx, by, ax, ay),
        spec_selection_rect(ax, ay, bx, by).x <= ax <= spec_selection_rect(ax, ay, bx, by).spec_right(),
        spec_selection_rect(ax, ay, bx, by).y <= ay <= spec_selection_rect(
            ax,
            ay,
            bx,
            by,
        ).spec_bottom(),
{
}

/// Minimum selection size.
pub const MIN_SELECTION_SIZE: u32 = 16;

/// Whether a selection is large enough on both axes.
pub open spec fn spec_is_valid_selection(rect: &Rect) -> bool {
    rect.width >= MIN_SELECTION_SIZE && rect.height >= MIN_SELECTION_SIZE
}

/// Whether a selection is large enough on both axes.
pub fn is_valid_selection(rect: &Rect) -> (r: bool)
    ensures
        r == spec_is_valid_selection(rect),
{
    rect.width >= MIN_SELECTION_SIZE && rect.height >= MIN_SELECTION_SIZE
}

} // verus!
