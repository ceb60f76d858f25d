//! The selection overlay: the frozen screenshot's coordinates, what the
//! renderer is told to draw, and how mouse and keyboard change the selection.

use crate::geometry::Rect;
use crate::selection::{
    calc_selection_rect, find_window_index, first_hit, is_valid_selection, lemma_first_hit,
    spec_is_valid_selection, spec_selection_rect, SelectionMode, WindowInfo,
};
use crate::text::{decimal, push_decimal};
use vstd::prelude::*;
use vstd::string::*;

verus! {

/// Why the overlay gave no selection. Errors of the platform are carried as
/// their text.
#[derive(Debug, Clone)]
pub enum OverlayError {
    Windows(String),
    Screenshot(String),
    Cancelled,
    NoSelection,
}

impl OverlayError {
    /// The message of an error.
    pub open spec fn spec_message(&self) -> Seq<char> {
        match self {
            OverlayError::Windows(e) => "Windows API error: "@ + e@,
            OverlayError::Screenshot(e) => "Screenshot failed: "@ + e@,
            OverlayError::Cancelled => "Selection cancelled"@,
            OverlayError::NoSelection => "No selection made"@,
        }
    }

    /// The message of the error.
    pub fn message(&self) -> (s: String)
        ensures
            s@ == self.spec_message(),
    {
        match self {
            OverlayError::Windows(e) => String::from_str("Windows API error: ").concat(e.as_str()),
            OverlayError::Screenshot(e) => String::from_str("Screenshot failed: ").concat(
                e.as_str(),
            ),
            OverlayError::Cancelled => String::from_str("Selection cancelled"),
            OverlayError::NoSelection => String::from_str("No selection made"),
        }
    }
}

/// Selection outcome.
#[derive(Debug, Clone, Copy, PartialEq, Eq, Structural)]
pub enum SelectionOutcome {
    /// The user selected a region.
    Region(Rect),
    /// The user selected a window.
    Window { hwnd: isize, rect: Rect },
    /// The user cancelled.
    Cancelled,
}

/// A screenshot of the virtual desktop, and where its top-left pixel lies on
/// the screen.
#[derive(Debug, Clone)]
pub struct Screenshot {
    pub data: Vec<u8>,
    pub width: u32,
    pub height: u32,
    pub virtual_left: i32,
    pub virtual_top: i32,
}

/// Whether an integer is a coordinate.
pub open spec fn is_coordinate(v: int) -> bool {
    i32::MIN <= v <= i32::MAX
}

impl Screenshot {
    /// Screen coordinates to screenshot coordinates.
    pub fn screen_to_local(&self, x: i32, y: i32) -> (r: (i32, i32))
        requires
            is_coordinate(x - self.virtual_left),
            is_coordinate(y - self.virtual_top),
        ensures
            r.0 == x - self.virtual_left,
            r.1 == y - self.virtual_top,
    {
        (x - self.virtual_left, y - self.virtual_top)
    }

    /// Screenshot coordinates to screen coordinates.
    pub fn local_to_screen(&self, x: i32, y: i32) -> (r: (i32, i32))
        requires
            is_coordinate(x + self.virtual_left),
            is_coordinate(y + self.virtual_top),
        ensures
            r.0 == x + self.virtual_left,
            r.1 == y + self.virtual_top,
    {
        (x + self.virtual_left, y + self.virtual_top)
    }
}

/// What the overlay draws: the screenshot, the selection, the window under
/// the cursor, and whether a drag is under way.
pub struct OverlayRenderer {
    screenshot: Screenshot,
    selection_rect: Option<Rect>,
    hover_rect: Option<Rect>,
    is_dragging: bool,
}

impl OverlayRenderer {
    pub closed spec fn spec_screenshot(&self) -> Screenshot {
        self.screenshot
    }

    pub closed spec fn spec_selection(&self) -> Option<Rect> {
        self.selection_rect
    }

    pub closed spec fn spec_hover(&self) -> Option<Rect> {
        self.hover_rect
    }

    pub closed spec fn spec_dragging(&self) -> bool {
        self.is_dragging
    }

    /// The renderer shows the same screenshot as `before`, with the given
    /// selection, hover rectangle and drag state.
    pub open spec fn shows(
        &self,
        before: &OverlayRenderer,
        selection: Option<Rect>,
        hover: Option<Rect>,
        dragging: bool,
    ) -> bool {
        &&& self.spec_screenshot() == before.spec_screenshot()
        &&& self.spec_selection() == selection
        &&& self.spec_hover() == hover
        &&& self.spec_dragging() == dragging
    }

    /// Whether the window under the cursor is outlined: only while no drag
    /// is under way.
    pub open spec fn spec_highlight(&self) -> Option<Rect> {
        if self.spec_dragging() {
            None
        } else {
            self.spec_hover()
        }
    }

    /// A renderer for a screenshot, with nothing selected.
    pub fn new(screenshot: Screenshot) -> (r: OverlayRenderer)
        ensures
            r.spec_screenshot() == screenshot,
            r.spec_selection().is_none(),
            r.spec_hover().is_none(),
            !r.spec_dragging(),
    {
        OverlayRenderer { screenshot, selection_rect: None, hover_rect: None, is_dragging: false }
    }

    /// Sets the selection rectangle.
    pub fn set_selection(&mut self, rect: Option<Rect>)
        ensures
            final(self).shows(old(self), rect, old(self).spec_hover(), old(self).spec_dragging()),
    {
        self.selection_rect = rect;
    }

    /// Sets the rectangle of the window under the cursor.
    pub fn set_hover(&mut self, rect: Option<Rect>)
        ensures
            final(self).shows(
                old(self),
                old(self).spec_selection(),
                rect,
                old(self).spec_dragging(),
            ),
    {
        self.hover_rect = rect;
    }

    /// Sets whether a drag is under way.
    pub fn set_dragging(&mut self, dragging: bool)
        ensures
            final(self).shows(old(self), old(self).spec_selection(), old(self).spec_hover(), dragging),
    {
        self.is_dragging = dragging;
    }

    /// The screenshot.
    pub fn screenshot(&self) -> (s: &Screenshot)
        ensures
            *s == self.spec_screenshot(),
    {
        &self.screenshot
    }

    /// The selection rectangle.
    pub fn selection(&self) -> (r: Option<Rect>)
        ensures
            r == self.spec_selection(),
    {
        self.selection_rect
    }

    /// The rectangle of the window to outline, if one is outlined.
    pub fn highlight(&self) -> (r: Option<Rect>)
        ensures
            r == self.spec_highlight(),
    {
        if self.is_dragging {
            None
        } else {
            self.hover_rect
        }
    }

    /// Whether a drag is under way.
    pub fn is_dragging(&self) -> (r: bool)
        ensures
            r == self.spec_dragging(),
    {
        self.is_dragging
    }

    /// The corners of a screen rectangle in the overlay's window: left, top,
    /// right, bottom. None where a corner is no coordinate of the window.
    pub fn local_outline(&self, rect: &Rect) -> (r: Option<(i32, i32, i32, i32)>)
        ensures
            r == spec_local_outline(self.spec_screenshot(), *rect),
    {
        let left: i64 = rect.x as i64 - self.screenshot.virtual_left as i64;
        let top: i64 = rect.y as i64 - self.screenshot.virtual_top as i64;
        let right: i64 = left + rect.width as i64;
        let bottom: i64 = top + rect.height as i64;
        if left < i32::MIN as i64 || top < i32::MIN as i64 || right > i32::MAX as i64 || bottom
            > i32::MAX as i64 {
            None
        } else {
            Some((left as i32, top as i32, right as i32, bottom as i32))
        }
    }

    /// The label under the selection: its width and height in pixels.
    pub fn size_text(rect: &Rect) -> (s: String)
        ensures
            s@ == spec_size_text(*rect),
    {
        let mut s = String::new();
        push_decimal(&mut s, rect.width as u64);
        s.append(" × ");
        push_decimal(&mut s, rect.height as u64);
        s.append(" px");
        proof {
            assert(Seq::<char>::empty() + decimal(rect.width as nat) =~= decimal(
                rect.width as nat,
            ));
        }
        s
    }

    /// The instructions in the bar at the bottom of the overlay.
    pub fn info_text(&self) -> (s: &'static str)
        ensures
            s@ == spec_info_text(self.spec_dragging()),
    {
        if self.is_dragging {
            "拖动选择区域 | 松开确认"
        } else {
            "拖动框选区域 | 点击选择窗口 | Enter 确认 | Esc 取消"
        }
    }
}

/// The corners of a screen rectangle in the window of a screenshot, where all
/// four are coordinates.
pub open spec fn spec_local_outline(shot: Screenshot, rect: Rect) -> Option<(i32, i32, i32, i32)> {
    let left = rect.x - shot.virtual_left;
    let top = rect.y - shot.virtual_top;
    let right = left + rect.width;
    let bottom = top + rect.height;
    if is_coordinate(left) && is_coordinate(top) && is_coordinate(right) && is_coordinate(bottom) {
        Some((left as i32, top as i32, right as i32, bottom as i32))
    } else {
        None
    }
}

/// The label under a selection.
pub open spec fn spec_size_text(rect: Rect) -> Seq<char> {
    decimal(rect.width as nat) + " × "@ + decimal(rect.height as nat) + " px"@
}

/// The instructions in the bar at the bottom of the overlay.
pub open spec fn spec_info_text(dragging: bool) -> Seq<char> {
    if dragging {
        "拖动选择区域 | 松开确认"@
    } else {
        "拖动框选区域 | 点击选择窗口 | Enter 确认 | Esc 取消"@
    }
}

/// The window that a click picked: its handle and its rectangle.
#[derive(Debug, Clone, Copy, PartialEq, Eq, Structural)]
pub struct PickedWindow {
    pub hwnd: isize,
    pub rect: Rect,
}

/// The state of the overlay while the user selects.
pub struct OverlayState {
    pub renderer: Option<OverlayRenderer>,
    pub windows: Vec<WindowInfo>,
    pub selection: Option<Rect>,
    pub drag_start: Option<(i32, i32)>,
    pub is_dragging: bool,
    pub mode: SelectionMode,
    pub result: Option<SelectionOutcome>,
    pub selected_window: Option<PickedWindow>,
}

/// The escape key.
pub const VK_ESCAPE: usize = 0x1B;

/// The return key.
pub const VK_RETURN: usize = 0x0D;

/// How far the cursor has to move, on either axis, for a drag to begin.
pub const DRAG_THRESHOLD: i64 = 4;

/// The sixteen bits of a message word from bit `shift` on, read as a signed
/// number.
pub open spec fn signed_word(word: u64, shift: u64) -> int {
    let low = (word >> shift) & 0xFFFF;
    if low >= 0x8000 {
        low - 0x1_0000
    } else {
        low as int
    }
}

impl OverlayState {
    /// The screen coordinates of a point of the overlay's window.
    pub open spec fn spec_to_screen(&self, x: i32, y: i32) -> (int, int) {
        match self.renderer {
            Some(r) => (x + r.spec_screenshot().virtual_left, y + r.spec_screenshot().virtual_top),
            None => (x as int, y as int),
        }
    }

    /// The point of the overlay's window has screen coordinates.
    pub open spec fn on_screen(&self, x: i32, y: i32) -> bool {
        is_coordinate(self.spec_to_screen(x, y).0) && is_coordinate(self.spec_to_screen(x, y).1)
    }

    /// The renderer shows the screenshot it showed in `before`, with the
    /// given selection, hover rectangle and drag state; without a renderer
    /// there is still none.
    pub open spec fn renders(
        &self,
        before: &OverlayState,
        selection: Option<Rect>,
        hover: Option<Rect>,
        dragging: bool,
    ) -> bool {
        match before.renderer {
            Some(b) => self.renderer.is_some() && self.renderer.unwrap().shows(
                &b,
                selection,
                hover,
                dragging,
            ),
            None => self.renderer.is_none(),
        }
    }

    /// The selection that the renderer of `before` showed.
    pub open spec fn shown_selection(before: &OverlayState) -> Option<Rect> {
        match before.renderer {
            Some(b) => b.spec_selection(),
            None => None,
        }
    }

    /// The hover rectangle that the renderer of `before` showed.
    pub open spec fn shown_hover(before: &OverlayState) -> Option<Rect> {
        match before.renderer {
            Some(b) => b.spec_hover(),
            None => None,
        }
    }

    /// The drag state that the renderer of `before` showed.
    pub open spec fn shown_dragging(before: &OverlayState) -> bool {
        match before.renderer {
            Some(b) => b.spec_dragging(),
            None => false,
        }
    }

    /// The window under a screen point, as the picker keeps it.
    pub open spec fn spec_window_at(&self, x: int, y: int) -> Option<PickedWindow> {
        match first_hit(self.windows@, x, y) {
            Some(i) => Some(PickedWindow { hwnd: self.windows@[i].hwnd, rect: self.windows@[i].rect }),
            None => None,
        }
    }

    /// Whether a move to a screen point begins a drag: a button is down and
    /// the point is at least the threshold away from where it went down, on
    /// either axis.
    pub open spec fn begins_drag(&self, x: int, y: int) -> bool {
        match self.drag_start {
            Some(s) => x - s.0 >= DRAG_THRESHOLD || s.0 - x >= DRAG_THRESHOLD || y - s.1
                >= DRAG_THRESHOLD || s.1 - y >= DRAG_THRESHOLD,
            None => false,
        }
    }

    /// What the return key gives for the state: nothing without a selection;
    /// the picked window in window mode; the selection as a region otherwise.
    pub open spec fn spec_confirmed(&self) -> Option<SelectionOutcome> {
        match self.selection {
            Some(rect) => Some(
                match (self.mode, self.selected_window) {
                    (SelectionMode::Window, Some(w)) => SelectionOutcome::Window {
                        hwnd: w.hwnd,
                        rect: w.rect,
                    },
                    _ => SelectionOutcome::Region(rect),
                },
            ),
            None => None,
        }
    }

    /// An overlay without a screenshot, windows or selection, in region mode.
    pub fn new() -> (s: OverlayState)
        ensures
            s.renderer.is_none(),
            s.windows@.len() == 0,
            s.selection.is_none(),
            s.drag_start.is_none(),
            !s.is_dragging,
            s.mode == SelectionMode::Region,
            s.result.is_none(),
            s.selected_window.is_none(),
    {
        OverlayState {
            renderer: None,
            windows: Vec::new(),
            selection: None,
            drag_start: None,
            is_dragging: false,
            mode: SelectionMode::Region,
            result: None,
            selected_window: None,
        }
    }

    /// The screen coordinates of a point of the overlay's window.
    pub fn to_screen(&self, x: i32, y: i32) -> (r: (i32, i32))
        requires
            self.on_screen(x, y),
        ensures
            (r.0 as int, r.1 as int) == self.spec_to_screen(x, y),
    {
        match &self.renderer {
            Some(renderer) => renderer.screenshot().local_to_screen(x, y),
            None => (x, y),
        }
    }

    /// The window under a screen point.
    pub fn window_at(&self, x: i32, y: i32) -> (r: Option<PickedWindow>)
        ensures
            r == self.spec_window_at(x as int, y as int),
    {
        proof {
            lemma_first_hit(self.windows@, x as int, y as int, 0);
        }
        match find_window_index(&self.windows, x, y) {
            Some(i) => Some(PickedWindow { hwnd: self.windows[i].hwnd, rect: self.windows[i].rect }),
            None => None,
        }
    }
}

/// The overlay window's message handling. The caller owns the window and
/// hands each message's values in.
pub struct OverlayWindow;

impl OverlayWindow {
    /// The cursor position that a mouse message carries: the low sixteen bits
    /// are the column, the next sixteen the row, both signed.
    pub fn cursor_position(lparam: u64) -> (r: (i32, i32))
        ensures
            r.0 == signed_word(lparam, 0),
            r.1 == signed_word(lparam, 16),
    {
        let low: u64 = (lparam >> 0) & 0xFFFF;
        let high: u64 = (lparam >> 16) & 0xFFFF;
        assert(low <= 0xFFFF) by (bit_vector)
            requires
                low == (lparam >> 0) & 0xFFFF,
        ;
        assert(high <= 0xFFFF) by (bit_vector)
            requires
                high == (lparam >> 16) & 0xFFFF,
        ;
        let x: i32 = if low >= 0x8000 { low as i32 - 0x1_0000 } else { low as i32 };
        let y: i32 = if high >= 0x8000 { high as i32 - 0x1_0000 } else { high as i32 };
        (x, y)
    }

    /// The left button goes down: a drag may begin here. Nothing is dragged
    /// yet, and the mode is region.
    pub fn handle_mouse_down(state: &mut OverlayState, x: i32, y: i32)
        requires
            old(state).on_screen(x, y),
        ensures
            final(state).drag_start.is_some(),
            (final(state).drag_start.unwrap().0 as int, final(state).drag_start.unwrap().1 as int)
                == old(state).spec_to_screen(x, y),
            !final(state).is_dragging,
            final(state).mode == SelectionMode::Region,
            final(state).renders(
                old(state),
                OverlayState::shown_selection(old(state)),
                OverlayState::shown_hover(old(state)),
                false,
            ),
            final(state).windows == old(state).windows,
            final(state).selection == old(state).selection,
            final(state).result == old(state).result,
            final(state).selected_window == old(state).selected_window,
    {
        let screen = state.to_screen(x, y);
        state.drag_start = Some(screen);
        state.is_dragging = false;
        state.mode = SelectionMode::Region;
        match &mut state.renderer {
            Some(renderer) => {
                renderer.set_dragging(false);
            },
            None => {},
        }
    }

    /// The cursor moves. A move of at least the threshold away from where the
    /// button went down begins a drag. While a drag is under way the
    /// selection is the rectangle from there to the cursor and no window is
    /// outlined; else the window under the cursor is noted and outlined.
    pub fn handle_mouse_move(state: &mut OverlayState, x: i32, y: i32)
        requires
            old(state).on_screen(x, y),
        ensures
            final(state).windows == old(state).windows,
            final(state).drag_start == old(state).drag_start,
            final(state).mode == old(state).mode,
            final(state).result == old(state).result,
            ({
                let p = old(state).spec_to_screen(x, y);
                let dragging = old(state).is_dragging || old(state).begins_drag(p.0, p.1);
                let shown_dragging = if dragging && !old(state).is_dragging {
                    true
                } else {
                    OverlayState::shown_dragging(old(state))
                };
                &&& final(state).is_dragging == dragging
                &&& dragging && old(state).drag_start.is_some() ==> {
                    let s = old(state).drag_start.unwrap();
                    let rect = spec_selection_rect(s.0, s.1, p.0 as i32, p.1 as i32);
                    &&& final(state).selection == Some(rect)
                    &&& final(state).selected_window == old(state).selected_window
                    &&& final(state).renders(old(state), Some(rect), None, shown_dragging)
                }
                &&& dragging && old(state).drag_start.is_none() ==> {
                    &&& final(state).selection == old(state).selection
                    &&& final(state).selected_window == old(state).selected_window
                    &&& final(state).renders(
                        old(state),
                        OverlayState::shown_selection(old(state)),
                        OverlayState::shown_hover(old(state)),
                        shown_dragging,
                    )
                }
                &&& !dragging ==> {
                    let hit = old(state).spec_window_at(p.0, p.1);
                    &&& final(state).selection == old(state).selection
                    &&& final(state).selected_window == hit
                    &&& final(state).renders(
                        old(state),
                        OverlayState::shown_selection(old(state)),
                        match hit {
                            Some(w) => Some(w.rect),
                            None => None,
                        },
                        shown_dragging,
                    )
                }
            }),
    {
        let screen = state.to_screen(x, y);
        match state.drag_start {
            Some(start) => {
                if !state.is_dragging {
                    let dx: i64 = screen.0 as i64 - start.0 as i64;
                    let dy: i64 = screen.1 as i64 - start.1 as i64;
                    if dx >= DRAG_THRESHOLD || -dx >= DRAG_THRESHOLD || dy >= DRAG_THRESHOLD || -dy
                        >= DRAG_THRESHOLD {
                        state.is_dragging = true;
                        match &mut state.renderer {
                            Some(renderer) => {
                                renderer.set_dragging(true);
                            },
                            None => {},
                        }
                    }
                }
            },
            None => {},
        }
        if state.is_dragging {
            match state.drag_start {
                Some(start) => {
                    let rect = calc_selection_rect(start.0, start.1, screen.0, screen.1);
                    state.selection = Some(rect);
                    match &mut state.renderer {
                        Some(renderer) => {
                            renderer.set_selection(Some(rect));
                            renderer.set_hover(None);
                        },
                        None => {},
                    }
                },
                None => {},
            }
        } else {
            let hit = state.window_at(screen.0, screen.1);
            state.selected_window = hit;
            let hover: Option<Rect> = match hit {
                Some(w) => Some(w.rect),
                None => None,
            };
            match &mut state.renderer {
                Some(renderer) => {
                    renderer.set_hover(hover);
                },
                None => {},
            }
        }
    }

    /// The left button goes up. Without a drag this is a click: the window
    /// under the cursor, if there is one, becomes the selection, in window
    /// mode. After a drag the selection stays if it is large enough and is
    /// dropped if it is not, in region mode. Either way no button is down.
    pub fn handle_mouse_up(state: &mut OverlayState, x: i32, y: i32)
        requires
            old(state).on_screen(x, y),
        ensures
            final(state).windows == old(state).windows,
            final(state).drag_start.is_none(),
            final(state).result == old(state).result,
            !final(state).is_dragging,
            !old(state).is_dragging ==> {
                let p = old(state).spec_to_screen(x, y);
                match old(state).spec_window_at(p.0, p.1) {
                    Some(w) => {
                        &&& final(state).selection == Some(w.rect)
                        &&& final(state).selected_window == Some(w)
                        &&& final(state).mode == SelectionMode::Window
                        &&& final(state).renders(
                            old(state),
                            Some(w.rect),
                            OverlayState::shown_hover(old(state)),
                            OverlayState::shown_dragging(old(state)),
                        )
                    },
                    None => {
                        &&& final(state).selection == old(state).selection
                        &&& final(state).selected_window == old(state).selected_window
                        &&& final(state).mode == old(state).mode
                        &&& final(state).renders(
                            old(state),
                            OverlayState::shown_selection(old(state)),
                            OverlayState::shown_hover(old(state)),
                            OverlayState::shown_dragging(old(state)),
                        )
                    },
                }
            },
            old(state).is_dragging ==> {
                let dropped = old(state).selection.is_some() && !spec_is_valid_selection(
                    &old(state).selection.unwrap(),
                );
                &&& final(state).mode == SelectionMode::Region
                &&& final(state).selected_window == old(state).selected_window
                &&& final(state).selection == if dropped {
                    None
                } else {
                    old(state).selection
                }
                &&& final(state).renders(
                    old(state),
                    if dropped {
                        None
                    } else {
                        OverlayState::shown_selection(old(state))
                    },
                    OverlayState::shown_hover(old(state)),
                    false,
                )
            },
    {
        if !state.is_dragging {
            let screen = state.to_screen(x, y);
            match state.window_at(screen.0, screen.1) {
                Some(w) => {
                    state.selection = Some(w.rect);
                    state.selected_window = Some(w);
                    state.mode = SelectionMode::Window;
                    match &mut state.renderer {
                        Some(renderer) => {
                            renderer.set_selection(Some(w.rect));
                        },
                        None => {},
                    }
                },
                None => {},
            }
        } else {
            state.is_dragging = false;
            state.mode = SelectionMode::Region;
            match &mut state.renderer {
                Some(renderer) => {
                    renderer.set_dragging(false);
                },
                None => {},
            }
            match state.selection {
                Some(rect) => {
                    if !is_valid_selection(&rect) {
                        state.selection = None;
                        match &mut state.renderer {
                            Some(renderer) => {
                                renderer.set_selection(None);
                            },
                            None => {},
                        }
                    }
                },
                None => {},
            }
        }
        state.drag_start = None;
    }

    /// A key goes down. Escape cancels. Return confirms the selection, if
    /// there is one. The result tells whether the overlay's window closes.
    pub fn handle_key_down(state: &mut OverlayState, key: usize) -> (close: bool)
        ensures
            final(state).renderer == old(state).renderer,
            final(state).windows == old(state).windows,
            final(state).selection == old(state).selection,
            final(state).drag_start == old(state).drag_start,
            final(state).is_dragging == old(state).is_dragging,
            final(state).mode == old(state).mode,
            final(state).selected_window == old(state).selected_window,
            key == VK_ESCAPE ==> close && final(state).result == Some(SelectionOutcome::Cancelled),
            key == VK_RETURN ==> close == old(state).selection.is_some() && final(state).result
                == if close {
                old(state).spec_confirmed()
            } else {
                old(state).result
            },
            key != VK_ESCAPE && key != VK_RETURN ==> !close && final(state).result == old(state).result,
    {
        if key == VK_ESCAPE {
            state.result = Some(SelectionOutcome::Cancelled);
            true
        } else if key == VK_RETURN {
            match state.selection {
                Some(rect) => {
                    let outcome = match state.mode {
                        SelectionMode::Region => SelectionOutcome::Region(rect),
                        SelectionMode::Window => match state.selected_window {
                            Some(w) => SelectionOutcome::Window { hwnd: w.hwnd, rect: w.rect },
                            None => SelectionOutcome::Region(rect),
                        },
                    };
                    state.result = Some(outcome);
                    true
                },
                None => false,
            }
        } else {
            false
        }
    }

    /// The window is asked to close: without an outcome so far, the
    /// selection counts as cancelled.
    pub fn handle_close(state: &mut OverlayState)
        ensures
            final(state).result == match old(state).result {
                Some(r) => Some(r),
                None => Some(SelectionOutcome::Cancelled),
            },
            final(state).renderer == old(state).renderer,
            final(state).windows == old(state).windows,
            final(state).selection == old(state).selection,
            final(state).drag_start == old(state).drag_start,
            final(state).is_dragging == old(state).is_dragging,
            final(state).mode == old(state).mode,
            final(state).selected_window == old(state).selected_window,
    {
        if state.result.is_none() {
            state.result = Some(SelectionOutcome::Cancelled);
        }
    }

    /// What the overlay returns once its message loop has ended: the outcome,
    /// or that the selection was cancelled where there is none.
    pub fn show(state: &OverlayState) -> (r: Result<SelectionOutcome, OverlayError>)
        ensures
            match state.result {
                Some(outcome) => r == Ok::<SelectionOutcome, OverlayError>(outcome),
                None => r is Err && r->Err_0 is Cancelled,
            },
    {
        match state.result {
            Some(outcome) => Ok(outcome),
            None => Err(OverlayError::Cancelled),
        }
    }
}

} // verus!
