use tinycapture::geometry::Rect;
use tinycapture::overlay::{
    OverlayError, OverlayRenderer, OverlayState, OverlayWindow, PickedWindow, Screenshot,
    SelectionOutcome, VK_ESCAPE, VK_RETURN,
};
use tinycapture::selection::{SelectionMode, WindowInfo};

fn shot() -> Screenshot {
    Screenshot { data: Vec::new(), width: 3000, height: 2000, virtual_left: -1000, virtual_top: -500 }
}

fn overlay() -> OverlayState {
    let mut s = OverlayState::new();
    s.renderer = Some(OverlayRenderer::new(shot()));
    s.windows = vec![
        WindowInfo { hwnd: 11, rect: Rect::new(0, 0, 200, 200), class_name: "a".into(), z_order: 0 },
        WindowInfo { hwnd: 22, rect: Rect::new(100, 100, 400, 400), class_name: "b".into(), z_order: 1 },
    ];
    s
}

#[test]
fn coordinates_move_by_the_desktop_origin() {
    let s = shot();
    assert_eq!(s.screen_to_local(0, 0), (1000, 500));
    assert_eq!(s.local_to_screen(1000, 500), (0, 0));
    assert_eq!(s.local_to_screen(10, 20), (-990, -480));
    assert_eq!(s.screen_to_local(-990, -480), (10, 20));
}

#[test]
fn renderer_setters() {
    let mut r = OverlayRenderer::new(shot());
    assert_eq!(r.selection(), None);
    assert_eq!(r.highlight(), None);
    assert!(!r.is_dragging());
    assert_eq!(r.screenshot().width, 3000);
    r.set_hover(Some(Rect::new(1, 1, 2, 2)));
    assert_eq!(r.highlight(), Some(Rect::new(1, 1, 2, 2)));
    r.set_dragging(true);
    assert_eq!(r.highlight(), None);
    r.set_selection(Some(Rect::new(5, 5, 50, 50)));
    assert_eq!(r.selection(), Some(Rect::new(5, 5, 50, 50)));
    assert!(r.is_dragging());
    r.set_dragging(false);
    assert_eq!(r.highlight(), Some(Rect::new(1, 1, 2, 2)));
}

#[test]
fn new_overlay_is_empty() {
    let s = OverlayState::new();
    assert!(s.renderer.is_none());
    assert!(s.windows.is_empty());
    assert_eq!(s.selection, None);
    assert_eq!(s.drag_start, None);
    assert!(!s.is_dragging);
    assert_eq!(s.mode, SelectionMode::Region);
    assert_eq!(s.result, None);
    assert_eq!(s.selected_window, None);
    assert_eq!(s.to_screen(3, 4), (3, 4));
}

#[test]
fn cursor_position_is_signed() {
    assert_eq!(OverlayWindow::cursor_position(0x0014_000A), (10, 20));
    assert_eq!(OverlayWindow::cursor_position(0xFFFF_FFFF), (-1, -1));
    assert_eq!(OverlayWindow::cursor_position(0x8000_7FFF), (32767, -32768));
    assert_eq!(OverlayWindow::cursor_position(0xABCD_0000_0001_0002), (2, 1));
}

#[test]
fn drag_selects_a_region() {
    let mut s = overlay();
    OverlayWindow::handle_mouse_down(&mut s, 1500, 1000);
    assert_eq!(s.drag_start, Some((500, 500)));
    OverlayWindow::handle_mouse_move(&mut s, 1503, 1003);
    assert!(!s.is_dragging);
    assert_eq!(s.selection, None);
    OverlayWindow::handle_mouse_move(&mut s, 1504, 1000);
    assert!(s.is_dragging);
    assert_eq!(s.selection, Some(Rect::new(500, 500, 4, 0)));
    OverlayWindow::handle_mouse_move(&mut s, 1400, 1100);
    assert_eq!(s.selection, Some(Rect::new(400, 500, 100, 100)));
    let r = s.renderer.as_ref().unwrap();
    assert_eq!(r.selection(), Some(Rect::new(400, 500, 100, 100)));
    assert!(r.is_dragging());
    assert_eq!(r.highlight(), None);
    OverlayWindow::handle_mouse_up(&mut s, 1400, 1100);
    assert!(!s.is_dragging);
    assert_eq!(s.drag_start, None);
    assert_eq!(s.mode, SelectionMode::Region);
    assert_eq!(s.selection, Some(Rect::new(400, 500, 100, 100)));
    assert!(OverlayWindow::handle_key_down(&mut s, VK_RETURN));
    assert_eq!(s.result, Some(SelectionOutcome::Region(Rect::new(400, 500, 100, 100))));
    assert_eq!(OverlayWindow::show(&s).unwrap(), SelectionOutcome::Region(Rect::new(400, 500, 100, 100)));
}

#[test]
fn small_drag_is_dropped() {
    let mut s = overlay();
    OverlayWindow::handle_mouse_down(&mut s, 1500, 1000);
    OverlayWindow::handle_mouse_move(&mut s, 1510, 1010);
    assert_eq!(s.selection, Some(Rect::new(500, 500, 10, 10)));
    OverlayWindow::handle_mouse_up(&mut s, 1510, 1010);
    assert_eq!(s.selection, None);
    assert_eq!(s.renderer.as_ref().unwrap().selection(), None);
    assert!(!OverlayWindow::handle_key_down(&mut s, VK_RETURN));
    assert_eq!(s.result, None);
}

#[test]
fn hover_and_click_select_a_window() {
    let mut s = overlay();
    OverlayWindow::handle_mouse_move(&mut s, 1150, 650);
    assert_eq!(s.selected_window, Some(PickedWindow { hwnd: 11, rect: Rect::new(0, 0, 200, 200) }));
    assert_eq!(s.renderer.as_ref().unwrap().highlight(), Some(Rect::new(0, 0, 200, 200)));
    OverlayWindow::handle_mouse_move(&mut s, 1300, 800);
    assert_eq!(s.selected_window.unwrap().hwnd, 22);
    OverlayWindow::handle_mouse_move(&mut s, 10, 10);
    assert_eq!(s.selected_window, None);
    assert_eq!(s.renderer.as_ref().unwrap().highlight(), None);
    OverlayWindow::handle_mouse_down(&mut s, 1300, 800);
    OverlayWindow::handle_mouse_up(&mut s, 1300, 800);
    assert_eq!(s.mode, SelectionMode::Window);
    assert_eq!(s.selection, Some(Rect::new(100, 100, 400, 400)));
    assert!(OverlayWindow::handle_key_down(&mut s, VK_RETURN));
    assert_eq!(
        s.result,
        Some(SelectionOutcome::Window { hwnd: 22, rect: Rect::new(100, 100, 400, 400) })
    );
}

#[test]
fn click_on_nothing_changes_nothing() {
    let mut s = overlay();
    OverlayWindow::handle_mouse_down(&mut s, 5, 5);
    OverlayWindow::handle_mouse_up(&mut s, 5, 5);
    assert_eq!(s.selection, None);
    assert_eq!(s.mode, SelectionMode::Region);
    assert_eq!(s.drag_start, None);
}

#[test]
fn escape_and_close_cancel() {
    let mut s = overlay();
    assert!(!OverlayWindow::handle_key_down(&mut s, 0x41));
    assert_eq!(s.result, None);
    assert!(matches!(OverlayWindow::show(&s), Err(OverlayError::Cancelled)));
    assert!(OverlayWindow::handle_key_down(&mut s, VK_ESCAPE));
    assert_eq!(s.result, Some(SelectionOutcome::Cancelled));
    let mut t = overlay();
    OverlayWindow::handle_close(&mut t);
    assert_eq!(t.result, Some(SelectionOutcome::Cancelled));
    t.result = Some(SelectionOutcome::Region(Rect::new(0, 0, 20, 20)));
    OverlayWindow::handle_close(&mut t);
    assert_eq!(t.result, Some(SelectionOutcome::Region(Rect::new(0, 0, 20, 20))));
}

#[test]
fn overlay_error_messages() {
    assert_eq!(OverlayError::Windows("e".to_string()).message(), "Windows API error: e");
    assert_eq!(OverlayError::Screenshot("dc".to_string()).message(), "Screenshot failed: dc");
    assert_eq!(OverlayError::Cancelled.message(), "Selection cancelled");
    assert_eq!(OverlayError::NoSelection.message(), "No selection made");
}

#[test]
fn outline_and_labels() {
    let mut r = OverlayRenderer::new(shot());
    assert_eq!(r.local_outline(&Rect::new(0, 0, 200, 100)), Some((1000, 500, 1200, 600)));
    assert_eq!(r.local_outline(&Rect::new(-1000, -500, 3000, 2000)), Some((0, 0, 3000, 2000)));
    assert_eq!(r.local_outline(&Rect::new(i32::MAX, 0, 10, 10)), None);
    assert_eq!(OverlayRenderer::size_text(&Rect::new(5, 5, 640, 480)), "640 × 480 px");
    assert_eq!(OverlayRenderer::size_text(&Rect::new(5, 5, 0, 7)), "0 × 7 px");
    assert_eq!(r.info_text(), "拖动框选区域 | 点击选择窗口 | Enter 确认 | Esc 取消");
    r.set_dragging(true);
    assert_eq!(r.info_text(), "拖动选择区域 | 松开确认");
}
