use tinycapture::geometry::Rect;
use tinycapture::selection::{
    calc_selection_rect, find_window_at, find_window_index, get_window_info, is_valid_selection,
    rect_from_edges, should_include_window, Edges, SelectionMode, SelectionResult, WindowInfo,
    WindowTraits, MIN_SELECTION_SIZE, WS_DISABLED, WS_EX_TOOLWINDOW,
};

fn window(hwnd: isize, rect: Rect, z: usize) -> WindowInfo {
    WindowInfo { hwnd, rect, class_name: "w".to_string(), z_order: z }
}

fn good() -> WindowTraits {
    WindowTraits {
        visible: true,
        style: 0x1000_0000,
        ex_style: 0x100,
        cloaked: Some(0),
        owned: false,
        is_root: true,
        edges: Some(Edges { left: 10, top: 10, right: 61, bottom: 61 }),
    }
}

#[test]
fn selection_rect_from_any_drag_direction() {
    assert_eq!(calc_selection_rect(10, 20, 110, 70), Rect::new(10, 20, 100, 50));
    assert_eq!(calc_selection_rect(110, 70, 10, 20), Rect::new(10, 20, 100, 50));
    assert_eq!(calc_selection_rect(110, 20, 10, 70), Rect::new(10, 20, 100, 50));
    assert_eq!(calc_selection_rect(5, 5, 5, 5), Rect::new(5, 5, 0, 0));
    assert_eq!(calc_selection_rect(-30, -40, 10, 20), Rect::new(-30, -40, 40, 60));
    assert_eq!(
        calc_selection_rect(i32::MIN, 0, i32::MAX, 0),
        Rect::new(i32::MIN, 0, u32::MAX, 0)
    );
}

#[test]
fn selection_needs_sixteen_pixels_each_way() {
    assert_eq!(MIN_SELECTION_SIZE, 16);
    assert!(is_valid_selection(&Rect::new(0, 0, 16, 16)));
    assert!(!is_valid_selection(&Rect::new(0, 0, 15, 16)));
    assert!(!is_valid_selection(&Rect::new(0, 0, 16, 15)));
    assert!(is_valid_selection(&Rect::new(-5, -5, 1000, 1000)));
}

#[test]
fn topmost_window_under_the_point_wins() {
    let windows = vec![
        window(1, Rect::new(0, 0, 50, 50), 0),
        window(2, Rect::new(25, 25, 100, 100), 1),
        window(3, Rect::new(0, 0, 500, 500), 2),
    ];
    assert_eq!(find_window_at(&windows, 30, 30).unwrap().hwnd, 1);
    assert_eq!(find_window_at(&windows, 60, 60).unwrap().hwnd, 2);
    assert_eq!(find_window_at(&windows, 300, 300).unwrap().hwnd, 3);
    assert!(find_window_at(&windows, 600, 10).is_none());
    assert_eq!(find_window_index(&windows, 60, 60), Some(1));
    assert_eq!(find_window_index(&windows, -1, 0), None);
    assert!(find_window_at(&Vec::new(), 0, 0).is_none());
    assert!(windows[1].contains(25, 25));
    assert!(!windows[1].contains(125, 25));
}

#[test]
fn window_filter() {
    assert!(should_include_window(&good()));
    assert!(!should_include_window(&WindowTraits { visible: false, ..good() }));
    assert!(!should_include_window(&WindowTraits { style: WS_DISABLED | 1, ..good() }));
    assert!(!should_include_window(&WindowTraits { ex_style: WS_EX_TOOLWINDOW, ..good() }));
    assert!(!should_include_window(&WindowTraits { cloaked: Some(2), ..good() }));
    assert!(should_include_window(&WindowTraits { cloaked: None, ..good() }));
    assert!(!should_include_window(&WindowTraits { owned: true, ..good() }));
    assert!(!should_include_window(&WindowTraits { is_root: false, ..good() }));
    assert!(!should_include_window(&WindowTraits { edges: None, ..good() }));
    let narrow = Edges { left: 10, top: 10, right: 60, bottom: 61 };
    assert!(!should_include_window(&WindowTraits { edges: Some(narrow), ..good() }));
    let low = Edges { left: 10, top: 10, right: 61, bottom: 60 };
    assert!(!should_include_window(&WindowTraits { edges: Some(low), ..good() }));
}

#[test]
fn window_record_from_edges() {
    let e = Edges { left: -10, top: 20, right: 90, bottom: 70 };
    let w = get_window_info(5, e, "Notepad".to_string(), 3);
    assert_eq!(w.hwnd, 5);
    assert_eq!(w.rect, Rect::new(-10, 20, 100, 50));
    assert_eq!(w.class_name, "Notepad");
    assert_eq!(w.z_order, 3);
    assert_eq!(rect_from_edges(10, 10, 5, 5), Rect::new(10, 10, 0, 0));
    let r = SelectionResult { mode: SelectionMode::Window, rect: w.rect, hwnd: Some(5) };
    assert_eq!(r.mode, SelectionMode::Window);
}
