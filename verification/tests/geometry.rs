use tinycapture::geometry::{clamp_extent, Rect};

#[test]
fn rect_new_keeps_fields() {
    let r = Rect::new(-3, 4, 10, 20);
    assert_eq!(r, Rect { x: -3, y: 4, width: 10, height: 20 });
    assert_eq!(Rect::default(), Rect { x: 0, y: 0, width: 0, height: 0 });
}

#[test]
fn rect_edges() {
    let r = Rect::new(10, 20, 30, 40);
    assert_eq!(r.right(), 40);
    assert_eq!(r.bottom(), 60);
    let n = Rect::new(-50, -60, 20, 10);
    assert_eq!(n.right(), -30);
    assert_eq!(n.bottom(), -50);
}

#[test]
fn rect_contains_is_half_open() {
    let r = Rect::new(10, 20, 30, 40);
    assert!(r.contains(10, 20));
    assert!(r.contains(39, 59));
    assert!(!r.contains(40, 20));
    assert!(!r.contains(10, 60));
    assert!(!r.contains(9, 20));
    assert!(!r.contains(10, 19));
    assert!(!Rect::new(5, 5, 0, 10).contains(5, 5));
}

#[test]
fn rect_contains_near_the_limits() {
    let r = Rect::new(i32::MAX - 1, 0, 100, 1);
    assert!(r.contains(i32::MAX, 0));
    assert!(r.contains(i32::MAX - 1, 0));
    assert!(!r.contains(i32::MAX - 2, 0));
}

#[test]
fn rect_intersects() {
    let a = Rect::new(0, 0, 10, 10);
    assert!(a.intersects(&Rect::new(5, 5, 10, 10)));
    assert!(a.intersects(&Rect::new(9, 9, 1, 1)));
    assert!(!a.intersects(&Rect::new(10, 0, 5, 5)));
    assert!(!a.intersects(&Rect::new(0, 10, 5, 5)));
    assert!(!a.intersects(&Rect::new(-5, -5, 5, 5)));
    assert!(a.intersects(&Rect::new(-5, -5, 6, 6)));
    assert!(Rect::new(5, 5, 10, 10).intersects(&a));
}

#[test]
fn rect_is_empty() {
    assert!(Rect::new(1, 1, 0, 5).is_empty());
    assert!(Rect::new(1, 1, 5, 0).is_empty());
    assert!(!Rect::new(1, 1, 1, 1).is_empty());
}

#[test]
fn clamp_negative_origin_shrinks_by_the_overflow() {
    let c = Rect::new(-10, -20, 100, 200).clamp_to(1920, 1080);
    assert_eq!(c, Rect { x: 0, y: 0, width: 90, height: 180 });
}

#[test]
fn clamp_negative_origin_and_past_the_far_edge() {
    let c = Rect::new(-10, 5, 3000, 2000).clamp_to(1920, 1080);
    assert_eq!(c, Rect { x: 0, y: 5, width: 1920, height: 1075 });
}

#[test]
fn clamp_inside_is_unchanged() {
    let r = Rect::new(100, 50, 640, 480);
    assert_eq!(r.clamp_to(1920, 1080), r);
    let full = Rect::new(0, 0, 1920, 1080);
    assert_eq!(full.clamp_to(1920, 1080), full);
}

#[test]
fn clamp_past_the_far_edge_is_cut() {
    let c = Rect::new(1900, 1000, 100, 100).clamp_to(1920, 1080);
    assert_eq!(c, Rect { x: 1900, y: 1000, width: 20, height: 80 });
}

#[test]
fn clamp_outside_has_no_extent() {
    let c = Rect::new(2000, 10, 100, 100).clamp_to(1920, 1080);
    assert_eq!(c, Rect { x: 2000, y: 10, width: 0, height: 100 });
    let before = Rect::new(-200, -200, 100, 100).clamp_to(1920, 1080);
    assert_eq!(before, Rect { x: 0, y: 0, width: 0, height: 0 });
}

#[test]
fn clamp_never_exceeds_the_target() {
    for x in [-300i32, -1, 0, 1, 50, 99, 100, 101, 400] {
        for w in [0u32, 1, 50, 100, 101, 1000] {
            let c = Rect::new(x, x, w, w).clamp_to(100, 80);
            assert!(c.x >= 0 && c.y >= 0);
            assert!(c.width <= w && c.height <= w);
            if c.width > 0 {
                assert!(c.x as i64 + c.width as i64 <= 100);
            }
            if c.height > 0 {
                assert!(c.y as i64 + c.height as i64 <= 80);
            }
            for p in [-1i32, 0, 1, 49, 79, 80, 99, 100, 150] {
                let inside = Rect::new(x, x, w, w).contains(p, p) && p >= 0 && p < 100 && p < 80;
                assert_eq!(c.contains(p, p), inside);
            }
        }
    }
}

#[test]
fn clamp_extent_values() {
    assert_eq!(clamp_extent(-10, 100, 1920), 90);
    assert_eq!(clamp_extent(-10, 5, 1920), 0);
    assert_eq!(clamp_extent(10, 100, 50), 40);
    assert_eq!(clamp_extent(60, 100, 50), 0);
    assert_eq!(clamp_extent(i32::MIN, u32::MAX, u32::MAX), 2147483647);
    assert_eq!(clamp_extent(i32::MAX, u32::MAX, u32::MAX), 2147483648);
}
