use systemdmgr::input::{centered_fixed_rect, mouse_in_rect, MouseInput, MouseKind, Rect};

fn make_mouse(column: u16, row: u16) -> MouseInput {
    MouseInput { kind: MouseKind::LeftDown, column, row }
}

#[test]
fn test_centered_fixed_rect_centered() {
    let area = Rect::new(0, 0, 100, 50);
    let result = centered_fixed_rect(30, 10, area);
    assert_eq!(result.x, 35);
    assert_eq!(result.y, 20);
    assert_eq!(result.width, 30);
    assert_eq!(result.height, 10);
}

#[test]
fn test_centered_fixed_rect_larger_than_area() {
    let area = Rect::new(0, 0, 20, 10);
    let result = centered_fixed_rect(30, 15, area);
    assert_eq!(result.width, 20);
    assert_eq!(result.height, 10);
}

#[test]
fn test_centered_fixed_rect_with_offset() {
    let area = Rect::new(10, 5, 100, 50);
    let result = centered_fixed_rect(30, 10, area);
    assert_eq!(result.x, 10 + (100 - 30) / 2);
    assert_eq!(result.y, 5 + (50 - 10) / 2);
    assert_eq!(result.width, 30);
    assert_eq!(result.height, 10);
}

#[test]
fn test_centered_fixed_rect_exact_fit() {
    let area = Rect::new(0, 0, 30, 10);
    let result = centered_fixed_rect(30, 10, area);
    assert_eq!(result.x, 0);
    assert_eq!(result.y, 0);
    assert_eq!(result.width, 30);
    assert_eq!(result.height, 10);
}

#[test]
fn test_mouse_in_rect_inside() {
    let rect = Rect::new(10, 10, 20, 15);
    assert!(mouse_in_rect(make_mouse(15, 15), rect));
}

#[test]
fn test_mouse_in_rect_top_left_corner() {
    let rect = Rect::new(10, 10, 20, 15);
    assert!(mouse_in_rect(make_mouse(10, 10), rect));
}

#[test]
fn test_mouse_in_rect_bottom_right_exclusive() {
    let rect = Rect::new(10, 10, 20, 15);
    // x=30, y=25 is outside (exclusive boundary)
    assert!(!mouse_in_rect(make_mouse(30, 25), rect));
}

#[test]
fn test_mouse_in_rect_just_inside_bottom_right() {
    let rect = Rect::new(10, 10, 20, 15);
    // x=29, y=24 is the last inside position
    assert!(mouse_in_rect(make_mouse(29, 24), rect));
}

#[test]
fn test_mouse_in_rect_outside_left() {
    let rect = Rect::new(10, 10, 20, 15);
    assert!(!mouse_in_rect(make_mouse(9, 15), rect));
}

#[test]
fn test_mouse_in_rect_outside_above() {
    let rect = Rect::new(10, 10, 20, 15);
    assert!(!mouse_in_rect(make_mouse(15, 9), rect));
}

#[test]
fn test_mouse_in_rect_zero_rect() {
    let rect = Rect::new(5, 5, 0, 0);
    assert!(!mouse_in_rect(make_mouse(5, 5), rect));
}
