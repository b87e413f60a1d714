use device_core::helper::{hex_channels, rgb565_channels};
use device_core::helper::{
    center_image_in_area, center_text_in_area, clamp, is_point_in_area, is_point_in_circle,
};
use device_core::layout::{calculate_text_position, GridPosition, ScreenRect, StatusBarPosition};

#[test]
fn grid_cells() {
    assert_eq!(GridPosition::TopLeft.get_top_left(), (0, 0));
    assert_eq!(GridPosition::MiddleRight.get_top_left(), (240, 120));
    assert_eq!(GridPosition::BottomCenter.get_top_left(), (120, 240));
    assert_eq!(GridPosition::TopLeft.get_center(), (60, 60));
    assert_eq!(GridPosition::MiddleCenter.get_center(), (180, 180));
    assert_eq!(GridPosition::BottomRight.get_center(), (300, 300));
}

#[test]
fn rect_center_and_corner() {
    let r = ScreenRect::new(10, 20, 101, 51);
    assert_eq!(r.center(), (60, 45));
    assert_eq!(r.bottom_right(), (110, 70));
    let n = ScreenRect::new(0, 0, -5, -3);
    assert_eq!(n.center(), (-2, -1));
}

#[test]
fn status_bar_text_positions() {
    assert_eq!(calculate_text_position("abc", StatusBarPosition::Left, 30), (10, 23));
    assert_eq!(calculate_text_position("abc", StatusBarPosition::Center, 30), (165, 23));
    assert_eq!(calculate_text_position("abc", StatusBarPosition::Right, 30), (320, 23));
    assert_eq!(calculate_text_position("", StatusBarPosition::Center, 31), (180, 23));
    let long = "x".repeat(37);
    assert_eq!(calculate_text_position(&long, StatusBarPosition::Center, 30), (-5, 23));
}

#[test]
fn centering() {
    assert_eq!(center_text_in_area("hello", 0, 0, 360, 360), (155, 170));
    assert_eq!(center_text_in_area("", 10, 10, 0, 0), (10, 0));
    assert_eq!(center_image_in_area(100, 50, 20, 30, 200, 100), (70, 55));
    assert_eq!(center_image_in_area(101, 51, 0, 0, 100, 50), (0, 0));
}

#[test]
fn hit_tests() {
    assert!(is_point_in_area(0, 0, 0, 0, 10, 10));
    assert!(!is_point_in_area(10, 5, 0, 0, 10, 10));
    assert!(is_point_in_area(9, 9, 0, 0, 10, 10));
    assert!(!is_point_in_area(i32::MAX, 0, i32::MAX - 1, 0, 2, 1) == false);
    assert!(is_point_in_circle(3, 4, 0, 0, 5));
    assert!(!is_point_in_circle(4, 4, 0, 0, 5));
    assert!(is_point_in_circle(7, 7, 7, 7, 0));
    assert!(!is_point_in_circle(0, 0, 0, 0, -1));
    assert!(!is_point_in_circle(i32::MIN, i32::MIN, i32::MAX, i32::MAX, i32::MAX));
}

#[test]
fn clamping() {
    assert_eq!(clamp(5, 0, 10), 5);
    assert_eq!(clamp(-1, 0, 10), 0);
    assert_eq!(clamp(11, 0, 10), 10);
    assert_eq!(clamp(5, 10, 0), 10);
}

#[test]
fn colour_channels() {
    assert_eq!(rgb565_channels(255, 255, 255), (31, 63, 31));
    assert_eq!(rgb565_channels(0, 0, 0), (0, 0, 0));
    assert_eq!(rgb565_channels(128, 128, 128), (15, 31, 15));
    assert_eq!(hex_channels(0x12_34_56), (0x12, 0x34, 0x56));
    assert_eq!(hex_channels(0xFF_00_00_FF), (0x00, 0x00, 0xFF));
}
