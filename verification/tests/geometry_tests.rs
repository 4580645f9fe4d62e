use vibe_overlay::geometry::{
    capture_buffer_len, moved_origin, preview_bounds, preview_origin, resized_extent, text_area,
    Rect,
};

fn rect(left: i32, top: i32, right: i32, bottom: i32) -> Rect {
    Rect { left, top, right, bottom }
}

#[test]
fn move_left_shifts_origin() {
    assert_eq!(moved_origin(rect(100, 50, 700, 450), -10, 0), (90, 50));
}

#[test]
fn move_down_shifts_origin() {
    assert_eq!(moved_origin(rect(100, 50, 700, 450), 0, 10), (100, 60));
}

#[test]
fn move_round_trip_returns_to_start() {
    let start = rect(-5, 7, 595, 407);
    let (x, y) = moved_origin(start, 10, -10);
    let back = moved_origin(rect(x, y, x + 600, y + 400), -10, 10);
    assert_eq!(back, (-5, 7));
}

#[test]
fn resize_grows_both_sides() {
    assert_eq!(resized_extent(rect(0, 0, 600, 400), 20, 20), (620, 420));
}

#[test]
fn resize_never_goes_below_minimum() {
    assert_eq!(resized_extent(rect(0, 0, 110, 100), -20, -20), (100, 100));
    assert_eq!(resized_extent(rect(10, 10, 60, 40), -20, -20), (100, 100));
}

#[test]
fn resize_round_trip_restores_size() {
    let (w, h) = resized_extent(rect(0, 0, 150, 100), 20, 20);
    assert_eq!((w, h), (170, 120));
    assert_eq!(resized_extent(rect(0, 0, w, h), -20, -20), (150, 100));
}

#[test]
fn text_area_is_inset_by_ten() {
    assert_eq!(text_area(rect(0, 0, 584, 361)), rect(10, 10, 574, 351));
}

#[test]
fn preview_bounds_subtract_padding() {
    assert_eq!(preview_bounds(rect(0, 0, 584, 361)), (564, 341));
}

#[test]
fn preview_bounds_are_at_least_one_pixel() {
    assert_eq!(preview_bounds(rect(0, 0, 15, 20)), (1, 1));
}

#[test]
fn preview_is_centred() {
    assert_eq!(preview_origin(564, 341, 564, 317), (10, 22));
    assert_eq!(preview_origin(564, 341, 563, 341), (10, 10));
    assert_eq!(preview_origin(100, 100, 50, 41), (35, 39));
}

#[test]
fn preview_origin_rounds_toward_zero_when_too_large() {
    assert_eq!(preview_origin(100, 100, 103, 100), (9, 10));
}

#[test]
fn capture_length_is_four_bytes_per_pixel() {
    assert_eq!(capture_buffer_len(1920, 1080), 8_294_400);
    assert_eq!(capture_buffer_len(0, 1080), 0);
}

#[test]
fn capture_length_of_two_negative_sides() {
    assert_eq!(capture_buffer_len(-2, -2), 16);
}

#[test]
fn capture_length_of_negative_area_wraps() {
    assert_eq!(capture_buffer_len(-1, 2), (-8i64) as usize);
}
