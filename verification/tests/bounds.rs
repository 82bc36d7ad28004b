use circle_cam::bounds::clamp;

#[test]
fn clamp_keeps_offsets_in_range() {
    assert_eq!(clamp(0, 640, 300), 0);
    assert_eq!(clamp(170, 640, 300), 170);
    assert_eq!(clamp(340, 640, 300), 340);
}

#[test]
fn clamp_stops_at_the_ceiling() {
    assert_eq!(clamp(341, 640, 300), 340);
    assert_eq!(clamp(u32::MAX, 640, 300), 340);
    assert_eq!(clamp(1, 300, 300), 0);
}

#[test]
fn clamp_is_zero_on_a_short_axis() {
    assert_eq!(clamp(0, 200, 300), 0);
    assert_eq!(clamp(57, 200, 300), 0);
    assert_eq!(clamp(u32::MAX, 0, 300), 0);
}
