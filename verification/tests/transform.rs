use circle_cam::transform::FrameTransform;

fn offsets(transform: &FrameTransform) -> (u32, u32) {
    (transform.x_offset(), transform.y_offset())
}

#[test]
fn new_starts_in_the_top_left_corner() {
    let transform = FrameTransform::new(640, 480);
    assert_eq!(offsets(&transform), (0, 0));
    assert_eq!(transform.source_width(), 640);
    assert_eq!(transform.source_height(), 480);
}

#[test]
fn center_puts_the_window_in_the_middle() {
    let mut transform = FrameTransform::new(640, 480);
    transform.center();
    assert_eq!(offsets(&transform), (170, 90));
}

#[test]
fn center_on_odd_extents_rounds_each_half_down() {
    let mut transform = FrameTransform::new(641, 301);
    transform.center();
    assert_eq!(offsets(&transform), (170, 0));
    let mut transform = FrameTransform::new(303, 1001);
    transform.center();
    assert_eq!(offsets(&transform), (1, 350));
}

#[test]
fn center_on_a_small_source_is_the_origin() {
    let mut transform = FrameTransform::new(200, 480);
    transform.center();
    assert_eq!(offsets(&transform), (0, 90));
    let mut transform = FrameTransform::new(0, 0);
    transform.center();
    assert_eq!(offsets(&transform), (0, 0));
    let mut transform = FrameTransform::new(299, 300);
    transform.center();
    assert_eq!(offsets(&transform), (0, 0));
}

#[test]
fn center_on_the_largest_source() {
    let mut transform = FrameTransform::new(u32::MAX, u32::MAX);
    transform.center();
    assert_eq!(offsets(&transform), (u32::MAX / 2 - 150, u32::MAX / 2 - 150));
}

#[test]
fn center_twice_is_center_once() {
    for (width, height) in [(640, 480), (200, 480), (301, 299), (0, 0), (1920, 1080)] {
        let mut once = FrameTransform::new(width, height);
        once.pan_right();
        once.pan_down();
        once.center();
        let mut twice = once;
        twice.center();
        assert_eq!(offsets(&once), offsets(&twice));
    }
}

#[test]
fn pan_left_and_up_do_nothing_at_the_origin() {
    let mut transform = FrameTransform::new(640, 480);
    transform.pan_left();
    assert_eq!(offsets(&transform), (0, 0));
    transform.pan_up();
    assert_eq!(offsets(&transform), (0, 0));
}

#[test]
fn pan_moves_by_one_step() {
    let mut transform = FrameTransform::new(640, 480);
    transform.center();
    transform.pan_right();
    assert_eq!(offsets(&transform), (171, 90));
    transform.pan_down();
    assert_eq!(offsets(&transform), (171, 91));
    transform.pan_left();
    transform.pan_left();
    assert_eq!(offsets(&transform), (169, 91));
    transform.pan_up();
    transform.pan_up();
    assert_eq!(offsets(&transform), (169, 89));
}

#[test]
fn pan_right_rises_to_the_ceiling_and_stays() {
    let mut transform = FrameTransform::new(640, 480);
    let mut previous = transform.x_offset();
    assert_eq!(previous, 0);
    for step in 1..=340u32 {
        transform.pan_right();
        assert!(transform.x_offset() > previous);
        assert_eq!(transform.x_offset(), step);
        previous = transform.x_offset();
    }
    for _ in 0..10 {
        transform.pan_right();
        assert_eq!(transform.x_offset(), 340);
    }
    assert_eq!(transform.y_offset(), 0);
}

#[test]
fn pan_down_rises_to_the_ceiling_and_stays() {
    let mut transform = FrameTransform::new(640, 480);
    for step in 1..=180u32 {
        transform.pan_down();
        assert_eq!(transform.y_offset(), step);
    }
    transform.pan_down();
    assert_eq!(offsets(&transform), (0, 180));
}

#[test]
fn each_axis_is_clamped_by_its_own_extent() {
    let mut transform = FrameTransform::new(1000, 310);
    transform.set_x_offset(u32::MAX);
    transform.set_y_offset(u32::MAX);
    assert_eq!(offsets(&transform), (700, 10));
    let mut transform = FrameTransform::new(310, 1000);
    transform.set_x_offset(u32::MAX);
    transform.set_y_offset(u32::MAX);
    assert_eq!(offsets(&transform), (10, 700));
}

#[test]
fn no_panning_on_a_source_smaller_than_the_window() {
    let mut transform = FrameTransform::new(200, 100);
    transform.pan_right();
    transform.pan_down();
    assert_eq!(offsets(&transform), (0, 0));
    transform.set_x_offset(5);
    transform.set_y_offset(5);
    assert_eq!(offsets(&transform), (0, 0));
}

#[test]
fn set_offset_keeps_offsets_in_range() {
    let mut transform = FrameTransform::new(640, 480);
    transform.set_x_offset(12);
    transform.set_y_offset(34);
    assert_eq!(offsets(&transform), (12, 34));
    transform.set_x_offset(340);
    transform.set_y_offset(180);
    assert_eq!(offsets(&transform), (340, 180));
    transform.set_x_offset(341);
    transform.set_y_offset(181);
    assert_eq!(offsets(&transform), (340, 180));
}

#[test]
fn pan_right_at_the_largest_offset_does_not_overflow() {
    let mut transform = FrameTransform::new(u32::MAX, u32::MAX);
    transform.set_x_offset(u32::MAX);
    assert_eq!(transform.x_offset(), u32::MAX - 300);
    transform.pan_right();
    assert_eq!(transform.x_offset(), u32::MAX - 300);
}
