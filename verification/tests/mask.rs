use circle_cam::canvas::{CENTER, INNER_RADIUS, OUTER_RADIUS};
use circle_cam::mask::{classify, inside, Zone};

fn canvas_zone(x: u32, y: u32) -> Zone {
    classify(x, y, (CENTER, CENTER), OUTER_RADIUS, INNER_RADIUS)
}

#[test]
fn canvas_geometry_is_as_documented() {
    assert_eq!(CENTER, 150);
    assert_eq!(OUTER_RADIUS, 150);
    assert_eq!(INNER_RADIUS, 145);
}

#[test]
fn inside_compares_squared_distances() {
    // 3-4-5 triangle: exactly on the circle counts as inside.
    assert!(inside(10, 10, 5, 13, 14));
    assert!(inside(10, 10, 5, 7, 6));
    assert!(!inside(10, 10, 5, 13, 15));
    assert!(inside(10, 10, 0, 10, 10));
    assert!(!inside(10, 10, 0, 10, 11));
}

#[test]
fn inside_handles_points_left_of_and_above_the_centre() {
    assert!(inside(150, 150, 150, 0, 150));
    assert!(inside(150, 150, 150, 150, 0));
    assert!(!inside(150, 150, 150, 0, 0));
    assert!(inside(150, 150, 150, 44, 44));
    assert!(!inside(150, 150, 150, 43, 43));
}

#[test]
fn inside_does_not_overflow_at_the_ends_of_the_range() {
    assert!(!inside(0, 0, 0, u32::MAX, u32::MAX));
    assert!(!inside(u32::MAX, u32::MAX, 1, 0, 0));
    assert!(inside(0, 0, u32::MAX, u32::MAX, 0));
    assert!(!inside(0, 0, u32::MAX, u32::MAX, 1));
    assert!(inside(u32::MAX, u32::MAX, u32::MAX, u32::MAX, 0));
}

#[test]
fn classify_names_the_three_zones() {
    assert_eq!(classify(150, 150, (150, 150), 150, 145), Zone::Interior);
    assert_eq!(classify(150, 5, (150, 150), 150, 145), Zone::Interior);
    assert_eq!(classify(150, 4, (150, 150), 150, 145), Zone::Border);
    assert_eq!(classify(150, 0, (150, 150), 150, 145), Zone::Border);
    assert_eq!(classify(150, 300, (150, 150), 150, 145), Zone::Border);
    assert_eq!(classify(150, 301, (150, 150), 150, 145), Zone::Outside);
    assert_eq!(classify(0, 0, (150, 150), 150, 145), Zone::Outside);
    assert_eq!(classify(299, 299, (150, 150), 150, 145), Zone::Outside);
}

#[test]
fn classify_uses_both_coordinates_of_the_centre() {
    assert_eq!(classify(10, 20, (10, 20), 3, 1), Zone::Interior);
    assert_eq!(classify(12, 20, (10, 20), 3, 1), Zone::Border);
    assert_eq!(classify(10, 24, (10, 20), 3, 1), Zone::Outside);
    assert_eq!(classify(20, 10, (10, 20), 3, 1), Zone::Outside);
}

#[test]
fn classify_with_inner_radius_equal_to_outer_has_no_border() {
    for x in 0..=20u32 {
        for y in 0..=20u32 {
            assert_ne!(classify(x, y, (10, 10), 7, 7), Zone::Border);
        }
    }
}

#[test]
fn classify_is_unchanged_by_quarter_turns() {
    // A quarter turn about (150, 150) takes (x, y) to (300 - y, x).
    for x in 0..=300u32 {
        for y in 0..=300u32 {
            let turned = canvas_zone(300 - y, x);
            assert_eq!(canvas_zone(x, y), turned, "at ({}, {})", x, y);
        }
    }
}

#[test]
fn zones_of_the_canvas_are_counted() {
    let mut outside = 0u32;
    let mut border = 0u32;
    let mut interior = 0u32;
    for y in 0..300u32 {
        for x in 0..300u32 {
            match canvas_zone(x, y) {
                Zone::Outside => outside += 1,
                Zone::Border => border += 1,
                Zone::Interior => interior += 1,
            }
        }
    }
    assert_eq!(outside + border + interior, 90_000);
    // Lattice points of the two discs, less the row and column the canvas cuts off.
    let mut in_outer = 0u32;
    let mut in_inner = 0u32;
    for y in 0..300i64 {
        for x in 0..300i64 {
            let d = (x - 150) * (x - 150) + (y - 150) * (y - 150);
            if d <= 150 * 150 {
                in_outer += 1;
            }
            if d <= 145 * 145 {
                in_inner += 1;
            }
        }
    }
    assert_eq!(interior, in_inner);
    assert_eq!(border, in_outer - in_inner);
    assert_eq!(outside, 90_000 - in_outer);
}
