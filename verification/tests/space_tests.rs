use astro_core::space::{blink, find_impulse_direction, pursuit_vector, wrap_coord, Position};

#[test]
fn wrap_inside_range_unchanged() {
    assert_eq!(wrap_coord(0, 800), (0, false));
    assert_eq!(wrap_coord(400, 800), (400, false));
    assert_eq!(wrap_coord(-400, 800), (-400, false));
    assert_eq!(wrap_coord(123, 800), (123, false));
}

#[test]
fn wrap_outside_range_remaps() {
    assert_eq!(wrap_coord(500, 800), (-300, true));
    assert_eq!(wrap_coord(-500, 800), (300, true));
    assert_eq!(wrap_coord(401, 800), (-399, true));
    assert_eq!(wrap_coord(-401, 800), (399, true));
    assert_eq!(wrap_coord(1700, 800), (100, true));
}

#[test]
fn wrap_is_idempotent_on_samples() {
    for &extent in &[1i64, 2, 3, 7, 800, 999] {
        for &p in &[-2000i64, -801, -500, -1, 0, 1, 399, 400, 401, 777, 5000] {
            let (once, _) = wrap_coord(p, extent);
            let (twice, moved_again) = wrap_coord(once, extent);
            assert_eq!(once, twice);
            assert!(!moved_again);
        }
    }
}

#[test]
fn blink_wraps_both_axes() {
    let (pos, wrapped) = blink(Position { x: 500, y: -500 }, 800);
    assert_eq!(pos, Position { x: -300, y: 300 });
    assert!(wrapped);
    let (pos, wrapped) = blink(Position { x: 10, y: 10 }, 800);
    assert_eq!(pos, Position { x: 10, y: 10 });
    assert!(!wrapped);
}

#[test]
fn shortest_displacement_direct_path() {
    assert_eq!(find_impulse_direction(800, 0, 300), 300);
    assert_eq!(find_impulse_direction(800, 300, 0), -300);
    assert_eq!(find_impulse_direction(800, -100, -150), -50);
    assert_eq!(find_impulse_direction(800, 7, 7), 0);
}

#[test]
fn shortest_displacement_wraps_around_the_seam() {
    // Direct difference 500 exceeds half the extent: go the other way.
    assert_eq!(find_impulse_direction(800, -300, 200), -300);
    assert_eq!(find_impulse_direction(800, 200, -300), 300);
    // At exactly half the extent the wrapped path is taken.
    assert_eq!(find_impulse_direction(800, 0, 400), -400);
}

#[test]
fn shortest_displacement_magnitude_bounded_on_samples() {
    for &extent in &[1i64, 2, 5, 799, 800] {
        for &a in &[-(extent / 2), 0, extent / 2] {
            for &b in &[-(extent / 2), -1, 0, 1, extent / 2] {
                let r = find_impulse_direction(extent, a, b);
                assert!(2 * r.abs() <= extent, "extent {extent} a {a} b {b} r {r}");
            }
        }
    }
}

#[test]
fn pursuit_vector_both_axes() {
    let r = pursuit_vector(
        800,
        Position { x: 300, y: 0 },
        Position { x: -300, y: 50 },
    );
    assert_eq!(r, (200, 50));
}
