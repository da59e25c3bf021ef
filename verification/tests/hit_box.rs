use kick_ups::hit_box::calculate_hit_box;

#[test]
fn pointer_on_the_ball_hits() {
    assert!(calculate_hit_box((40, 25), (40, 25), 1));
}

#[test]
fn pointer_two_cells_away_misses_radius_one() {
    assert!(!calculate_hit_box((40, 25), (42, 25), 1));
}

#[test]
fn pointer_on_the_corner_of_the_box_hits() {
    assert!(calculate_hit_box((40, 25), (41, 26), 1));
}

#[test]
fn box_edges_are_inclusive_on_every_side() {
    for (dx, dy) in [(-2, 0), (2, 0), (0, -2), (0, 2), (-2, -2), (2, 2), (-2, 2), (2, -2)] {
        assert!(calculate_hit_box((40, 25), (40 + dx, 25 + dy), 2));
    }
    for (dx, dy) in [(-3, 0), (3, 0), (0, -3), (0, 3), (3, 3), (-3, 2)] {
        assert!(!calculate_hit_box((40, 25), (40 + dx, 25 + dy), 2));
    }
}

#[test]
fn box_is_a_square_not_a_circle() {
    assert!(calculate_hit_box((0, 0), (5, 5), 5));
}

#[test]
fn negative_radius_never_hits() {
    assert!(!calculate_hit_box((40, 25), (40, 25), -1));
}

#[test]
fn zero_radius_hits_only_the_cell_itself() {
    assert!(calculate_hit_box((3, 4), (3, 4), 0));
    assert!(!calculate_hit_box((3, 4), (4, 4), 0));
}

#[test]
fn extreme_coordinates_do_not_overflow() {
    assert!(!calculate_hit_box((i32::MIN, 0), (i32::MAX, 0), i32::MAX));
    assert!(!calculate_hit_box((i32::MAX, 0), (i32::MIN, 0), 2));
    assert!(calculate_hit_box((i32::MAX, i32::MIN), (i32::MAX - 2, i32::MIN + 2), 2));
    assert!(calculate_hit_box((0, 0), (i32::MAX, i32::MIN + 1), i32::MAX));
}
