use sketchbook::grid_line_offsets;

#[test]
fn grid_offsets_span_both_sides_of_the_origin() {
    assert_eq!(grid_line_offsets(3), vec![-3, -2, -1, 0, 1, 2]);
    assert_eq!(grid_line_offsets(1), vec![-1, 0]);
}

#[test]
fn grid_of_no_steps_has_no_lines() {
    assert!(grid_line_offsets(0).is_empty());
}

#[test]
fn grid_line_count_is_twice_the_steps() {
    for steps in [0u32, 1, 2, 7, 40, 1000] {
        assert_eq!(grid_line_offsets(steps).len(), 2 * steps as usize);
    }
}

#[test]
fn grid_offsets_are_deterministic() {
    assert_eq!(grid_line_offsets(12), grid_line_offsets(12));
}
