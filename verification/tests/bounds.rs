use line_prompt::bounds::safe_addition;

#[test]
fn negative_step_subtracts() {
    assert_eq!(safe_addition(5, -3, 10), 2);
}

#[test]
fn negative_step_stops_at_zero() {
    assert_eq!(safe_addition(5, -5, 10), 0);
    assert_eq!(safe_addition(5, -6, 10), 0);
    assert_eq!(safe_addition(0, -1, 10), 0);
}

#[test]
fn positive_step_adds() {
    assert_eq!(safe_addition(5, 3, 10), 8);
    assert_eq!(safe_addition(5, 5, 10), 10);
}

#[test]
fn positive_step_stops_at_max() {
    assert_eq!(safe_addition(5, 6, 10), 10);
    assert_eq!(safe_addition(10, 1, 10), 10);
    assert_eq!(safe_addition(0, 1, 0), 0);
}

#[test]
fn zero_step_keeps_a_value_in_range() {
    assert_eq!(safe_addition(7, 0, 10), 7);
    assert_eq!(safe_addition(0, 0, 0), 0);
}

#[test]
fn extreme_steps_saturate_instead_of_wrapping() {
    assert_eq!(safe_addition(5, i64::MIN, 10), 0);
    assert_eq!(safe_addition(5, i64::MAX, 10), 10);
    assert_eq!(safe_addition(usize::MAX, 1, usize::MAX), usize::MAX);
    assert_eq!(safe_addition(usize::MAX, -1, usize::MAX), usize::MAX - 1);
    assert_eq!(safe_addition(usize::MAX - 1, i64::MAX, usize::MAX), usize::MAX);
}

#[test]
fn value_above_max_comes_down_only_on_a_step_forward() {
    assert_eq!(safe_addition(20, 0, 10), 10);
    assert_eq!(safe_addition(20, 1, 10), 10);
    assert_eq!(safe_addition(20, -1, 10), 19);
}
