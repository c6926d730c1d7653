use ui_gradients::normalize::normalize_stop_positions;

#[test]
fn middle_autos_are_spaced_exactly_evenly() {
    let points = vec![Some(0i64), None, None, Some(90)];
    let r = normalize_stop_positions(&points, 1000);
    assert_eq!(r, vec![0, 30, 60, 90]);
}

#[test]
fn normalization_is_idempotent_on_explicit_sorted_lists() {
    let points = vec![Some(0i64), None, Some(40), None, None, Some(100)];
    let first = normalize_stop_positions(&points, 100);
    let explicit: Vec<Option<i64>> = first.iter().map(|v| Some(*v)).collect();
    let second = normalize_stop_positions(&explicit, 100);
    assert_eq!(second, first);
    let third = normalize_stop_positions(&explicit, 999_999);
    assert_eq!(third, first);
}

#[test]
fn positions_below_their_predecessor_are_raised() {
    let points = vec![Some(50i64), Some(20), None, Some(10)];
    let r = normalize_stop_positions(&points, 1000);
    assert_eq!(r, vec![50, 50, 50, 50]);
    for w in r.windows(2) {
        assert!(w[0] <= w[1]);
    }
}

#[test]
fn output_never_decreases_on_mixed_input() {
    let points = vec![None, Some(300i64), None, Some(100), None, None, Some(700), None];
    let r = normalize_stop_positions(&points, 500);
    assert_eq!(r.len(), points.len());
    for w in r.windows(2) {
        assert!(w[0] <= w[1]);
    }
    assert_eq!(r[0], 0);
    assert_eq!(r[1], 300);
}

#[test]
fn an_automatic_first_stop_sits_at_zero() {
    let points = vec![None, Some(80i64)];
    let r = normalize_stop_positions(&points, 1000);
    assert_eq!(r, vec![0, 80]);
}

#[test]
fn an_automatic_last_stop_sits_at_the_total_extent() {
    let points = vec![Some(10i64), None];
    let r = normalize_stop_positions(&points, 1000);
    assert_eq!(r, vec![10, 1000]);
}

#[test]
fn a_single_automatic_stop_sits_at_zero() {
    let points = vec![None];
    let r = normalize_stop_positions(&points, 1000);
    assert_eq!(r, vec![0]);
}

#[test]
fn an_empty_list_stays_empty() {
    let points: Vec<Option<i64>> = Vec::new();
    let r = normalize_stop_positions(&points, 1000);
    assert!(r.is_empty());
}

#[test]
fn a_fully_automatic_list_spans_the_whole_extent() {
    let points = vec![None, None, None, None];
    let r = normalize_stop_positions(&points, 300);
    assert_eq!(r, vec![0, 100, 200, 300]);
}

#[test]
fn an_explicit_stop_beyond_the_extent_raises_the_last() {
    let points = vec![Some(0i64), None, Some(400)];
    let r = normalize_stop_positions(&points, 300);
    assert_eq!(r, vec![0, 200, 400]);
}

#[test]
fn interpolation_between_descending_endpoints_is_corrected() {
    let points = vec![Some(100i64), None, Some(40)];
    let r = normalize_stop_positions(&points, 1000);
    assert_eq!(r, vec![100, 100, 100]);
}
