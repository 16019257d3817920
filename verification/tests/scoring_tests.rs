use wasm_grate::max_scores::{MaxScores, _calculate_max_metric_score};
use wasm_grate::metrics::Metrics;
use wasm_grate::scoring::{
    _calculate_metric_score, _get_metrics_score, try_report_function, Finding,
};
use wasm_grate::syntax::Span;
use wasm_grate::visitor::FunctionAnalysisVisitor;

fn counts(complexity: usize, depth: usize, arithmetic: usize, strings: usize) -> FunctionAnalysisVisitor {
    FunctionAnalysisVisitor {
        cyclomatic_complexity: complexity,
        current_loop_depth: 0,
        max_loop_depth: depth,
        arithmetic_operations: arithmetic,
        string_operations: strings,
    }
}

fn thresholds(complexity: usize, depth: usize, arithmetic: usize, strings: usize) -> Metrics {
    Metrics {
        cyclomatic_complexity: complexity,
        loop_depth: depth,
        arithmetic_operations: arithmetic,
        string_operations: strings,
    }
}

fn default_score(visitor: &FunctionAnalysisVisitor) -> usize {
    let t = Metrics::new();
    _get_metrics_score(visitor, &t, &MaxScores::from_thresholds(&t))
}

#[test]
fn metric_score_is_the_weighted_excess() {
    assert_eq!(_calculate_metric_score(6, 3, 1), 3);
    assert_eq!(_calculate_metric_score(3, 1, 3), 6);
    assert_eq!(_calculate_metric_score(5, 3, 2), 4);
    assert_eq!(_calculate_metric_score(2, 1, 4), 4);
}

#[test]
fn metric_score_under_the_threshold_is_zero() {
    assert_eq!(_calculate_metric_score(1, 3, 1), 0);
    assert_eq!(_calculate_metric_score(0, usize::MAX, 3), 0);
    assert_eq!(_calculate_metric_score(3, 3, 2), 0);
}

#[test]
fn metric_score_of_the_largest_excess() {
    assert_eq!(_calculate_metric_score(usize::MAX, 0, 3), 3 * (usize::MAX as u128));
}

#[test]
fn max_metric_score_is_the_weighted_threshold() {
    assert_eq!(_calculate_max_metric_score(3, 1), 3);
    assert_eq!(_calculate_max_metric_score(1, 3), 3);
    assert_eq!(_calculate_max_metric_score(0, 4), 0);
    assert_eq!(_calculate_max_metric_score(usize::MAX, 4), 4 * (usize::MAX as u128));
}

#[test]
fn score_at_the_thresholds_is_zero() {
    assert_eq!(default_score(&counts(3, 1, 3, 1)), 0);
}

#[test]
fn score_at_the_thresholds_is_zero_for_other_thresholds() {
    for t in [thresholds(0, 0, 0, 0), thresholds(7, 2, 0, 5), thresholds(1, 0, 0, 1), thresholds(100, 50, 20, 3)] {
        let visitor = counts(
            t.cyclomatic_complexity,
            t.loop_depth,
            t.arithmetic_operations,
            t.string_operations,
        );
        let ceiling = MaxScores::from_thresholds(&t);
        assert_eq!(_get_metrics_score(&visitor, &t, &ceiling), 0);
        assert_eq!(try_report_function(&visitor, Span { lo: 0, hi: 1 }, &t, &ceiling), None);
    }
}

#[test]
fn score_under_the_thresholds_is_zero() {
    assert_eq!(default_score(&counts(1, 0, 0, 0)), 0);
}

#[test]
fn score_rounds_to_the_nearest_integer() {
    // raw 0.5 of a ceiling of 4: 1.25
    assert_eq!(default_score(&counts(4, 1, 3, 1)), 1);
    // raw 1.5 of 4: 3.75
    assert_eq!(default_score(&counts(3, 2, 3, 1)), 4);
    // raw 2.0 of 4: 5
    assert_eq!(default_score(&counts(3, 1, 5, 1)), 5);
}

#[test]
fn score_rounds_halves_up() {
    // raw 1.0 of 4: 2.5
    assert_eq!(default_score(&counts(5, 1, 3, 1)), 3);
    // raw 3.0 of 4: 7.5
    assert_eq!(default_score(&counts(3, 3, 3, 1)), 8);
}

#[test]
fn score_is_at_most_ten() {
    assert_eq!(default_score(&counts(3, 1, 7, 1)), 10);
    assert_eq!(default_score(&counts(1000, 1000, 1000, 0)), 10);
    assert_eq!(default_score(&counts(usize::MAX, usize::MAX, usize::MAX, 0)), 10);
}

#[test]
fn score_just_under_ten() {
    // thresholds (0, 0, 20, 0) give a ceiling of 20; raw 18.75 is 9.375, raw 19 is 9.5
    let t = thresholds(0, 0, 20, 0);
    let ceiling = MaxScores::from_thresholds(&t);
    assert_eq!(ceiling.total(), 40);
    assert_eq!(_get_metrics_score(&counts(0, 0, 38, 0), &t, &ceiling), 9);
    assert_eq!(_get_metrics_score(&counts(1, 0, 38, 0), &t, &ceiling), 9);
    assert_eq!(_get_metrics_score(&counts(0, 0, 39, 0), &t, &ceiling), 10);
}

#[test]
fn string_penalty_lowers_the_score() {
    // raw 3.0 less a penalty of 2.0: 1.0 of 4 is 2.5
    assert_eq!(default_score(&counts(3, 3, 3, 2)), 3);
    // the penalty outweighs the rest
    assert_eq!(default_score(&counts(6, 1, 3, 2)), 0);
    assert_eq!(default_score(&counts(3, 1, 3, 5)), 0);
}

#[test]
fn score_without_a_ceiling_is_zero() {
    let t = thresholds(0, 0, 0, 0);
    let ceiling = MaxScores::from_thresholds(&t);
    assert_eq!(ceiling.total(), 0);
    assert_eq!(_get_metrics_score(&counts(9, 9, 9, 0), &t, &ceiling), 0);
    let balanced = thresholds(4, 0, 0, 1);
    let ceiling = MaxScores::from_thresholds(&balanced);
    assert_eq!(ceiling.total(), 0);
    assert_eq!(_get_metrics_score(&counts(9, 9, 9, 0), &balanced, &ceiling), 0);
}

#[test]
fn score_with_a_negative_ceiling() {
    let t = thresholds(1, 0, 0, 1);
    let ceiling = MaxScores::from_thresholds(&t);
    assert_eq!(ceiling.total(), -3);
    // a positive raw score over a negative ceiling is below zero
    assert_eq!(_get_metrics_score(&counts(1, 0, 4, 0), &t, &ceiling), 0);
    // raw -4.0 over -1.5
    assert_eq!(_get_metrics_score(&counts(1, 0, 0, 3), &t, &ceiling), 10);
    // raw -1.5 over -1.5
    assert_eq!(_get_metrics_score(&counts(2, 0, 0, 2), &t, &ceiling), 10);
    // raw -2.0 over -6.0: 3.33
    assert_eq!(
        _get_metrics_score(&counts(1, 0, 0, 2), &t, &MaxScores::from_half_points(0, 0, 0, 12).unwrap()),
        3
    );
}

#[test]
fn score_with_a_cached_ceiling() {
    let t = Metrics::new();
    let cached = MaxScores::from_half_points(10, 10, 10, 10).unwrap();
    // raw 2.0 of a ceiling of 10
    assert_eq!(_get_metrics_score(&counts(3, 1, 5, 1), &t, &cached), 2);
}

#[test]
fn more_arithmetic_never_lowers_the_score() {
    let t = Metrics::new();
    let ceiling = MaxScores::from_thresholds(&t);
    let mut last = 0;
    for arithmetic in 0..20 {
        let score = _get_metrics_score(&counts(4, 2, arithmetic, 2), &t, &ceiling);
        assert!(score >= last);
        last = score;
    }
    assert_eq!(last, 10);
}

#[test]
fn complex_function_is_reported() {
    let t = thresholds(3, 1, 3, 1);
    assert_eq!(t.average(), 2);
    let ceiling = MaxScores::from_thresholds(&t);
    let span = Span { lo: 10, hi: 90 };
    assert_eq!(
        try_report_function(&counts(6, 3, 5, 0), span, &t, &ceiling),
        Some(Finding { span, score: 10 })
    );
}

#[test]
fn function_at_the_thresholds_is_not_reported() {
    let t = thresholds(3, 1, 3, 1);
    let ceiling = MaxScores::from_thresholds(&t);
    assert_eq!(try_report_function(&counts(3, 1, 3, 1), Span { lo: 0, hi: 5 }, &t, &ceiling), None);
}

#[test]
fn score_equal_to_the_average_is_not_reported() {
    let t = Metrics::new();
    let ceiling = MaxScores::from_half_points(10, 10, 10, 10).unwrap();
    // raw 2.0 of 10 scores 2, the average of the thresholds
    assert_eq!(try_report_function(&counts(3, 1, 5, 1), Span { lo: 0, hi: 5 }, &t, &ceiling), None);
    // raw 3.0 of 10 scores 3
    let span = Span { lo: 0, hi: 5 };
    assert_eq!(
        try_report_function(&counts(3, 1, 6, 1), span, &t, &ceiling),
        Some(Finding { span, score: 3 })
    );
}

#[test]
fn more_arithmetic_can_lower_the_score_under_a_negative_ceiling() {
    let t = thresholds(1, 0, 0, 1);
    let ceiling = MaxScores::from_thresholds(&t);
    assert_eq!(ceiling.total(), -3);
    // raw -4.0 over -1.5, then raw 0
    assert_eq!(_get_metrics_score(&counts(1, 0, 0, 3), &t, &ceiling), 10);
    assert_eq!(_get_metrics_score(&counts(1, 0, 4, 3), &t, &ceiling), 0);
}
