//! From the counts of a function to its score between 0 and 10.
//!
//! The score is computed exactly. Scores before normalization are whole
//! numbers of half points; the normalized score is the ratio of the raw score
//! to the ceiling, times ten, rounded to the nearest integer with halves
//! rounded up, and held between 0 and 10.

use vstd::prelude::*;
use vstd::arithmetic::div_mod::{lemma_div_is_ordered, lemma_fundamental_div_mod};
use crate::max_scores::{
    MaxScores, HALF_POINT_LIMIT, WEIGHT_ARITHMETIC, WEIGHT_CYCLOMATIC, WEIGHT_LOOP,
    WEIGHT_STRING,
};
use crate::metrics::Metrics;
use crate::syntax::Span;
use crate::visitor::FunctionAnalysisVisitor;

verus! {

/// A function whose score is above the reporting threshold.
#[derive(Clone, Copy, Debug, PartialEq, Eq, Structural)]
pub struct Finding {
    pub span: Span,
    pub score: usize,
}

/// What was found where the cached ceiling is kept.
#[derive(Clone, Copy, Debug)]
pub enum CachedScores {
    /// A ceiling was read back.
    Found(MaxScores),
    /// No ceiling has been stored yet.
    Absent,
    /// The cache cannot be used: its place could not be had, or what it
    /// holds could not be read.
    Unavailable,
}

/// The ceiling to score with, and whether it is still to be written to the cache.
#[derive(Clone, Copy, Debug)]
pub struct Calibration {
    pub scores: MaxScores,
    pub store: bool,
}

/// By how much a count is over its threshold; a count under it is not held
/// in its favour.
pub open spec fn excess(actual: int, threshold: int) -> int {
    if actual > threshold {
        actual - threshold
    } else {
        0
    }
}

/// The raw score of a function in half points: the weighted excess of
/// complexity, loop depth and arithmetic, less the penalty for strings.
pub open spec fn raw_score(visitor: FunctionAnalysisVisitor, thresholds: Metrics) -> int {
    WEIGHT_CYCLOMATIC * excess(
        visitor.cyclomatic_complexity as int,
        thresholds.cyclomatic_complexity as int,
    ) + WEIGHT_LOOP * excess(visitor.max_loop_depth as int, thresholds.loop_depth as int)
        + WEIGHT_ARITHMETIC * excess(
        visitor.arithmetic_operations as int,
        thresholds.arithmetic_operations as int,
    ) - WEIGHT_STRING * excess(
        visitor.string_operations as int,
        thresholds.string_operations as int,
    )
}

pub open spec fn magnitude(n: int) -> int {
    if n < 0 {
        -n
    } else {
        n
    }
}

/// Ten times `raw / ceiling`, rounded to the nearest integer, halves upwards,
/// and held between 0 and 10. With no ceiling the score is 0.
pub open spec fn normalized_score(raw: int, ceiling: int) -> int {
    if ceiling == 0 || raw == 0 || (raw > 0) != (ceiling > 0) {
        0
    } else {
        let rounded = (20 * magnitude(raw) + magnitude(ceiling)) / (2 * magnitude(ceiling));
        if rounded >= 10 {
            10
        } else {
            rounded
        }
    }
}

/// Whether a function with these counts is reported: its score is above the
/// average of the thresholds.
pub open spec fn is_reported(
    visitor: FunctionAnalysisVisitor,
    thresholds: Metrics,
    ceiling: int,
) -> bool {
    normalized_score(raw_score(visitor, thresholds), ceiling) > thresholds.total() / 4
}

/// The normalized score is the integer nearest to ten times the ratio: below
/// 10 it is within one half of it, and it is 10 from nine and a half on.
pub proof fn lemma_normalized_score_is_nearest(raw: int, ceiling: int)
    requires
        ceiling != 0,
        raw != 0,
        (raw > 0) == (ceiling > 0),
    ensures
        0 <= normalized_score(raw, ceiling) <= 10,
        normalized_score(raw, ceiling) < 10 ==> magnitude(ceiling) * (2 * normalized_score(
            raw,
            ceiling,
        ) - 1) <= 20 * magnitude(raw) < magnitude(ceiling) * (2 * normalized_score(raw, ceiling)
            + 1),
        normalized_score(raw, ceiling) == 10 ==> 20 * magnitude(raw) >= 19 * magnitude(ceiling),
{
    let r = magnitude(raw);
    let c = magnitude(ceiling);
    let rounded = (20 * r + c) / (2 * c);
    lemma_fundamental_div_mod(20 * r + c, 2 * c);
    assert(0 <= (20 * r + c) % (2 * c) < 2 * c);
    assert(rounded >= 0) by (nonlinear_arith)
        requires
            20 * r + c == (2 * c) * rounded + (20 * r + c) % (2 * c),
            (20 * r + c) % (2 * c) < 2 * c,
            c > 0,
            r > 0,
    ;
    assert((2 * c) * rounded == c * (2 * rounded)) by (nonlinear_arith);
    assert(c * (2 * rounded - 1) == c * (2 * rounded) - c) by (nonlinear_arith);
    assert(c * (2 * rounded + 1) == c * (2 * rounded) + c) by (nonlinear_arith);
    if rounded >= 10 {
        assert(c * (2 * rounded) >= c * 20) by (nonlinear_arith)
            requires
                rounded >= 10,
                c > 0,
        ;
    }
}

/// A function whose counts equal the thresholds has a raw score of zero, a
/// score of zero whatever the ceiling, and is not reported.
pub proof fn lemma_at_thresholds_not_reported(
    visitor: FunctionAnalysisVisitor,
    thresholds: Metrics,
    ceiling: int,
)
    requires
        visitor.cyclomatic_complexity == thresholds.cyclomatic_complexity,
        visitor.max_loop_depth == thresholds.loop_depth,
        visitor.arithmetic_operations == thresholds.arithmetic_operations,
        visitor.string_operations == thresholds.string_operations,
    ensures
        raw_score(visitor, thresholds) == 0,
        normalized_score(raw_score(visitor, thresholds), ceiling) == 0,
        !is_reported(visitor, thresholds, ceiling),
{
}

/// With a ceiling that is not negative, a higher raw score never gives a
/// lower score.
pub proof fn lemma_normalized_score_is_monotonic(low: int, high: int, ceiling: int)
    requires
        ceiling >= 0,
        low <= high,
    ensures
        normalized_score(low, ceiling) <= normalized_score(high, ceiling),
{
    if ceiling > 0 && low > 0 {
        lemma_div_is_ordered(20 * low + ceiling, 20 * high + ceiling, 2 * ceiling);
    } else if ceiling > 0 && high > 0 {
        lemma_normalized_score_is_nearest(high, ceiling);
    }
}

/// With a ceiling that is not negative, more arithmetic operations and all
/// else equal never give a lower score.
pub proof fn lemma_score_monotonic_in_arithmetic(
    fewer: FunctionAnalysisVisitor,
    more: FunctionAnalysisVisitor,
    thresholds: Metrics,
    ceiling: int,
)
    requires
        ceiling >= 0,
        fewer.arithmetic_operations <= more.arithmetic_operations,
        fewer.cyclomatic_complexity == more.cyclomatic_complexity,
        fewer.max_loop_depth == more.max_loop_depth,
        fewer.string_operations == more.string_operations,
    ensures
        normalized_score(raw_score(fewer, thresholds), ceiling) <= normalized_score(
            raw_score(more, thresholds),
            ceiling,
        ),
{
    lemma_normalized_score_is_monotonic(
        raw_score(fewer, thresholds),
        raw_score(more, thresholds),
        ceiling,
    );
}

/// The half points that one metric scores: its excess over the threshold,
/// times its weight.
pub fn _calculate_metric_score(actual: usize, threshold: usize, weight: u8) -> (half_points: u128)
    ensures
        half_points == weight * excess(actual as int, threshold as int),
        half_points < HALF_POINT_LIMIT,
{
    let over: usize = if actual > threshold {
        actual - threshold
    } else {
        0
    };
    assert(over * weight <= 0xffff_ffff_ffff_ffff * 0xff) by (nonlinear_arith)
        requires
            0 <= over <= 0xffff_ffff_ffff_ffff,
            0 <= weight <= 0xff,
    ;
    assert(over * weight == weight * over) by (nonlinear_arith);
    over as u128 * weight as u128
}

/// The score of a function between 0 and 10, from its counts, the thresholds
/// and the ceiling.
pub fn _get_metrics_score(
    visitor: &FunctionAnalysisVisitor,
    thresholds: &Metrics,
    max_possible_score: &MaxScores,
) -> (score: usize)
    ensures
        score == normalized_score(raw_score(*visitor, *thresholds), max_possible_score.ceiling()),
        score <= 10,
{
    let cyclomatic_score = _calculate_metric_score(
        visitor.cyclomatic_complexity,
        thresholds.cyclomatic_complexity,
        WEIGHT_CYCLOMATIC,
    );
    let loop_score = _calculate_metric_score(
        visitor.max_loop_depth,
        thresholds.loop_depth,
        WEIGHT_LOOP,
    );
    let arithmetic_score = _calculate_metric_score(
        visitor.arithmetic_operations,
        thresholds.arithmetic_operations,
        WEIGHT_ARITHMETIC,
    );
    let string_penalty = _calculate_metric_score(
        visitor.string_operations,
        thresholds.string_operations,
        WEIGHT_STRING,
    );
    let raw: i128 = (cyclomatic_score + loop_score + arithmetic_score) as i128
        - string_penalty as i128;
    let ceiling: i128 = max_possible_score.total();
    if ceiling == 0 || raw == 0 || (raw > 0) != (ceiling > 0) {
        return 0;
    }
    let r: i128 = if raw < 0 {
        -raw
    } else {
        raw
    };
    let c: i128 = if ceiling < 0 {
        -ceiling
    } else {
        ceiling
    };
    proof {
        lemma_normalized_score_is_nearest(raw as int, ceiling as int);
    }
    if r >= c {
        assert((20 * r + c) / (2 * c) >= 10) by {
            lemma_div_is_ordered(20 * c as int, 20 * r + c, 2 * c as int);
            assert((20 * c) / (2 * c) == 10) by (nonlinear_arith)
                requires
                    c > 0,
            ;
        }
        10
    } else {
        let rounded = (20 * r + c) / (2 * c);
        assert(rounded <= 10) by {
            lemma_div_is_ordered(20 * r + c, 21 * c as int, 2 * c as int);
            assert((21 * c) / (2 * c) == 10) by (nonlinear_arith)
                requires
                    c > 0,
            ;
        }
        rounded as usize
    }
}

/// The ceiling to score with. One read back from the cache is used as it is.
/// Where none has been stored, the ceiling follows from the thresholds and is
/// to be stored. Where the cache cannot be used, the ceiling follows from the
/// thresholds and the cache is left as it is.
pub fn _get_max_possible_score(thresholds: &Metrics, cached: CachedScores) -> (calibration:
    Calibration)
    ensures
        match cached {
            CachedScores::Found(scores) => calibration.scores == scores && !calibration.store,
            CachedScores::Absent => calibration.scores.is_ceiling_of(*thresholds)
                && calibration.store,
            CachedScores::Unavailable => calibration.scores.is_ceiling_of(*thresholds)
                && !calibration.store,
        },
{
    match cached {
        CachedScores::Found(scores) => Calibration { scores, store: false },
        CachedScores::Absent => Calibration {
            scores: MaxScores::from_thresholds(thresholds),
            store: true,
        },
        CachedScores::Unavailable => Calibration {
            scores: MaxScores::from_thresholds(thresholds),
            store: false,
        },
    }
}

/// Scores a function from its counts, and gives the finding if the score is
/// above the average of the thresholds.
pub fn try_report_function(
    visitor: &FunctionAnalysisVisitor,
    span: Span,
    thresholds: &Metrics,
    max_possible_score: &MaxScores,
) -> (finding: Option<Finding>)
    ensures
        finding is Some <==> is_reported(*visitor, *thresholds, max_possible_score.ceiling()),
        finding matches Some(f) ==> f.span == span && f.score == normalized_score(
            raw_score(*visitor, *thresholds),
            max_possible_score.ceiling(),
        ),
{
    let metrics_score = _get_metrics_score(visitor, thresholds, max_possible_score);
    if metrics_score > thresholds.average() {
        Some(Finding { span, score: metrics_score })
    } else {
        None
    }
}

} // verus!
