//! The calibrated ceiling of the raw score.
//!
//! Every weight of the score is a multiple of one half, so scores are held
//! exactly, as whole numbers of half points.

use vstd::prelude::*;
use crate::metrics::Metrics;

verus! {

/// The directory, under the root of a project, that holds the cached ceiling.
pub const CONFIG_DIRECTORY: &'static str = ".wasm-grate-config";

/// The file in `CONFIG_DIRECTORY` that holds the cached ceiling.
pub const MAX_SCORES_FILE: &'static str = "max_scores.json";

/// No part of a ceiling reaches this many half points.
pub const HALF_POINT_LIMIT: u128 = 0x1_0000_0000_0000_0000_0000;

/// Half points per unit of cyclomatic complexity: a weight of 0.5.
pub const WEIGHT_CYCLOMATIC: u8 = 1;

/// Half points per unit of arithmetic operations: a weight of 1.0.
pub const WEIGHT_ARITHMETIC: u8 = 2;

/// Half points per level of loop depth: a weight of 1.5.
pub const WEIGHT_LOOP: u8 = 3;

/// Half points per string operation: a penalty of 2.0.
pub const WEIGHT_STRING: u8 = 4;

/// The four parts of the ceiling, in half points.
#[derive(Clone, Copy, Debug)]
pub struct MaxScores {
    max_cyclomatic_score: u128,
    max_loop_score: u128,
    max_arithmetic_score: u128,
    max_string_penalty: u128,
}

/// The ceiling that a threshold configuration gives, in half points: the
/// weighted thresholds, less the weighted string threshold.
pub open spec fn ceiling_of(thresholds: Metrics) -> int {
    WEIGHT_CYCLOMATIC * thresholds.cyclomatic_complexity + WEIGHT_LOOP * thresholds.loop_depth
        + WEIGHT_ARITHMETIC * thresholds.arithmetic_operations - WEIGHT_STRING
        * thresholds.string_operations
}

impl MaxScores {
    #[verifier::type_invariant]
    spec fn within_limit(self) -> bool {
        &&& self.max_cyclomatic_score < HALF_POINT_LIMIT
        &&& self.max_loop_score < HALF_POINT_LIMIT
        &&& self.max_arithmetic_score < HALF_POINT_LIMIT
        &&& self.max_string_penalty < HALF_POINT_LIMIT
    }

    /// The most that cyclomatic complexity scores, in half points.
    pub closed spec fn cyclomatic(self) -> int {
        self.max_cyclomatic_score as int
    }

    /// The most that loop depth scores, in half points.
    pub closed spec fn looping(self) -> int {
        self.max_loop_score as int
    }

    /// The most that arithmetic scores, in half points.
    pub closed spec fn arithmetic(self) -> int {
        self.max_arithmetic_score as int
    }

    /// The penalty for strings at the threshold, in half points.
    pub closed spec fn string_penalty(self) -> int {
        self.max_string_penalty as int
    }

    /// The ceiling in half points: the three scores less the string penalty.
    pub open spec fn ceiling(self) -> int {
        self.cyclomatic() + self.looping() + self.arithmetic() - self.string_penalty()
    }

    /// Whether these are the parts that the thresholds give: each threshold
    /// times its weight.
    pub open spec fn is_ceiling_of(self, thresholds: Metrics) -> bool {
        &&& self.cyclomatic() == WEIGHT_CYCLOMATIC * thresholds.cyclomatic_complexity
        &&& self.looping() == WEIGHT_LOOP * thresholds.loop_depth
        &&& self.arithmetic() == WEIGHT_ARITHMETIC * thresholds.arithmetic_operations
        &&& self.string_penalty() == WEIGHT_STRING * thresholds.string_operations
    }

    /// A ceiling from its four parts, each in half points; nothing if a part
    /// is not below `HALF_POINT_LIMIT`.
    pub fn from_half_points(
        max_cyclomatic_score: u128,
        max_loop_score: u128,
        max_arithmetic_score: u128,
        max_string_penalty: u128,
    ) -> (scores: Option<MaxScores>)
        ensures
            scores is Some <==> max_cyclomatic_score < HALF_POINT_LIMIT && max_loop_score
                < HALF_POINT_LIMIT && max_arithmetic_score < HALF_POINT_LIMIT
                && max_string_penalty < HALF_POINT_LIMIT,
            scores matches Some(s) ==> s.cyclomatic() == max_cyclomatic_score && s.looping()
                == max_loop_score && s.arithmetic() == max_arithmetic_score
                && s.string_penalty() == max_string_penalty,
    {
        if max_cyclomatic_score < HALF_POINT_LIMIT && max_loop_score < HALF_POINT_LIMIT
            && max_arithmetic_score < HALF_POINT_LIMIT && max_string_penalty < HALF_POINT_LIMIT {
            Some(
                MaxScores {
                    max_cyclomatic_score,
                    max_loop_score,
                    max_arithmetic_score,
                    max_string_penalty,
                },
            )
        } else {
            None
        }
    }

    /// The ceiling that the thresholds give.
    pub fn from_thresholds(thresholds: &Metrics) -> (scores: MaxScores)
        ensures
            scores.is_ceiling_of(*thresholds),
            scores.ceiling() == ceiling_of(*thresholds),
    {
        MaxScores {
            max_cyclomatic_score: _calculate_max_metric_score(
                thresholds.cyclomatic_complexity,
                WEIGHT_CYCLOMATIC,
            ),
            max_loop_score: _calculate_max_metric_score(thresholds.loop_depth, WEIGHT_LOOP),
            max_arithmetic_score: _calculate_max_metric_score(
                thresholds.arithmetic_operations,
                WEIGHT_ARITHMETIC,
            ),
            max_string_penalty: _calculate_max_metric_score(
                thresholds.string_operations,
                WEIGHT_STRING,
            ),
        }
    }

    pub fn max_cyclomatic_score(&self) -> (half_points: u128)
        ensures
            half_points == self.cyclomatic(),
            half_points < HALF_POINT_LIMIT,
    {
        proof {
            use_type_invariant(self);
        }
        self.max_cyclomatic_score
    }

    pub fn max_loop_score(&self) -> (half_points: u128)
        ensures
            half_points == self.looping(),
            half_points < HALF_POINT_LIMIT,
    {
        proof {
            use_type_invariant(self);
        }
        self.max_loop_score
    }

    pub fn max_arithmetic_score(&self) -> (half_points: u128)
        ensures
            half_points == self.arithmetic(),
            half_points < HALF_POINT_LIMIT,
    {
        proof {
            use_type_invariant(self);
        }
        self.max_arithmetic_score
    }

    pub fn max_string_penalty(&self) -> (half_points: u128)
        ensures
            half_points == self.string_penalty(),
            half_points < HALF_POINT_LIMIT,
    {
        proof {
            use_type_invariant(self);
        }
        self.max_string_penalty
    }

    /// The ceiling in half points.
    pub fn total(&self) -> (half_points: i128)
        ensures
            half_points == self.ceiling(),
            -HALF_POINT_LIMIT < half_points < 3 * HALF_POINT_LIMIT,
    {
        proof {
            use_type_invariant(self);
        }
        (self.max_cyclomatic_score + self.max_loop_score + self.max_arithmetic_score) as i128
            - self.max_string_penalty as i128
    }
}

/// The most half points that a metric scores at its threshold.
pub fn _calculate_max_metric_score(threshold: usize, weight: u8) -> (half_points: u128)
    ensures
        half_points == threshold * weight,
        half_points < HALF_POINT_LIMIT,
{
    assert(threshold * weight <= 0xffff_ffff_ffff_ffff * 0xff) by (nonlinear_arith)
        requires
            0 <= threshold <= 0xffff_ffff_ffff_ffff,
            0 <= weight <= 0xff,
    ;
    threshold as u128 * weight as u128
}

} // verus!
