//! Threshold configuration for the four structural metrics.

use vstd::prelude::*;

verus! {

/// The largest value of each metric that a function may reach before it
/// starts to count towards its score.
#[derive(Clone, Copy, Debug, PartialEq, Eq, Structural)]
pub struct Metrics {
    pub cyclomatic_complexity: usize,
    pub loop_depth: usize,
    pub arithmetic_operations: usize,
    pub string_operations: usize,
}

impl Metrics {
    /// The sum of the four thresholds, as a mathematical integer.
    pub open spec fn total(self) -> int {
        self.cyclomatic_complexity + self.loop_depth + self.arithmetic_operations
            + self.string_operations
    }

    /// The default thresholds.
    pub fn new() -> (thresholds: Self)
        ensures
            thresholds.cyclomatic_complexity == 3,
            thresholds.loop_depth == 1,
            thresholds.arithmetic_operations == 3,
            thresholds.string_operations == 1,
    {
        Metrics {
            cyclomatic_complexity: 3,
            loop_depth: 1,
            arithmetic_operations: 3,
            string_operations: 1,
        }
    }

    /// The integer average of the four thresholds: the lowest score that is
    /// not worth reporting.
    pub fn average(&self) -> (average: usize)
        ensures
            average == self.total() / 4,
    {
        let total: u128 = self.cyclomatic_complexity as u128 + self.loop_depth as u128
            + self.arithmetic_operations as u128 + self.string_operations as u128;
        (total / 4) as usize
    }
}

} // verus!
