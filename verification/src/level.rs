//! Severity of a log event.
use vstd::prelude::*;

verus! {

/// Severity of a log event, listed from the most severe to the least.
#[derive(Clone, Copy, Debug, PartialEq, Eq, Structural)]
pub enum Level {
    /// The program cannot go on.
    Critical,
    /// An operation failed.
    Error,
    /// Something unexpected that the program survives.
    Warning,
    /// A notable event of normal operation.
    Info,
    /// Detail for diagnosing a problem.
    Debug,
    /// The finest detail.
    Trace,
}

impl Level {
    /// Place on the scale of severity: 0 for `Critical`, one more for each step
    /// towards `Trace`.
    pub open spec fn rank(self) -> nat {
        match self {
            Level::Critical => 0,
            Level::Error => 1,
            Level::Warning => 2,
            Level::Info => 3,
            Level::Debug => 4,
            Level::Trace => 5,
        }
    }

    /// Whether `self` is as severe as `threshold`, or more severe.
    pub open spec fn at_least(self, threshold: Level) -> bool {
        self.rank() <= threshold.rank()
    }

    /// Place on the scale of severity, for use in specifications.
    pub open spec fn spec_as_usize(&self) -> usize {
        self.rank() as usize
    }

    /// Place on the scale of severity: 0 for `Critical`, 5 for `Trace`.
    #[verifier::when_used_as_spec(spec_as_usize)]
    pub fn as_usize(&self) -> (n: usize)
        ensures
            n == self.rank(),
    {
        match self {
            Level::Critical => 0,
            Level::Error => 1,
            Level::Warning => 2,
            Level::Info => 3,
            Level::Debug => 4,
            Level::Trace => 5,
        }
    }

    /// Whether `self` is as severe as `level`, or more severe.
    pub fn is_at_least(&self, level: Level) -> (yes: bool)
        ensures
            yes == self.at_least(level),
    {
        self.as_usize() <= level.as_usize()
    }

    /// Severity is a total order: any two levels compare, a level is at least
    /// itself, and two levels that are each at least the other are the same.
    pub proof fn lemma_total_order(a: Level, b: Level)
        ensures
            a.at_least(a),
            a.at_least(b) || b.at_least(a),
            a.at_least(b) && b.at_least(a) ==> a == b,
    {
    }

    /// What is at least as severe as something at least as severe as `c` is at
    /// least as severe as `c`.
    pub proof fn lemma_at_least_transitive(a: Level, b: Level, c: Level)
        requires
            a.at_least(b),
            b.at_least(c),
        ensures
            a.at_least(c),
    {
    }

    /// `Critical` is at least as severe as every level, and every level is at
    /// least as severe as `Trace`.
    pub proof fn lemma_extremes(a: Level)
        ensures
            Level::Critical.at_least(a),
            a.at_least(Level::Trace),
    {
    }
}

} // verus!
