//! Check results, severities and the two-tier threshold policy.

use crate::duration::{duration_lt, not_longer, shorter};
use time::Duration;
use vstd::prelude::*;

verus! {

/// How bad a finding is. `Okay` is the mildest, `Critical` the worst.
#[derive(Clone, Copy, Debug, PartialEq, Eq, PartialOrd, Ord, Hash, Structural)]
pub enum Severity {
    Okay,
    Warning,
    Critical,
}

impl Severity {
    /// The place of a severity in the order `Okay < Warning < Critical`.
    pub open spec fn rank(self) -> int {
        match self {
            Severity::Okay => 0,
            Severity::Warning => 1,
            Severity::Critical => 2,
        }
    }

    /// The severity of a value under a lower-bound policy, from the outcome of
    /// the two comparisons: the critical boundary is looked at first.
    pub open spec fn below(below_critical: bool, below_warning: bool) -> Severity {
        if below_critical {
            Severity::Critical
        } else if below_warning {
            Severity::Warning
        } else {
            Severity::Okay
        }
    }

    /// Classifies a value of which it is known whether it lies below the
    /// critical and below the warning boundary.
    pub fn from_below(below_critical: bool, below_warning: bool) -> (s: Severity)
        ensures
            s == Severity::below(below_critical, below_warning),
    {
        if below_critical {
            Severity::Critical
        } else if below_warning {
            Severity::Warning
        } else {
            Severity::Okay
        }
    }

    /// The worse of two severities.
    pub fn worse_of(self, other: Severity) -> (s: Severity)
        ensures
            s == self || s == other,
            s.rank() >= self.rank(),
            s.rank() >= other.rank(),
    {
        match (self, other) {
            (Severity::Critical, _) => Severity::Critical,
            (_, Severity::Critical) => Severity::Critical,
            (Severity::Warning, _) => Severity::Warning,
            (_, Severity::Warning) => Severity::Warning,
            _ => Severity::Okay,
        }
    }
}

/// A two-tier policy for a quantity that gets worse as it gets smaller.
#[derive(Clone, Copy, Debug)]
pub struct LowerLevels<T> {
    /// Values below this boundary are at least a warning.
    pub warning_below: T,
    /// Values below this boundary are critical.
    pub critical_below: T,
}

impl LowerLevels<Duration> {
    /// The critical boundary is not above the warning boundary.
    pub open spec fn wf(&self) -> bool {
        not_longer(self.critical_below, self.warning_below)
    }

    /// The severity of a span under this policy. A span equal to a boundary
    /// is not below it.
    pub open spec fn classify(&self, value: Duration) -> Severity {
        Severity::below(shorter(value, self.critical_below), shorter(value, self.warning_below))
    }

    /// A policy from its two boundaries.
    pub fn warn_crit(warning_below: Duration, critical_below: Duration) -> (levels: Self)
        ensures
            levels.warning_below == warning_below,
            levels.critical_below == critical_below,
    {
        LowerLevels { warning_below, critical_below }
    }

    /// Whether the critical boundary is not above the warning boundary.
    pub fn is_well_formed(&self) -> (b: bool)
        ensures
            b == self.wf(),
    {
        !duration_lt(&self.warning_below, &self.critical_below)
    }

    /// Classifies a span against the policy.
    pub fn evaluate(&self, value: &Duration) -> (s: Severity)
        ensures
            s == self.classify(*value),
    {
        let below_critical = duration_lt(value, &self.critical_below);
        let below_warning = duration_lt(value, &self.warning_below);
        Severity::from_below(below_critical, below_warning)
    }

    /// A shorter span is never classified milder than a longer one under the
    /// same policy, whatever the policy's boundaries are.
    pub proof fn lemma_classify_monotonic(&self, shorter_span: Duration, longer_span: Duration)
        requires
            not_longer(shorter_span, longer_span),
        ensures
            self.classify(shorter_span).rank() >= self.classify(longer_span).rank(),
    {
    }

    /// A span equal to the warning boundary is `Okay` under a well-formed policy.
    pub proof fn lemma_at_warning_boundary(&self, value: Duration)
        requires
            self.wf(),
            !shorter(value, self.warning_below),
            !shorter(self.warning_below, value),
        ensures
            self.classify(value) == Severity::Okay,
    {
    }

    /// A span equal to the critical boundary is a `Warning` where the critical
    /// boundary lies strictly below the warning boundary.
    pub proof fn lemma_at_critical_boundary(&self, value: Duration)
        requires
            shorter(self.critical_below, self.warning_below),
            !shorter(value, self.critical_below),
            !shorter(self.critical_below, value),
        ensures
            self.classify(value) == Severity::Warning,
    {
    }
}

/// The outcome of one check: a severity and a message for the operator.
#[derive(Clone, Debug)]
pub struct CheckResult {
    pub severity: Severity,
    pub message: String,
}

/// A check result as a plain value: its severity and the text of its message.
pub struct Verdict {
    pub severity: Severity,
    pub message: Seq<char>,
}

impl View for CheckResult {
    type V = Verdict;

    open spec fn view(&self) -> Verdict {
        Verdict { severity: self.severity, message: self.message@ }
    }
}

impl CheckResult {
    /// A result of severity `Okay`.
    pub fn ok(message: String) -> (r: CheckResult)
        ensures
            r@ == (Verdict { severity: Severity::Okay, message: message@ }),
    {
        CheckResult { severity: Severity::Okay, message }
    }

    /// A result of severity `Warning`.
    pub fn warn(message: String) -> (r: CheckResult)
        ensures
            r@ == (Verdict { severity: Severity::Warning, message: message@ }),
    {
        CheckResult { severity: Severity::Warning, message }
    }

    /// A result of severity `Critical`.
    pub fn crit(message: String) -> (r: CheckResult)
        ensures
            r@ == (Verdict { severity: Severity::Critical, message: message@ }),
    {
        CheckResult { severity: Severity::Critical, message }
    }

    /// A result whose severity is that of `value` under `levels`.
    pub fn from_levels(
        levels: &LowerLevels<Duration>,
        value: &Duration,
        message: String,
    ) -> (r: CheckResult)
        ensures
            r@ == (Verdict { severity: levels.classify(*value), message: message@ }),
    {
        CheckResult { severity: levels.evaluate(value), message }
    }
}

} // verus!
