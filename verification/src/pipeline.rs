//! Pipeline results and running statistics.
//!
//! A completed pipeline invocation is either cancelled (no execution
//! outcome) or carries exactly one `ExecutionResult`.  `PipelineStats`
//! aggregates many results incrementally; durations are whole milliseconds
//! and the running average is the total duration divided by the number of
//! results folded in.

use vstd::prelude::*;
use crate::shell::ExecutionResult;
use crate::text::{duration_2dp, format_duration_2dp, i32_to_string, int_str};

verus! {

/// Result of a complete Warp pipeline execution.
#[derive(Clone, Debug)]
pub struct PipelineResult {
    pub original_input: String,
    pub plan: String,
    pub command: String,
    pub execution_result: Option<ExecutionResult>,
    pub cancelled: bool,
}

impl PipelineResult {
    /// A successful run: not cancelled, and the command exited cleanly.
    pub open spec fn is_success_spec(self) -> bool {
        !self.cancelled && match self.execution_result {
            Some(ExecutionResult::Success { .. }) => true,
            _ => false,
        }
    }

    /// The execution duration carried by the outcome, if any.
    pub open spec fn duration_spec(self) -> Option<u64> {
        match self.execution_result {
            Some(ExecutionResult::Success { duration_ms, .. }) => Some(duration_ms),
            Some(ExecutionResult::Error { duration_ms, .. }) => Some(duration_ms),
            None => None,
        }
    }

    /// The exit code of the execution: `0` on success, the process code on
    /// error, nothing when the command never ran.
    pub open spec fn exit_code_spec(self) -> Option<i32> {
        match self.execution_result {
            Some(ExecutionResult::Success { .. }) => Some(0),
            Some(ExecutionResult::Error { exit_code, .. }) => Some(exit_code),
            None => None,
        }
    }

    /// Check if the pipeline execution was successful.  A cancelled run is
    /// never successful, whatever the outcome field holds.
    pub fn is_success(&self) -> (r: bool)
        ensures
            r == self.is_success_spec(),
            self.cancelled ==> !r,
    {
        if self.cancelled {
            return false;
        }
        match &self.execution_result {
            Some(ExecutionResult::Success { .. }) => true,
            Some(ExecutionResult::Error { .. }) => false,
            None => false,
        }
    }

    /// The total execution time in milliseconds, if the command ran.
    pub fn execution_duration(&self) -> (r: Option<u64>)
        ensures
            r == self.duration_spec(),
    {
        match &self.execution_result {
            Some(ExecutionResult::Success { duration_ms, .. }) => Some(*duration_ms),
            Some(ExecutionResult::Error { duration_ms, .. }) => Some(*duration_ms),
            None => None,
        }
    }

    /// The captured standard output, if the run succeeded.
    pub fn output(&self) -> (r: Option<&str>)
        ensures
            match r {
                Some(s) => self.execution_result matches Some(ExecutionResult::Success {
                    stdout,
                    ..
                }) && s@ == stdout@,
                None => !(self.execution_result matches Some(
                    ExecutionResult::Success { .. },
                )),
            },
    {
        match &self.execution_result {
            Some(ExecutionResult::Success { stdout, .. }) => Some(stdout.as_str()),
            _ => None,
        }
    }

    /// The captured error text: the error stream of a failed run, or the
    /// non-empty error stream of a successful one.
    pub fn error(&self) -> (r: Option<&str>)
        ensures
            match r {
                Some(s) => (self.execution_result matches Some(ExecutionResult::Error {
                    stderr,
                    ..
                }) && s@ == stderr@) || (self.execution_result matches Some(
                    ExecutionResult::Success { stderr, .. },
                ) && s@ == stderr@ && stderr@.len() > 0),
                None => (match self.execution_result {
                    Some(ExecutionResult::Error { .. }) => false,
                    Some(ExecutionResult::Success { stderr, .. }) => stderr@.len() == 0,
                    None => true,
                }),
            },
    {
        match &self.execution_result {
            Some(ExecutionResult::Error { stderr, .. }) => Some(stderr.as_str()),
            Some(ExecutionResult::Success { stderr, .. }) => {
                if stderr.as_str().unicode_len() > 0 {
                    Some(stderr.as_str())
                } else {
                    None
                }
            },
            None => None,
        }
    }

    /// The exit code, if the command was executed.
    pub fn exit_code(&self) -> (r: Option<i32>)
        ensures
            r == self.exit_code_spec(),
    {
        match &self.execution_result {
            Some(ExecutionResult::Success { .. }) => Some(0),
            Some(ExecutionResult::Error { exit_code, .. }) => Some(*exit_code),
            None => None,
        }
    }

    /// The one-line human summary of this result.
    pub open spec fn summary_spec(self) -> Seq<char> {
        if self.cancelled {
            "Pipeline cancelled by user"@
        } else {
            match self.execution_result {
                Some(ExecutionResult::Success { duration_ms, .. }) => {
                    "✅ Command executed successfully in "@ + duration_2dp(duration_ms as int)
                        + "s"@
                },
                Some(ExecutionResult::Error { exit_code, duration_ms, .. }) => {
                    "❌ Command failed with exit code "@ + int_str(exit_code as int)
                        + " after "@ + duration_2dp(duration_ms as int) + "s"@
                },
                None => "⚠️ Command was not executed"@,
            }
        }
    }

    /// Generate a summary of the pipeline execution.
    pub fn summary(&self) -> (r: String)
        ensures
            r@ == self.summary_spec(),
    {
        if self.cancelled {
            return String::from_str("Pipeline cancelled by user");
        }
        match &self.execution_result {
            Some(ExecutionResult::Success { duration_ms, .. }) => {
                let mut s = String::from_str("✅ Command executed successfully in ");
                let d = format_duration_2dp(*duration_ms);
                s.append(d.as_str());
                s.append("s");
                s
            },
            Some(ExecutionResult::Error { exit_code, duration_ms, .. }) => {
                let mut s = String::from_str("❌ Command failed with exit code ");
                let c = i32_to_string(*exit_code);
                s.append(c.as_str());
                s.append(" after ");
                let d = format_duration_2dp(*duration_ms);
                s.append(d.as_str());
                s.append("s");
                s
            },
            None => String::from_str("⚠️ Command was not executed"),
        }
    }
}

/// Pipeline execution statistics.
#[derive(Clone, Debug)]
pub struct PipelineStats {
    pub total_executions: usize,
    pub successful_executions: usize,
    pub failed_executions: usize,
    pub cancelled_executions: usize,
    pub total_duration_ms: u64,
    pub average_duration_ms: u64,
    pub most_common_commands: Vec<(String, usize)>,
}

impl PipelineStats {
    /// Well-formedness: the three outcome counters partition the total.
    pub open spec fn wf(self) -> bool {
        self.successful_executions + self.failed_executions + self.cancelled_executions
            == self.total_executions
    }

    /// The freshly constructed, all-zero statistics.
    pub open spec fn is_zeroed(self) -> bool {
        self.total_executions == 0 && self.successful_executions == 0
            && self.failed_executions == 0 && self.cancelled_executions == 0
            && self.total_duration_ms == 0 && self.average_duration_ms == 0
            && self.most_common_commands@.len() == 0
    }

    pub fn new() -> (r: Self)
        ensures
            r.is_zeroed(),
            r.wf(),
    {
        PipelineStats {
            total_executions: 0,
            successful_executions: 0,
            failed_executions: 0,
            cancelled_executions: 0,
            total_duration_ms: 0,
            average_duration_ms: 0,
            most_common_commands: Vec::new(),
        }
    }

    /// The statistics after folding one more result in: the total grows by
    /// one, exactly one of the three outcome counters grows by one, and a
    /// present duration is added to the running total, with the average
    /// recomputed as total duration over total count.
    pub open spec fn updated_with(self, result: PipelineResult) -> PipelineStats {
        let total = (self.total_executions + 1) as usize;
        let with_counts = PipelineStats {
            total_executions: total,
            successful_executions: if !result.cancelled && result.is_success_spec() {
                (self.successful_executions + 1) as usize
            } else {
                self.successful_executions
            },
            failed_executions: if !result.cancelled && !result.is_success_spec() {
                (self.failed_executions + 1) as usize
            } else {
                self.failed_executions
            },
            cancelled_executions: if result.cancelled {
                (self.cancelled_executions + 1) as usize
            } else {
                self.cancelled_executions
            },
            ..self
        };
        match result.duration_spec() {
            Some(d) => PipelineStats {
                total_duration_ms: (self.total_duration_ms + d) as u64,
                average_duration_ms: (((self.total_duration_ms + d) as u64) / (total as u64)) as u64,
                ..with_counts
            },
            None => with_counts,
        }
    }

    /// Update statistics with a new pipeline result.
    pub fn update(&mut self, result: &PipelineResult)
        requires
            old(self).wf(),
            old(self).total_executions < usize::MAX,
            old(self).total_duration_ms + (match result.duration_spec() {
                Some(d) => d as int,
                None => 0,
            }) <= u64::MAX,
        ensures
            *final(self) == old(self).updated_with(*result),
            final(self).wf(),
    {
        self.total_executions = self.total_executions + 1;
        if result.cancelled {
            self.cancelled_executions = self.cancelled_executions + 1;
        } else if result.is_success() {
            self.successful_executions = self.successful_executions + 1;
        } else {
            self.failed_executions = self.failed_executions + 1;
        }
        match result.execution_duration() {
            Some(d) => {
                self.total_duration_ms = self.total_duration_ms + d;
                self.average_duration_ms = self.total_duration_ms / (self.total_executions as u64);
            },
            None => {},
        }
    }

    /// Success rate in whole percent, truncated; `0` when nothing ran yet.
    pub fn success_rate(&self) -> (r: u64)
        requires
            self.wf(),
        ensures
            self.total_executions == 0 ==> r == 0,
            self.total_executions > 0 ==> r == (self.successful_executions * 100)
                / (self.total_executions as int),
    {
        if self.total_executions == 0 {
            return 0;
        }
        let num: u128 = (self.successful_executions as u128) * 100;
        let rate = num / (self.total_executions as u128);
        proof {
            let s = self.successful_executions as int;
            let t = self.total_executions as int;
            assert(s * 100 / t <= 100) by (nonlinear_arith)
                requires
                    0 < t,
                    0 <= s <= t,
            ;
        }
        rate as u64
    }
}

/// `init` after folding in each result of `results`, oldest first.
pub open spec fn stats_after(init: PipelineStats, results: Seq<PipelineResult>) -> PipelineStats
    decreases results.len(),
{
    if results.len() == 0 {
        init
    } else {
        stats_after(init.updated_with(results[0]), results.drop_first())
    }
}

/// The sum of the durations of `results`, counting absent durations as zero.
pub open spec fn duration_sum(results: Seq<PipelineResult>) -> int
    decreases results.len(),
{
    if results.len() == 0 {
        0
    } else {
        (match results[0].duration_spec() {
            Some(d) => d as int,
            None => 0,
        }) + duration_sum(results.drop_first())
    }
}

/// Folding `n` results that all carry a duration into fresh statistics
/// yields `total_executions == n` and an average that is the integer mean
/// of the durations.
pub proof fn lemma_average_is_mean(init: PipelineStats, results: Seq<PipelineResult>)
    requires
        init.is_zeroed(),
        results.len() > 0,
        forall|i: int| 0 <= i < results.len() ==> (#[trigger] results[i]).duration_spec() is Some,
        results.len() <= usize::MAX,
        duration_sum(results) <= u64::MAX,
    ensures
        stats_after(init, results).total_executions == results.len(),
        stats_after(init, results).total_duration_ms == duration_sum(results),
        stats_after(init, results).average_duration_ms == duration_sum(results) as u64
            / (results.len() as u64),
{
    lemma_stats_fold(init, results);
}

proof fn lemma_stats_fold(init: PipelineStats, results: Seq<PipelineResult>)
    requires
        forall|i: int| 0 <= i < results.len() ==> (#[trigger] results[i]).duration_spec() is Some,
        init.total_executions + results.len() <= usize::MAX,
        init.total_duration_ms + duration_sum(results) <= u64::MAX,
    ensures
        stats_after(init, results).total_executions == init.total_executions + results.len(),
        stats_after(init, results).total_duration_ms == init.total_duration_ms + duration_sum(
            results,
        ),
        results.len() > 0 ==> stats_after(init, results).average_duration_ms == (
        init.total_duration_ms + duration_sum(results)) as u64 / ((init.total_executions
            + results.len()) as u64),
        results.len() == 0 ==> stats_after(init, results).average_duration_ms
            == init.average_duration_ms,
    decreases results.len(),
{
    if results.len() > 0 {
        let first = results[0];
        let next = init.updated_with(first);
        assert(duration_sum(results) == (match first.duration_spec() {
            Some(d) => d as int,
            None => 0,
        }) + duration_sum(results.drop_first()));
        lemma_duration_sum_nonneg(results.drop_first());
        lemma_stats_fold(next, results.drop_first());
    }
}

proof fn lemma_duration_sum_nonneg(results: Seq<PipelineResult>)
    ensures
        duration_sum(results) >= 0,
    decreases results.len(),
{
    if results.len() > 0 {
        lemma_duration_sum_nonneg(results.drop_first());
    }
}

} // verus!
