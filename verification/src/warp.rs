//! The Warp pipeline orchestrator.
//!
//! A full run is strictly sequential: plan, code, confirm, gate, execute.
//! The stages that talk to the outside world — model calls, the operator's
//! confirmation line, the subprocess — are driven by the surrounding
//! application; every decision between them is made here.  Cancellation is
//! checked at exactly one point, after coding and before execution, and a
//! command matching a dangerous pattern is refused without ever reaching
//! the shell runner.

use vstd::prelude::*;
use crate::agents::{fallback_command_spec, fallback_plan_spec, resolved_spec, CoderAgent,
    PlannerAgent};
use crate::config::Config;
use crate::pipeline::PipelineResult;
use crate::safety::{default_dangerous_patterns, matches_any_pattern};
use crate::shell::{ExecutionResult, ShellRunner};
use crate::text::{lower_char, trim_seq, trim_str};

verus! {

/// Configuration for the Warp pipeline.
#[derive(Clone, Debug)]
pub struct WarpConfig {
    pub planner_model: String,
    pub coder_model: String,
    pub fallback_model: String,
    pub ollama_host: String,
    pub timeout_seconds: u64,
    pub streaming: bool,
}

/// The default pipeline configuration, field by field.
pub open spec fn is_default_warp(c: WarpConfig) -> bool {
    c.planner_model@ == "phi4"@ && c.coder_model@ == "codellama"@ && c.fallback_model@
        == "gemma3"@ && c.ollama_host@ == "http://localhost:11434"@ && c.timeout_seconds == 30
        && c.streaming == true
}

impl Default for WarpConfig {
    fn default() -> (r: Self)
        ensures
            is_default_warp(r),
    {
        WarpConfig {
            planner_model: String::from_str("phi4"),
            coder_model: String::from_str("codellama"),
            fallback_model: String::from_str("gemma3"),
            ollama_host: String::from_str("http://localhost:11434"),
            timeout_seconds: 30,
            streaming: true,
        }
    }
}

/// What the orchestrator does with a coded command.
#[derive(Clone, Copy, Debug, PartialEq, Eq, Structural)]
pub enum GateDecision {
    /// The operator declined; terminal, successful non-execution.
    Cancelled,
    /// The command matched a dangerous pattern; terminal failure, the
    /// command is never handed to the shell runner.
    Refused,
    /// Confirmed and screened; hand the command to the shell runner.
    Proceed,
}

/// Whether the operator's answer counts as acceptance: its trimmed text
/// starts with `y` or `Y`.
pub open spec fn accepts_spec(answer: Seq<char>) -> bool {
    trim_seq(answer).len() > 0 && lower_char(trim_seq(answer)[0]) == 'y'
}

/// Core Warp pipeline that orchestrates the two agents and the shell
/// runner.
#[derive(Clone, Debug)]
pub struct WarpPipeline {
    pub planner: PlannerAgent,
    pub coder: CoderAgent,
    pub shell_runner: ShellRunner,
    pub config: WarpConfig,
}

impl WarpPipeline {
    /// Create a new Warp pipeline instance with the default pipeline
    /// configuration.
    pub fn new(_config: &Config) -> (r: Self)
        ensures
            is_default_warp(r.config),
            r.planner.ollama_host@ == r.config.ollama_host@,
            r.planner.model@ == r.config.planner_model@,
            r.planner.fallback_model@ == r.config.fallback_model@,
            r.coder.ollama_host@ == r.config.ollama_host@,
            r.coder.model@ == r.config.coder_model@,
            r.coder.fallback_model@ == r.config.fallback_model@,
            r.shell_runner.streaming == r.config.streaming,
    {
        let warp_config = WarpConfig::default();
        let planner = PlannerAgent::new(
            warp_config.ollama_host.clone(),
            warp_config.planner_model.clone(),
            warp_config.fallback_model.clone(),
        );
        let coder = CoderAgent::new(
            warp_config.ollama_host.clone(),
            warp_config.coder_model.clone(),
            warp_config.fallback_model.clone(),
        );
        let shell_runner = ShellRunner::new(warp_config.streaming);
        WarpPipeline { planner, coder, shell_runner, config: warp_config }
    }

    /// Whether the operator's confirmation line accepts execution: any
    /// answer whose trimmed text starts with `y`, case-insensitively;
    /// everything else, the empty line included, declines.
    pub fn confirmation_accepted(&self, answer: &str) -> (r: bool)
        ensures
            r == accepts_spec(answer@),
    {
        let t = trim_str(answer);
        let n = t.as_str().unicode_len();
        if n == 0 {
            return false;
        }
        let c = t.as_str().get_char(0);
        crate::text::lower_char_exec(c) == 'y'
    }

    /// The safety gate between coding and execution: a declined
    /// confirmation cancels, a dangerous command is refused, anything else
    /// proceeds.  Exactly one of the three holds.
    pub fn gate(&self, command: &str, confirmed: bool) -> (r: GateDecision)
        ensures
            !confirmed ==> r == GateDecision::Cancelled,
            confirmed && matches_any_pattern(command@, default_dangerous_patterns())
                ==> r == GateDecision::Refused,
            confirmed && !matches_any_pattern(command@, default_dangerous_patterns())
                ==> r == GateDecision::Proceed,
    {
        if !confirmed {
            GateDecision::Cancelled
        } else if self.shell_runner.is_dangerous_command(command) {
            GateDecision::Refused
        } else {
            GateDecision::Proceed
        }
    }

    /// The terminal result of a declined confirmation: cancelled, with no
    /// execution outcome.
    pub fn cancelled_result(&self, input: &str, plan: String, command: String) -> (r:
        PipelineResult)
        ensures
            r.original_input@ == input@,
            r.plan@ == plan@,
            r.command@ == command@,
            r.execution_result is None,
            r.cancelled == true,
    {
        PipelineResult {
            original_input: String::from_str(input),
            plan,
            command,
            execution_result: None,
            cancelled: true,
        }
    }

    /// The terminal result of an executed command: the outcome is stored
    /// verbatim, success or error alike, and the run is not cancelled.
    pub fn completed_result(
        &self,
        input: &str,
        plan: String,
        command: String,
        outcome: ExecutionResult,
    ) -> (r: PipelineResult)
        ensures
            r.original_input@ == input@,
            r.plan@ == plan@,
            r.command@ == command@,
            r.execution_result == Some(outcome),
            r.cancelled == false,
    {
        PipelineResult {
            original_input: String::from_str(input),
            plan,
            command,
            execution_result: Some(outcome),
            cancelled: false,
        }
    }

    /// The planning and coding stages only, as a pure composition of the
    /// two resolution ladders over the model answers the caller obtained;
    /// no confirmation is read and the shell runner is never consulted.
    pub fn dry_run(
        &self,
        input: &str,
        plan_primary: Option<&String>,
        plan_fallback: Option<&String>,
        command_primary: Option<&String>,
        command_fallback: Option<&String>,
    ) -> (r: (String, String))
        ensures
            r.0@ == resolved_spec(
                fallback_plan_spec(input@),
                match plan_primary {
                    Some(p) => Some(p@),
                    None => None,
                },
                match plan_fallback {
                    Some(f) => Some(f@),
                    None => None,
                },
            ),
            r.1@ == resolved_spec(
                fallback_command_spec(r.0@),
                match command_primary {
                    Some(p) => Some(p@),
                    None => None,
                },
                match command_fallback {
                    Some(f) => Some(f@),
                    None => None,
                },
            ),
    {
        let plan = self.planner.resolve_plan(input, plan_primary, plan_fallback);
        let command = self.coder.resolve_command(
            plan.as_str(),
            command_primary,
            command_fallback,
        );
        (plan, command)
    }
}

} // verus!
