use agentic::agents::{CoderAgent, PlannerAgent};
use agentic::pipeline::{PipelineResult, PipelineStats};
use agentic::safety::AgenticConfig;
use agentic::shell::{ExecutionResult, ShellRunner};
use agentic::warp::{GateDecision, WarpConfig, WarpPipeline};

fn default_pipeline() -> WarpPipeline {
    let config = agentic::config::Config::with_config_dir("/tmp/agentic-test");
    WarpPipeline::new(&config)
}

#[test]
fn test_default_config() {
    let config = AgenticConfig::default();

    assert_eq!(config.warp.models.planner, "phi4");
    assert_eq!(config.warp.models.coder, "codellama");
    assert_eq!(config.warp.models.fallback, "gemma3");
    assert!(config.warp.safety.enable_safety_checks);
    assert!(config.warp.execution.streaming);
    assert!(!config.warp.execution.auto_confirm);
}

#[test]
fn config_test_dangerous_command_detection() {
    let config = AgenticConfig::default();

    assert!(config.is_dangerous_command("rm -rf /"));
    assert!(config.is_dangerous_command("shutdown now"));
    assert!(!config.is_dangerous_command("ls -la"));
    assert!(!config.is_dangerous_command("npm install"));
}

#[test]
fn test_directory_allowlist() {
    let config = AgenticConfig::default();

    assert!(config.is_directory_allowed("~/projects"));
    assert!(config.is_directory_allowed("./src"));
    assert!(config.is_directory_allowed("/tmp/test"));
}

#[test]
fn dangerous_matching_ignores_case() {
    let config = AgenticConfig::default();
    assert!(config.is_dangerous_command("RM -RF / --no-preserve-root"));
    assert!(config.is_dangerous_command("echo x && ShUtDoWn"));
}

#[test]
fn disabled_safety_checks_allow_everything() {
    let mut config = AgenticConfig::default();
    config.warp.safety.enable_safety_checks = false;
    assert!(!config.is_dangerous_command("rm -rf /"));
    assert!(!config.is_dangerous_command("shutdown"));
}

#[test]
fn empty_allowlist_means_no_restriction() {
    let mut config = AgenticConfig::default();
    config.warp.safety.allowed_directories = Vec::new();
    assert!(config.is_directory_allowed("/etc"));
    assert!(config.is_directory_allowed("anything at all"));
    assert!(config.is_directory_allowed(""));
}

#[test]
fn wildcard_entry_allows_directory() {
    let mut config = AgenticConfig::default();
    config.warp.safety.allowed_directories = vec![String::from("/srv/*")];
    assert!(config.is_directory_allowed("/completely/elsewhere"));
}

#[test]
fn disallowed_directory_is_refused() {
    let config = AgenticConfig::default();
    assert!(!config.is_directory_allowed("/etc/passwd"));
}

#[test]
fn working_directory_and_auto_confirm() {
    let mut config = AgenticConfig::default();
    assert_eq!(config.get_working_directory(), None);
    assert!(!config.auto_confirm_enabled());
    config.warp.execution.working_directory = Some(String::from("/srv/app"));
    config.warp.execution.auto_confirm = true;
    assert_eq!(config.get_working_directory(), Some(String::from("/srv/app")));
    assert!(config.auto_confirm_enabled());
}

#[test]
fn shell_runner_test_dangerous_command_detection() {
    let runner = ShellRunner::new(false);

    assert!(runner.is_dangerous_command("rm -rf /"));
    assert!(runner.is_dangerous_command("del /s /q c:"));
    assert!(runner.is_dangerous_command("shutdown -h now"));
    assert!(!runner.is_dangerous_command("ls -la"));
    assert!(!runner.is_dangerous_command("npm install"));
}

#[test]
fn test_shell_command_parsing() {
    let runner = ShellRunner::new(false);

    let (shell, args) = runner.get_shell_command("echo hello", true);
    assert_eq!(shell, "powershell");
    assert_eq!(args[0], "-Command");
    assert_eq!(args[1], "echo hello");

    let (shell, args) = runner.get_shell_command("echo hello", false);
    assert_eq!(shell, "bash");
    assert_eq!(args[0], "-c");
    assert_eq!(args[1], "echo hello");
}

#[test]
fn dir_scoped_command_prefixes_change_of_directory() {
    let runner = ShellRunner::new(true);
    assert_eq!(
        runner.dir_scoped_command("ls", "/srv/app", false),
        "cd '/srv/app' && ls"
    );
    assert_eq!(
        runner.dir_scoped_command("dir", "C:\\work", true),
        "cd 'C:\\work'; dir"
    );
}

#[test]
fn classify_exit_keeps_streams_and_code() {
    let runner = ShellRunner::new(false);
    let ok = runner.classify_exit(
        true,
        Some(0),
        String::from("out"),
        String::from("warn"),
        10,
    );
    match ok {
        ExecutionResult::Success { stdout, stderr, duration_ms } => {
            assert_eq!(stdout, "out");
            assert_eq!(stderr, "warn");
            assert_eq!(duration_ms, 10);
        }
        _ => panic!("expected success"),
    }
    let err = runner.classify_exit(false, Some(3), String::from("x"), String::from("boom"), 7);
    match err {
        ExecutionResult::Error { stderr, exit_code, duration_ms } => {
            assert_eq!(stderr, "boom");
            assert_eq!(exit_code, 3);
            assert_eq!(duration_ms, 7);
        }
        _ => panic!("expected error"),
    }
    let killed = runner.classify_exit(false, None, String::new(), String::new(), 1);
    match killed {
        ExecutionResult::Error { exit_code, .. } => assert_eq!(exit_code, -1),
        _ => panic!("expected error"),
    }
}

#[test]
fn classify_streamed_joins_lines_per_stream() {
    let runner = ShellRunner::new(true);
    let stdout_lines = vec![String::from("a"), String::from("b")];
    let stderr_lines = vec![String::from("w1"), String::from("w2"), String::from("w3")];
    let r = runner.classify_streamed(true, Some(0), &stdout_lines, &stderr_lines, 42);
    match r {
        ExecutionResult::Success { stdout, stderr, duration_ms } => {
            assert_eq!(stdout, "a\nb");
            assert_eq!(stderr, "w1\nw2\nw3");
            assert_eq!(duration_ms, 42);
        }
        _ => panic!("expected success"),
    }
}

fn result_with(outcome: Option<ExecutionResult>, cancelled: bool) -> PipelineResult {
    PipelineResult {
        original_input: String::from("input"),
        plan: String::from("plan"),
        command: String::from("command"),
        execution_result: outcome,
        cancelled,
    }
}

fn success_outcome(duration_ms: u64) -> ExecutionResult {
    ExecutionResult::Success {
        stdout: String::from("done"),
        stderr: String::new(),
        duration_ms,
    }
}

fn error_outcome(exit_code: i32, duration_ms: u64) -> ExecutionResult {
    ExecutionResult::Error {
        stderr: String::from("failed"),
        exit_code,
        duration_ms,
    }
}

#[test]
fn cancelled_result_is_never_successful() {
    let r = result_with(Some(success_outcome(5)), true);
    assert!(!r.is_success());
    let r = result_with(None, true);
    assert!(!r.is_success());
}

#[test]
fn result_accessors_follow_the_outcome() {
    let ok = result_with(Some(success_outcome(1234)), false);
    assert!(ok.is_success());
    assert_eq!(ok.execution_duration(), Some(1234));
    assert_eq!(ok.output(), Some("done"));
    assert_eq!(ok.error(), None);
    assert_eq!(ok.exit_code(), Some(0));

    let bad = result_with(Some(error_outcome(2, 5000)), false);
    assert!(!bad.is_success());
    assert_eq!(bad.execution_duration(), Some(5000));
    assert_eq!(bad.output(), None);
    assert_eq!(bad.error(), Some("failed"));
    assert_eq!(bad.exit_code(), Some(2));

    let none = result_with(None, false);
    assert_eq!(none.execution_duration(), None);
    assert_eq!(none.exit_code(), None);
}

#[test]
fn summary_lines_are_exact() {
    assert_eq!(
        result_with(Some(success_outcome(1234)), false).summary(),
        "✅ Command executed successfully in 1.23s"
    );
    assert_eq!(
        result_with(Some(error_outcome(2, 5000)), false).summary(),
        "❌ Command failed with exit code 2 after 5.00s"
    );
    assert_eq!(
        result_with(Some(error_outcome(-1, 90)), false).summary(),
        "❌ Command failed with exit code -1 after 0.09s"
    );
    assert_eq!(
        result_with(None, true).summary(),
        "Pipeline cancelled by user"
    );
    assert_eq!(result_with(None, false).summary(), "⚠️ Command was not executed");
}

#[test]
fn stats_average_is_the_mean_of_durations() {
    let mut stats = PipelineStats::new();
    stats.update(&result_with(Some(success_outcome(100)), false));
    stats.update(&result_with(Some(error_outcome(1, 200)), false));
    stats.update(&result_with(Some(success_outcome(600)), false));
    assert_eq!(stats.total_executions, 3);
    assert_eq!(stats.successful_executions, 2);
    assert_eq!(stats.failed_executions, 1);
    assert_eq!(stats.cancelled_executions, 0);
    assert_eq!(stats.total_duration_ms, 900);
    assert_eq!(stats.average_duration_ms, 300);
}

#[test]
fn stats_count_cancellations_without_durations() {
    let mut stats = PipelineStats::new();
    stats.update(&result_with(None, true));
    stats.update(&result_with(Some(success_outcome(80)), false));
    assert_eq!(stats.total_executions, 2);
    assert_eq!(stats.cancelled_executions, 1);
    assert_eq!(stats.successful_executions, 1);
    assert_eq!(stats.total_duration_ms, 80);
}

#[test]
fn success_rate_is_truncated_percent() {
    let mut stats = PipelineStats::new();
    assert_eq!(stats.success_rate(), 0);
    stats.update(&result_with(Some(success_outcome(10)), false));
    stats.update(&result_with(Some(success_outcome(10)), false));
    stats.update(&result_with(Some(error_outcome(1, 10)), false));
    assert_eq!(stats.success_rate(), 66);
}

#[test]
fn planner_heuristic_covers_known_requests() {
    let planner = PlannerAgent::new(
        String::from("http://localhost:11434"),
        String::from("phi4"),
        String::from("gemma3"),
    );
    let plan = planner.generate_fallback_plan("create a new React app and start the dev server");
    assert!(plan.contains("React"));
    assert!(plan.contains("development server"));
    assert_eq!(
        planner.generate_fallback_plan("backup the files"),
        "Create a backup of the specified data or files"
    );
    assert_eq!(
        planner.generate_fallback_plan("say hi"),
        "Execute the requested operation: say hi"
    );
}

#[test]
fn planner_ladder_prefers_primary_then_fallback_then_heuristic() {
    let planner = PlannerAgent::new(
        String::from("http://localhost:11434"),
        String::from("phi4"),
        String::from("gemma3"),
    );
    let primary = String::from("  a plan from the primary model \n");
    let fallback = String::from("a plan from the fallback model");
    assert_eq!(
        planner.resolve_plan("whatever", Some(&primary), Some(&fallback)),
        "a plan from the primary model"
    );
    assert_eq!(
        planner.resolve_plan("whatever", None, Some(&fallback)),
        "a plan from the fallback model"
    );
    let blank = String::from("   \n ");
    assert_eq!(
        planner.resolve_plan("run the test suite", Some(&blank), None),
        "Run tests for the current project or specified component"
    );
}

#[test]
fn coder_heuristic_covers_known_plans() {
    let coder = CoderAgent::new(
        String::from("http://localhost:11434"),
        String::from("codellama"),
        String::from("gemma3"),
    );
    assert_eq!(
        coder.generate_fallback_command("List and inspect Docker containers with their current status"),
        "docker ps -a"
    );
    assert_eq!(
        coder.generate_fallback_command("some mysterious plan"),
        "echo 'Executing: some mysterious plan'"
    );
}

#[test]
fn agents_compose_prompts_around_the_input() {
    let planner = PlannerAgent::new(
        String::from("http://h"),
        String::from("p"),
        String::from("f"),
    );
    let prompt = planner.compose_prompt("make it so");
    assert!(prompt.ends_with("\n\nUser Request: make it so\nPlan:"));
    assert_eq!(planner.generate_url(), "http://h/api/generate");

    let coder = CoderAgent::new(String::from("http://h"), String::from("c"), String::from("f"));
    let prompt = coder.compose_prompt("the plan");
    assert!(prompt.ends_with("\n\nPlan: the plan\nCommand:"));
}

#[test]
fn pipeline_dry_run_composes_both_stages() {
    let pipeline = default_pipeline();
    let (plan, command) = pipeline.dry_run(
        "create a new React app and start the dev server",
        None,
        None,
        None,
        None,
    );
    assert!(plan.contains("React"));
    assert!(plan.contains("development server"));
    assert_eq!(
        command,
        format!("echo 'Executing: {}'", plan)
    );
}

#[test]
fn confirmation_accepts_only_affirmative_answers() {
    let pipeline = default_pipeline();
    assert!(pipeline.confirmation_accepted("y"));
    assert!(pipeline.confirmation_accepted("  Yes please\n"));
    assert!(!pipeline.confirmation_accepted("n"));
    assert!(!pipeline.confirmation_accepted(""));
    assert!(!pipeline.confirmation_accepted("   "));
    assert!(!pipeline.confirmation_accepted("ok"));
}

#[test]
fn gate_cancels_refuses_or_proceeds() {
    let pipeline = default_pipeline();
    assert_eq!(pipeline.gate("ls -la", false), GateDecision::Cancelled);
    assert_eq!(pipeline.gate("rm -rf /", true), GateDecision::Refused);
    assert_eq!(pipeline.gate("ls -la", true), GateDecision::Proceed);
}

#[test]
fn declined_confirmation_yields_cancelled_result() {
    let pipeline = default_pipeline();
    let r = pipeline.cancelled_result(
        "list files",
        String::from("List the files"),
        String::from("ls"),
    );
    assert!(r.cancelled);
    assert!(r.execution_result.is_none());
    assert!(!r.is_success());
}

#[test]
fn failing_command_yields_error_outcome_not_cancellation() {
    let pipeline = default_pipeline();
    let outcome = ExecutionResult::Error {
        stderr: String::new(),
        exit_code: 1,
        duration_ms: 12,
    };
    let r = pipeline.completed_result(
        "fail please",
        String::from("Run a failing command"),
        String::from("exit 1"),
        outcome,
    );
    assert!(!r.cancelled);
    match r.execution_result {
        Some(ExecutionResult::Error { exit_code, .. }) => assert_eq!(exit_code, 1),
        _ => panic!("expected an error outcome"),
    }
    assert!(!r.is_success());
    assert_eq!(r.exit_code(), Some(1));
}

#[test]
fn default_warp_config_matches_models() {
    let c = WarpConfig::default();
    assert_eq!(c.planner_model, "phi4");
    assert_eq!(c.coder_model, "codellama");
    assert_eq!(c.fallback_model, "gemma3");
    assert_eq!(c.ollama_host, "http://localhost:11434");
    assert_eq!(c.timeout_seconds, 30);
    assert!(c.streaming);
}
