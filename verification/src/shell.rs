//! Shell runner: platform dispatch, safety screening and outcome
//! classification.
//!
//! Spawning the subprocess and pumping its two output streams is I/O and
//! lives in the surrounding application; everything that decides — which
//! shell to invoke, whether a command is dangerous, and how an exit status
//! and the captured lines become an `ExecutionResult` — is verified here.
//! Durations are carried as whole milliseconds.

use vstd::prelude::*;
use crate::safety::{command_matches_any, dangerous_pattern_list, default_dangerous_patterns,
    matches_any_pattern};
use crate::text::{join_lines, join_nl, views_of};

verus! {

/// Result of command execution.
#[derive(Clone, Debug)]
pub enum ExecutionResult {
    Success { stdout: String, stderr: String, duration_ms: u64 },
    Error { stderr: String, exit_code: i32, duration_ms: u64 },
}

/// Shell runner that executes commands with streaming output.
#[derive(Clone, Debug)]
pub struct ShellRunner {
    pub streaming: bool,
}

impl ShellRunner {
    /// Create a new shell runner.
    pub fn new(streaming: bool) -> (r: Self)
        ensures
            r.streaming == streaming,
    {
        ShellRunner { streaming }
    }

    /// The shell invocation for `command`: `powershell -Command <command>`
    /// on the Windows family, `bash -c <command>` everywhere else.  The
    /// selection depends on nothing but `windows`.
    pub fn get_shell_command(&self, command: &str, windows: bool) -> (r: (String, Vec<String>))
        ensures
            windows ==> r.0@ == "powershell"@,
            windows ==> views_of(r.1@) == seq!["-Command"@, command@],
            !windows ==> r.0@ == "bash"@,
            !windows ==> views_of(r.1@) == seq!["-c"@, command@],
    {
        if windows {
            let mut args: Vec<String> = Vec::new();
            args.push(String::from_str("-Command"));
            args.push(String::from_str(command));
            proof {
                assert(views_of(args@) =~= seq!["-Command"@, command@]);
            }
            (String::from_str("powershell"), args)
        } else {
            let mut args: Vec<String> = Vec::new();
            args.push(String::from_str("-c"));
            args.push(String::from_str(command));
            proof {
                assert(views_of(args@) =~= seq!["-c"@, command@]);
            }
            (String::from_str("bash"), args)
        }
    }

    /// `command` rewritten to run inside `dir`: a shell-level change of
    /// directory is prefixed, so relative paths resolve against `dir`.
    pub fn dir_scoped_command(&self, command: &str, dir: &str, windows: bool) -> (r: String)
        ensures
            windows ==> r@ == "cd '"@ + dir@ + "'; "@ + command@,
            !windows ==> r@ == "cd '"@ + dir@ + "' && "@ + command@,
    {
        let mut s = String::from_str("cd '");
        s.append(dir);
        if windows {
            s.append("'; ");
        } else {
            s.append("' && ");
        }
        s.append(command);
        s
    }

    /// Check if a command is potentially dangerous, against the built-in
    /// pattern list, ignoring ASCII case.
    pub fn is_dangerous_command(&self, command: &str) -> (r: bool)
        ensures
            r == matches_any_pattern(command@, default_dangerous_patterns()),
    {
        let patterns = dangerous_pattern_list();
        command_matches_any(command, &patterns)
    }

    /// Classifies an exit status together with the fully captured output:
    /// exit success keeps both streams, failure keeps the error stream and
    /// the exit code, a missing code is reported as `-1`.
    pub fn classify_exit(
        &self,
        success: bool,
        exit_code: Option<i32>,
        stdout: String,
        stderr: String,
        duration_ms: u64,
    ) -> (r: ExecutionResult)
        ensures
            success ==> r == (ExecutionResult::Success {
                stdout: stdout,
                stderr: stderr,
                duration_ms: duration_ms,
            }),
            !success ==> r == (ExecutionResult::Error {
                stderr: stderr,
                exit_code: (match exit_code {
                    Some(c) => c,
                    None => -1i32,
                }),
                duration_ms: duration_ms,
            }),
    {
        if success {
            ExecutionResult::Success { stdout, stderr, duration_ms }
        } else {
            let code = match exit_code {
                Some(c) => c,
                None => -1i32,
            };
            ExecutionResult::Error { stderr, exit_code: code, duration_ms }
        }
    }

    /// Classifies an exit status together with the two captured line
    /// sequences from streaming mode; each stream is joined with newlines,
    /// preserving its own order.
    pub fn classify_streamed(
        &self,
        success: bool,
        exit_code: Option<i32>,
        stdout_lines: &Vec<String>,
        stderr_lines: &Vec<String>,
        duration_ms: u64,
    ) -> (r: ExecutionResult)
        ensures
            success ==> (r matches ExecutionResult::Success { stdout, stderr, duration_ms: d }
                && stdout@ == join_nl(views_of(stdout_lines@))
                && stderr@ == join_nl(views_of(stderr_lines@)) && d == duration_ms),
            !success ==> (r matches ExecutionResult::Error { stderr, exit_code: c, duration_ms: d }
                && stderr@ == join_nl(views_of(stderr_lines@)) && d == duration_ms && c == (
            match exit_code {
                Some(code) => code,
                None => -1i32,
            })),
    {
        let stdout = join_lines(stdout_lines);
        let stderr = join_lines(stderr_lines);
        self.classify_exit(success, exit_code, stdout, stderr, duration_ms)
    }
}

} // verus!
