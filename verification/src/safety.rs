//! Pipeline configuration and the safety policy.
//!
//! `AgenticConfig` mirrors the on-disk configuration file; the surrounding
//! application parses the file and hands the plain values over.  The two
//! predicates `is_dangerous_command` and `is_directory_allowed` are the
//! safety gate of the pipeline: pattern matching is case-insensitive (ASCII)
//! substring containment, and an empty allow-list means "no restriction".

use vstd::prelude::*;
use crate::text::{
    contains_ci, contains_seq, contains_str, lower_seq, prefix_of, split_on, split_sep,
    starts_with, views_of,
};

verus! {

/// Configuration for the Warp pipeline loaded from the configuration file.
#[derive(Clone, Debug)]
pub struct AgenticConfig {
    pub warp: WarpConfig,
}

/// Warp-specific configuration.
#[derive(Clone, Debug)]
pub struct WarpConfig {
    pub models: ModelConfig,
    pub execution: ExecutionConfig,
    pub safety: SafetyConfig,
}

/// Model configuration for the two generation stages.
#[derive(Clone, Debug)]
pub struct ModelConfig {
    pub planner: String,
    pub coder: String,
    pub fallback: String,
    pub ollama_host: String,
    pub timeout_seconds: u64,
}

/// Execution configuration.
#[derive(Clone, Debug)]
pub struct ExecutionConfig {
    pub streaming: bool,
    pub auto_confirm: bool,
    pub max_execution_time: u64,
    pub working_directory: Option<String>,
}

/// Safety configuration.
#[derive(Clone, Debug)]
pub struct SafetyConfig {
    pub enable_safety_checks: bool,
    pub dangerous_commands: Vec<String>,
    pub require_confirmation: bool,
    pub allowed_directories: Vec<String>,
}

/// The built-in dangerous command patterns.
pub open spec fn default_dangerous_patterns() -> Seq<Seq<char>> {
    seq![
        "rm -rf /"@,
        "del /s /q c:"@,
        "format c:"@,
        "shutdown"@,
        "reboot"@,
        "dd if="@,
        "mkfs."@,
        "> /dev/"@,
        "chmod 777 /"@,
        "chown root /"@,
    ]
}

/// The built-in allowed directories.
pub open spec fn default_allowed_directories() -> Seq<Seq<char>> {
    seq!["~/"@, "./"@, "/tmp/"@, "C:\\temp\\"@]
}

/// The built-in dangerous command patterns, as strings.
pub fn dangerous_pattern_list() -> (r: Vec<String>)
    ensures
        views_of(r@) == default_dangerous_patterns(),
{
    let mut v: Vec<String> = Vec::new();
    v.push(String::from_str("rm -rf /"));
    v.push(String::from_str("del /s /q c:"));
    v.push(String::from_str("format c:"));
    v.push(String::from_str("shutdown"));
    v.push(String::from_str("reboot"));
    v.push(String::from_str("dd if="));
    v.push(String::from_str("mkfs."));
    v.push(String::from_str("> /dev/"));
    v.push(String::from_str("chmod 777 /"));
    v.push(String::from_str("chown root /"));
    proof {
        assert(views_of(v@) =~= default_dangerous_patterns());
    }
    v
}

/// The default model configuration, field by field.
pub open spec fn is_default_models(m: ModelConfig) -> bool {
    m.planner@ == "phi4"@ && m.coder@ == "codellama"@ && m.fallback@ == "gemma3"@
        && m.ollama_host@ == "http://localhost:11434"@ && m.timeout_seconds == 30
}

/// The default execution configuration, field by field.
pub open spec fn is_default_execution(e: ExecutionConfig) -> bool {
    e.streaming == true && e.auto_confirm == false && e.max_execution_time == 300
        && e.working_directory is None
}

/// The default safety configuration, field by field.
pub open spec fn is_default_safety(s: SafetyConfig) -> bool {
    s.enable_safety_checks == true && s.require_confirmation == true && views_of(
        s.dangerous_commands@,
    ) == default_dangerous_patterns() && views_of(s.allowed_directories@)
        == default_allowed_directories()
}

impl Default for ModelConfig {
    fn default() -> (r: Self)
        ensures
            is_default_models(r),
    {
        ModelConfig {
            planner: String::from_str("phi4"),
            coder: String::from_str("codellama"),
            fallback: String::from_str("gemma3"),
            ollama_host: String::from_str("http://localhost:11434"),
            timeout_seconds: 30,
        }
    }
}

impl Default for ExecutionConfig {
    fn default() -> (r: Self)
        ensures
            is_default_execution(r),
    {
        ExecutionConfig {
            streaming: true,
            auto_confirm: false,
            max_execution_time: 300,
            working_directory: None,
        }
    }
}

impl Default for SafetyConfig {
    fn default() -> (r: Self)
        ensures
            is_default_safety(r),
    {
        let mut allowed: Vec<String> = Vec::new();
        allowed.push(String::from_str("~/"));
        allowed.push(String::from_str("./"));
        allowed.push(String::from_str("/tmp/"));
        allowed.push(String::from_str("C:\\temp\\"));
        proof {
            assert(views_of(allowed@) =~= default_allowed_directories());
        }
        SafetyConfig {
            enable_safety_checks: true,
            dangerous_commands: dangerous_pattern_list(),
            require_confirmation: true,
            allowed_directories: allowed,
        }
    }
}

impl Default for WarpConfig {
    fn default() -> (r: Self)
        ensures
            is_default_models(r.models),
            is_default_execution(r.execution),
            is_default_safety(r.safety),
    {
        WarpConfig {
            models: ModelConfig::default(),
            execution: ExecutionConfig::default(),
            safety: SafetyConfig::default(),
        }
    }
}

impl Default for AgenticConfig {
    fn default() -> (r: Self)
        ensures
            is_default_models(r.warp.models),
            is_default_execution(r.warp.execution),
            is_default_safety(r.warp.safety),
    {
        AgenticConfig { warp: WarpConfig::default() }
    }
}

/// Whether `cmd` contains any of `pats` as a case-insensitive substring.
pub open spec fn matches_any_pattern(cmd: Seq<char>, pats: Seq<Seq<char>>) -> bool {
    exists|i: int| 0 <= i < pats.len() && contains_seq(lower_seq(cmd), lower_seq(pats[i]))
}

/// Checks `command` against `pats`, case-insensitively.
pub fn command_matches_any(command: &str, pats: &Vec<String>) -> (r: bool)
    ensures
        r == matches_any_pattern(command@, views_of(pats@)),
{
    let mut i: usize = 0;
    while i < pats.len()
        invariant
            0 <= i <= pats@.len(),
            forall|k: int|
                0 <= k < i ==> !contains_seq(
                    lower_seq(command@),
                    lower_seq(views_of(pats@)[k]),
                ),
        decreases pats@.len() - i,
    {
        if contains_ci(command, pats[i].as_str()) {
            assert(contains_seq(lower_seq(command@), lower_seq(views_of(pats@)[i as int])));
            return true;
        }
        i = i + 1;
    }
    false
}

/// The path components of `s`: pieces between `'/'` separators, with empty
/// trailing components (from trailing separators) dropped.
pub open spec fn path_components(s: Seq<char>) -> Seq<Seq<char>> {
    drop_trailing_empty(split_sep(s, '/'))
}

/// `v` with empty sequences removed from its tail.
pub open spec fn drop_trailing_empty(v: Seq<Seq<char>>) -> Seq<Seq<char>>
    decreases v.len(),
{
    if v.len() > 0 && v[v.len() - 1].len() == 0 {
        drop_trailing_empty(v.drop_last())
    } else {
        v
    }
}

/// Component-wise path prefix.
pub open spec fn comp_prefix(a: Seq<Seq<char>>, d: Seq<Seq<char>>) -> bool {
    a.len() <= d.len() && forall|i: int| 0 <= i < a.len() ==> a[i] == d[i]
}

/// The path components of `s`, as strings.
pub fn components_of(s: &str) -> (r: Vec<String>)
    ensures
        views_of(r@) == path_components(s@),
{
    let mut v = split_on(s, '/');
    while v.len() > 0 && v[v.len() - 1].as_str().unicode_len() == 0
        invariant
            drop_trailing_empty(views_of(v@)) == path_components(s@),
        decreases v@.len(),
    {
        proof {
            assert(views_of(v@).drop_last() =~= views_of(v@.drop_last()));
        }
        v.pop();
    }
    proof {
        assert(drop_trailing_empty(views_of(v@)) == views_of(v@));
    }
    v
}

/// Checks whether the components of `a` are a prefix of those of `d`.
pub fn comp_prefix_check(a: &Vec<String>, d: &Vec<String>) -> (r: bool)
    ensures
        r == comp_prefix(views_of(a@), views_of(d@)),
{
    if a.len() > d.len() {
        return false;
    }
    let mut i: usize = 0;
    while i < a.len()
        invariant
            a@.len() <= d@.len(),
            0 <= i <= a@.len(),
            forall|k: int| 0 <= k < i ==> views_of(a@)[k] == views_of(d@)[k],
        decreases a@.len() - i,
    {
        if !(a[i] == d[i]) {
            assert(views_of(a@)[i as int] != views_of(d@)[i as int]);
            return false;
        }
        i = i + 1;
    }
    true
}

/// Whether the allow-list entry `entry` admits `dir`: the entry is a
/// component-wise path prefix of `dir`, or holds a wildcard marker, or is a
/// plain string prefix of `dir`.
pub open spec fn entry_allows(entry: Seq<char>, dir: Seq<char>) -> bool {
    comp_prefix(path_components(entry), path_components(dir)) || contains_seq(entry, "*"@)
        || prefix_of(entry, dir)
}

impl AgenticConfig {
    /// Whether `cmd` is refused by this configuration: safety checks are on
    /// and some configured pattern occurs in `cmd`, ignoring ASCII case.
    pub open spec fn dangerous_spec(self, cmd: Seq<char>) -> bool {
        self.warp.safety.enable_safety_checks && matches_any_pattern(
            cmd,
            views_of(self.warp.safety.dangerous_commands@),
        )
    }

    /// Whether execution in `dir` is admitted: the allow-list is empty, or
    /// some entry admits `dir`.
    pub open spec fn allowed_spec(self, dir: Seq<char>) -> bool {
        let allowed = views_of(self.warp.safety.allowed_directories@);
        allowed.len() == 0 || exists|i: int| 0 <= i < allowed.len() && entry_allows(
            allowed[i],
            dir,
        )
    }

    /// Check if a command is dangerous based on configuration.
    ///
    /// Returns `false` whenever safety checks are disabled; otherwise `true`
    /// exactly when some configured pattern is a case-insensitive substring
    /// of `command`.
    pub fn is_dangerous_command(&self, command: &str) -> (r: bool)
        ensures
            r == self.dangerous_spec(command@),
    {
        if !self.warp.safety.enable_safety_checks {
            return false;
        }
        command_matches_any(command, &self.warp.safety.dangerous_commands)
    }

    /// Check if execution in a directory is allowed.
    ///
    /// Returns `true` for every input when the allow-list is empty.
    pub fn is_directory_allowed(&self, directory: &str) -> (r: bool)
        ensures
            r == self.allowed_spec(directory@),
    {
        let allowed = &self.warp.safety.allowed_directories;
        if allowed.len() == 0 {
            return true;
        }
        let dir_comps = components_of(directory);
        let mut i: usize = 0;
        while i < allowed.len()
            invariant
                views_of(dir_comps@) == path_components(directory@),
                allowed == self.warp.safety.allowed_directories,
                0 <= i <= allowed@.len(),
                forall|k: int|
                    0 <= k < i ==> !entry_allows(views_of(allowed@)[k], directory@),
            decreases allowed@.len() - i,
        {
            let entry = &allowed[i];
            let ghost ev = views_of(allowed@)[i as int];
            assert(ev == entry@);
            let entry_comps = components_of(entry.as_str());
            if comp_prefix_check(&entry_comps, &dir_comps) {
                assert(entry_allows(ev, directory@));
                return true;
            }
            if contains_str(entry.as_str(), "*") {
                assert(entry_allows(ev, directory@));
                return true;
            }
            if starts_with(directory, entry.as_str()) {
                assert(entry_allows(ev, directory@));
                return true;
            }
            assert(!entry_allows(ev, directory@));
            i = i + 1;
        }
        false
    }

    /// The configured working directory for command execution, if any.
    pub fn get_working_directory(&self) -> (r: Option<String>)
        ensures
            match r {
                Some(d) => self.warp.execution.working_directory matches Some(w) && d@ == w@,
                None => self.warp.execution.working_directory is None,
            },
    {
        match &self.warp.execution.working_directory {
            Some(d) => Some(d.clone()),
            None => None,
        }
    }

    /// Whether auto-confirmation is enabled.
    pub fn auto_confirm_enabled(&self) -> (r: bool)
        ensures
            r == self.warp.execution.auto_confirm,
    {
        self.warp.execution.auto_confirm
    }
}

} // verus!
