//! The two generation stages: planner and coder.
//!
//! Each stage composes a prompt, asks the primary model, retries once
//! against the fallback model, and finally falls back to a deterministic
//! keyword heuristic.  The network calls themselves are performed by the
//! surrounding application; the agents here hold the prompt composition,
//! the heuristics and the resolution ladder, all verified.  A model answer
//! that trims to the empty string counts as a failure, so the resolved
//! result is always non-empty.

use vstd::prelude::*;
use crate::text::{contains_ci, contains_seq, lower_seq, trim_seq, trim_str};

verus! {

/// The instruction template put before the user request by the planner.
pub open spec fn planner_instructions() -> Seq<char> {
    "You are a planning agent that converts natural language requests into clear, structured plans.\n\nYour role:\n1. Analyze the user's request and understand their intent\n2. Break down complex requests into logical steps\n3. Identify the tools, technologies, and actions needed\n4. Output a concise plan in plain English\n\nGuidelines:\n- Be specific about what needs to be done\n- Include key details like project names, technologies, or configurations\n- Keep plans actionable and clear\n- Focus on the \"what\" rather than the \"how\""@
}

/// The instruction template put before the plan by the coder.
pub open spec fn coder_instructions() -> Seq<char> {
    "You are a coding agent that converts structured plans into precise shell commands.\n\nYour role:\n1. Translate plans into executable shell commands\n2. Use modern, cross-platform tools when possible\n3. Chain commands efficiently with && or ;\n4. Ensure commands are safe and follow best practices\n5. Output ONLY the command(s), no explanations"@
}

/// The canned plan the planner falls back to, keyed by substrings of the
/// lower-cased input.
pub open spec fn fallback_plan_spec(input: Seq<char>) -> Seq<char> {
    let l = lower_seq(input);
    if contains_seq(l, lower_seq("react"@)) && contains_seq(l, lower_seq("app"@)) {
        "Create a new React application with modern tooling and start development server"@
    } else if contains_seq(l, lower_seq("docker"@)) && contains_seq(l, lower_seq("container"@)) {
        "List and inspect Docker containers with their current status"@
    } else if contains_seq(l, lower_seq("git"@)) && contains_seq(l, lower_seq("repo"@)) {
        "Initialize or manage Git repository with version control operations"@
    } else if contains_seq(l, lower_seq("install"@)) {
        "Install the specified software package or dependency"@
    } else if contains_seq(l, lower_seq("backup"@)) {
        "Create a backup of the specified data or files"@
    } else if contains_seq(l, lower_seq("test"@)) {
        "Run tests for the current project or specified component"@
    } else {
        "Execute the requested operation: "@ + input
    }
}

/// The canned command the coder falls back to, keyed by substrings of the
/// lower-cased plan.
pub open spec fn fallback_command_spec(plan: Seq<char>) -> Seq<char> {
    let l = lower_seq(plan);
    if contains_seq(l, lower_seq("react"@)) && contains_seq(l, lower_seq("vite"@)) {
        "npm create vite@latest my-app --template react && cd my-app && npm install && npm run dev"@
    } else if contains_seq(l, lower_seq("docker"@)) && contains_seq(l, lower_seq("container"@)) {
        "docker ps -a"@
    } else if contains_seq(l, lower_seq("git"@)) && contains_seq(l, lower_seq("repo"@)) {
        "git init && git add . && git commit -m 'Initial commit'"@
    } else if contains_seq(l, lower_seq("install"@)) && contains_seq(l, lower_seq("npm"@)) {
        "npm install"@
    } else if contains_seq(l, lower_seq("backup"@)) && contains_seq(l, lower_seq("database"@)) {
        "mysqldump -u root -p mydb > backup.sql"@
    } else if contains_seq(l, lower_seq("test"@)) {
        "npm test"@
    } else if contains_seq(l, lower_seq("build"@)) {
        "npm run build"@
    } else {
        "echo 'Executing: "@ + plan + "'"@
    }
}

/// The answer of the primary-fallback-heuristic ladder: the first model
/// answer that trims to something non-empty, else the heuristic.
pub open spec fn resolved_spec(
    heuristic: Seq<char>,
    primary: Option<Seq<char>>,
    fallback: Option<Seq<char>>,
) -> Seq<char> {
    if primary matches Some(t) && trim_seq(t).len() > 0 {
        trim_seq(primary->Some_0)
    } else if fallback matches Some(t) && trim_seq(t).len() > 0 {
        trim_seq(fallback->Some_0)
    } else {
        heuristic
    }
}

/// Picks the first usable answer: a present, non-blank `primary`, then a
/// present, non-blank `fallback`, then `heuristic`; model answers are
/// trimmed.
fn resolve_ladder(heuristic: String, primary: Option<&String>, fallback: Option<&String>) -> (r:
    String)
    ensures
        r@ == resolved_spec(
            heuristic@,
            match primary {
                Some(p) => Some(p@),
                None => None,
            },
            match fallback {
                Some(f) => Some(f@),
                None => None,
            },
        ),
{
    if let Some(p) = primary {
        let t = trim_str(p.as_str());
        if t.as_str().unicode_len() > 0 {
            return t;
        }
    }
    if let Some(f) = fallback {
        let t = trim_str(f.as_str());
        if t.as_str().unicode_len() > 0 {
            return t;
        }
    }
    heuristic
}

/// Planning agent: turns a natural-language request into a plan.
#[derive(Clone, Debug)]
pub struct PlannerAgent {
    pub ollama_host: String,
    pub model: String,
    pub fallback_model: String,
}

impl PlannerAgent {
    pub fn new(ollama_host: String, model: String, fallback_model: String) -> (r: Self)
        ensures
            r.ollama_host@ == ollama_host@,
            r.model@ == model@,
            r.fallback_model@ == fallback_model@,
    {
        PlannerAgent { ollama_host, model, fallback_model }
    }

    /// The generation endpoint of the configured host.
    pub fn generate_url(&self) -> (r: String)
        ensures
            r@ == self.ollama_host@ + "/api/generate"@,
    {
        let mut s = self.ollama_host.clone();
        s.append("/api/generate");
        s
    }

    /// The full prompt handed to a model for `input`.
    pub fn compose_prompt(&self, input: &str) -> (r: String)
        ensures
            r@ == planner_instructions() + "\n\nUser Request: "@ + input@ + "\nPlan:"@,
    {
        let mut s = String::from_str(
            "You are a planning agent that converts natural language requests into clear, structured plans.\n\nYour role:\n1. Analyze the user's request and understand their intent\n2. Break down complex requests into logical steps\n3. Identify the tools, technologies, and actions needed\n4. Output a concise plan in plain English\n\nGuidelines:\n- Be specific about what needs to be done\n- Include key details like project names, technologies, or configurations\n- Keep plans actionable and clear\n- Focus on the \"what\" rather than the \"how\"",
        );
        s.append("\n\nUser Request: ");
        s.append(input);
        s.append("\nPlan:");
        s
    }

    /// The deterministic plan used when both models fail.
    pub fn generate_fallback_plan(&self, input: &str) -> (r: String)
        ensures
            r@ == fallback_plan_spec(input@),
    {
        if contains_ci(input, "react") && contains_ci(input, "app") {
            String::from_str(
                "Create a new React application with modern tooling and start development server",
            )
        } else if contains_ci(input, "docker") && contains_ci(input, "container") {
            String::from_str("List and inspect Docker containers with their current status")
        } else if contains_ci(input, "git") && contains_ci(input, "repo") {
            String::from_str("Initialize or manage Git repository with version control operations")
        } else if contains_ci(input, "install") {
            String::from_str("Install the specified software package or dependency")
        } else if contains_ci(input, "backup") {
            String::from_str("Create a backup of the specified data or files")
        } else if contains_ci(input, "test") {
            String::from_str("Run tests for the current project or specified component")
        } else {
            let mut s = String::from_str("Execute the requested operation: ");
            s.append(input);
            s
        }
    }

    /// The plan for `input` given what the two model calls returned: the
    /// ladder primary, then fallback, then the keyword heuristic.
    pub fn resolve_plan(&self, input: &str, primary: Option<&String>, fallback: Option<&String>)
        -> (r: String)
        ensures
            r@ == resolved_spec(
                fallback_plan_spec(input@),
                match primary {
                    Some(p) => Some(p@),
                    None => None,
                },
                match fallback {
                    Some(f) => Some(f@),
                    None => None,
                },
            ),
    {
        let heuristic = self.generate_fallback_plan(input);
        resolve_ladder(heuristic, primary, fallback)
    }
}

/// Coding agent: turns a plan into a shell command.
#[derive(Clone, Debug)]
pub struct CoderAgent {
    pub ollama_host: String,
    pub model: String,
    pub fallback_model: String,
}

impl CoderAgent {
    pub fn new(ollama_host: String, model: String, fallback_model: String) -> (r: Self)
        ensures
            r.ollama_host@ == ollama_host@,
            r.model@ == model@,
            r.fallback_model@ == fallback_model@,
    {
        CoderAgent { ollama_host, model, fallback_model }
    }

    /// The generation endpoint of the configured host.
    pub fn generate_url(&self) -> (r: String)
        ensures
            r@ == self.ollama_host@ + "/api/generate"@,
    {
        let mut s = self.ollama_host.clone();
        s.append("/api/generate");
        s
    }

    /// The full prompt handed to a model for `plan`.
    pub fn compose_prompt(&self, plan: &str) -> (r: String)
        ensures
            r@ == coder_instructions() + "\n\nPlan: "@ + plan@ + "\nCommand:"@,
    {
        let mut s = String::from_str(
            "You are a coding agent that converts structured plans into precise shell commands.\n\nYour role:\n1. Translate plans into executable shell commands\n2. Use modern, cross-platform tools when possible\n3. Chain commands efficiently with && or ;\n4. Ensure commands are safe and follow best practices\n5. Output ONLY the command(s), no explanations",
        );
        s.append("\n\nPlan: ");
        s.append(plan);
        s.append("\nCommand:");
        s
    }

    /// The deterministic command used when both models fail.
    pub fn generate_fallback_command(&self, plan: &str) -> (r: String)
        ensures
            r@ == fallback_command_spec(plan@),
    {
        if contains_ci(plan, "react") && contains_ci(plan, "vite") {
            String::from_str(
                "npm create vite@latest my-app --template react && cd my-app && npm install && npm run dev",
            )
        } else if contains_ci(plan, "docker") && contains_ci(plan, "container") {
            String::from_str("docker ps -a")
        } else if contains_ci(plan, "git") && contains_ci(plan, "repo") {
            String::from_str("git init && git add . && git commit -m 'Initial commit'")
        } else if contains_ci(plan, "install") && contains_ci(plan, "npm") {
            String::from_str("npm install")
        } else if contains_ci(plan, "backup") && contains_ci(plan, "database") {
            String::from_str("mysqldump -u root -p mydb > backup.sql")
        } else if contains_ci(plan, "test") {
            String::from_str("npm test")
        } else if contains_ci(plan, "build") {
            String::from_str("npm run build")
        } else {
            let mut s = String::from_str("echo 'Executing: ");
            s.append(plan);
            s.append("'");
            s
        }
    }

    /// The command for `plan` given what the two model calls returned.
    pub fn resolve_command(&self, plan: &str, primary: Option<&String>, fallback: Option<&String>)
        -> (r: String)
        ensures
            r@ == resolved_spec(
                fallback_command_spec(plan@),
                match primary {
                    Some(p) => Some(p@),
                    None => None,
                },
                match fallback {
                    Some(f) => Some(f@),
                    None => None,
                },
            ),
    {
        let heuristic = self.generate_fallback_command(plan);
        resolve_ladder(heuristic, primary, fallback)
    }
}

/// The ladder never produces an empty plan: every canned plan is a
/// non-empty literal, the echo-style default embeds its non-empty prefix,
/// and a model answer is only accepted when its trimmed text is non-empty.
pub proof fn lemma_resolved_plan_nonempty(
    input: Seq<char>,
    primary: Option<Seq<char>>,
    fallback: Option<Seq<char>>,
)
    ensures
        resolved_spec(fallback_plan_spec(input), primary, fallback).len() > 0,
{
    reveal_strlit("Create a new React application with modern tooling and start development server");
    reveal_strlit("List and inspect Docker containers with their current status");
    reveal_strlit("Initialize or manage Git repository with version control operations");
    reveal_strlit("Install the specified software package or dependency");
    reveal_strlit("Create a backup of the specified data or files");
    reveal_strlit("Run tests for the current project or specified component");
    reveal_strlit("Execute the requested operation: ");
}

/// The ladder never produces an empty command, for the same reasons.
pub proof fn lemma_resolved_command_nonempty(
    plan: Seq<char>,
    primary: Option<Seq<char>>,
    fallback: Option<Seq<char>>,
)
    ensures
        resolved_spec(fallback_command_spec(plan), primary, fallback).len() > 0,
{
    reveal_strlit(
        "npm create vite@latest my-app --template react && cd my-app && npm install && npm run dev",
    );
    reveal_strlit("docker ps -a");
    reveal_strlit("git init && git add . && git commit -m 'Initial commit'");
    reveal_strlit("npm install");
    reveal_strlit("mysqldump -u root -p mydb > backup.sql");
    reveal_strlit("npm test");
    reveal_strlit("npm run build");
    reveal_strlit("echo 'Executing: ");
}

} // verus!
