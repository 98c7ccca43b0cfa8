//! The general-purpose assistant agent: provider choice, its system
//! prompt and the keyword fallbacks used when no backend is reachable.
//!
//! The HTTP clients live in the surrounding application; the fallback
//! answers are deterministic functions of the query and are verified
//! here.

use vstd::prelude::*;
use crate::text::{contains_ci, contains_seq, lower_seq};

verus! {

/// Which backend answers queries.
#[derive(Clone, Copy, Debug, PartialEq, Eq, Structural)]
pub enum AIProvider {
    OpenAI,
    Ollama,
}

/// The canned answer used when no key is configured, keyed by substrings
/// of the lower-cased query.
pub open spec fn fallback_response_spec(q: Seq<char>) -> Seq<char> {
    let l = lower_seq(q);
    if contains_seq(l, lower_seq("task"@)) && contains_seq(l, lower_seq("add"@)) {
        "To add a task, use: agentic task add --title 'Your task title' --priority [low|medium|high]"@
    } else if contains_seq(l, lower_seq("task"@)) && contains_seq(l, lower_seq("list"@)) {
        "To list tasks, use: agentic task list"@
    } else if contains_seq(l, lower_seq("prep"@)) && contains_seq(l, lower_seq("start"@)) {
        "To start a preparation session, use: agentic prep start --exam [exam_name]"@
    } else if contains_seq(l, lower_seq("blog"@)) {
        "For blog commands, use: agentic blog --help"@
    } else {
        "I'd love to help, but I need an OpenAI API key to provide intelligent responses.\nPlease set the OPENAI_API_KEY environment variable or add it to your config.\n\nFor now, here are some basic commands you can try:\n- agentic task add --title 'Your task'\n- agentic prep start --exam CET\n- agentic blog new --title 'Your blog post'\n- agentic run 'your command here'\n\nYour query: "@
            + q
    }
}

/// The keyword answer used when no API key is available.
pub fn generate_fallback_response(query: &str) -> (r: String)
    ensures
        r@ == fallback_response_spec(query@),
{
    if contains_ci(query, "task") && contains_ci(query, "add") {
        String::from_str(
            "To add a task, use: agentic task add --title 'Your task title' --priority [low|medium|high]",
        )
    } else if contains_ci(query, "task") && contains_ci(query, "list") {
        String::from_str("To list tasks, use: agentic task list")
    } else if contains_ci(query, "prep") && contains_ci(query, "start") {
        String::from_str("To start a preparation session, use: agentic prep start --exam [exam_name]")
    } else if contains_ci(query, "blog") {
        String::from_str("For blog commands, use: agentic blog --help")
    } else {
        let mut s = String::from_str(
            "I'd love to help, but I need an OpenAI API key to provide intelligent responses.\nPlease set the OPENAI_API_KEY environment variable or add it to your config.\n\nFor now, here are some basic commands you can try:\n- agentic task add --title 'Your task'\n- agentic prep start --exam CET\n- agentic blog new --title 'Your blog post'\n- agentic run 'your command here'\n\nYour query: ",
        );
        s.append(query);
        s
    }
}

/// The enriched canned answer used when the local backend is down, keyed
/// by substrings of the lower-cased query.
pub open spec fn ollama_fallback_spec(q: Seq<char>) -> Seq<char> {
    let l = lower_seq(q);
    if contains_seq(l, lower_seq("study"@)) && contains_seq(l, lower_seq("plan"@)) {
        study_plan_text()
    } else if contains_seq(l, lower_seq("task"@)) && (contains_seq(l, lower_seq("add"@))
        || contains_seq(l, lower_seq("create"@))) {
        "📝 To add a task: `agentic task add --title 'Your task' --priority [low|medium|high] --description 'Optional description'`"@
    } else if contains_seq(l, lower_seq("task"@)) && (contains_seq(l, lower_seq("list"@))
        || contains_seq(l, lower_seq("show"@))) {
        "📋 To list tasks: `agentic task list` (add --status todo/in-progress/done for filtering)"@
    } else if contains_seq(l, lower_seq("prep"@)) || contains_seq(l, lower_seq("exam"@)) {
        "🎯 For exam preparation: `agentic prep start --exam [EXAM_NAME] --schedule daily`\nThen add topics: `agentic prep add --topic 'Your Topic' --priority 5`"@
    } else if contains_seq(l, lower_seq("blog"@)) || contains_seq(l, lower_seq("write"@)) {
        "✍️ For blogging: `agentic blog new --title 'Your Title' --tags topic1,topic2`\nEdit: `agentic blog edit --post-id [ID]`"@
    } else if contains_seq(l, lower_seq("productivity"@)) || contains_seq(
        l,
        lower_seq("organize"@),
    ) {
        productivity_text()
    } else {
        free_mode_prefix() + q + free_mode_suffix()
    }
}

/// The canned weekly study plan.
pub open spec fn study_plan_text() -> Seq<char> {
    "📚 **Study Plan Suggestion**\n\nBased on your request for a study plan, here's a structured approach:\n\n**This Week's Schedule:**\n• Monday: Review fundamentals and create task list\n• Tuesday-Thursday: Focus on core topics (2-3 hours daily)\n• Friday: Practice problems and assessments\n• Weekend: Review, summarize, and prepare for next week\n\n**Suggested Commands:**\n• Create tasks: `agentic task add --title 'Study Topic X' --priority high`\n• Start prep session: `agentic prep start --exam [YOUR_EXAM] --duration 120`\n• Track progress: `agentic prep stats --period week`\n\n**💡 Tip:** Install Ollama (https://ollama.ai) for unlimited AI assistance!\nRun: `ollama pull gemma3` to get started with free AI support."@
}

/// The canned productivity toolkit.
pub open spec fn productivity_text() -> Seq<char> {
    "🚀 **Productivity Boost**\n\nHere's your productivity toolkit:\n• `agentic task add --title 'Daily Goals' --priority high`\n• `agentic prep start --exam 'Personal Development'`\n• `agentic blog new --title 'Progress Journal'`\n\n**🔥 Pro Tip:** For unlimited AI assistance, install Ollama!\nVisit: https://ollama.ai and run `ollama pull gemma3`"@
}

/// What comes before the echoed query in the free-mode answer.
pub open spec fn free_mode_prefix() -> Seq<char> {
    "🤖 **AI Assistant (Free Mode)**\n\nI'm running in free mode with enhanced pattern matching. For unlimited AI responses:\n\n**Option 1: Install Ollama (Recommended - Free & Unlimited)**\n1. Visit https://ollama.ai and download Ollama\n2. Run: `ollama pull gemma3`\n3. Restart agentic CLI for automatic AI support\n\n**Option 2: Use OpenAI**\nAdd your API key to the config file\n\n**Your Query:** "@
}

/// What comes after the echoed query in the free-mode answer.
pub open spec fn free_mode_suffix() -> Seq<char> {
    "\n\n**Quick Commands:**\n• Tasks: `agentic task add --title 'Your task'`\n• Study: `agentic prep start --exam CET`\n• Blog: `agentic blog new --title 'Post title'`\n• Run: `agentic run 'any command'`"@
}

/// The enriched keyword answer used when the local backend is down.
pub fn generate_ollama_fallback_response(query: &str) -> (r: String)
    ensures
        r@ == ollama_fallback_spec(query@),
{
    if contains_ci(query, "study") && contains_ci(query, "plan") {
        String::from_str(
            "📚 **Study Plan Suggestion**\n\nBased on your request for a study plan, here's a structured approach:\n\n**This Week's Schedule:**\n• Monday: Review fundamentals and create task list\n• Tuesday-Thursday: Focus on core topics (2-3 hours daily)\n• Friday: Practice problems and assessments\n• Weekend: Review, summarize, and prepare for next week\n\n**Suggested Commands:**\n• Create tasks: `agentic task add --title 'Study Topic X' --priority high`\n• Start prep session: `agentic prep start --exam [YOUR_EXAM] --duration 120`\n• Track progress: `agentic prep stats --period week`\n\n**💡 Tip:** Install Ollama (https://ollama.ai) for unlimited AI assistance!\nRun: `ollama pull gemma3` to get started with free AI support.",
        )
    } else if contains_ci(query, "task") && (contains_ci(query, "add") || contains_ci(
        query,
        "create",
    )) {
        String::from_str(
            "📝 To add a task: `agentic task add --title 'Your task' --priority [low|medium|high] --description 'Optional description'`",
        )
    } else if contains_ci(query, "task") && (contains_ci(query, "list") || contains_ci(
        query,
        "show",
    )) {
        String::from_str(
            "📋 To list tasks: `agentic task list` (add --status todo/in-progress/done for filtering)",
        )
    } else if contains_ci(query, "prep") || contains_ci(query, "exam") {
        String::from_str(
            "🎯 For exam preparation: `agentic prep start --exam [EXAM_NAME] --schedule daily`\nThen add topics: `agentic prep add --topic 'Your Topic' --priority 5`",
        )
    } else if contains_ci(query, "blog") || contains_ci(query, "write") {
        String::from_str(
            "✍️ For blogging: `agentic blog new --title 'Your Title' --tags topic1,topic2`\nEdit: `agentic blog edit --post-id [ID]`",
        )
    } else if contains_ci(query, "productivity") || contains_ci(query, "organize") {
        String::from_str(
            "🚀 **Productivity Boost**\n\nHere's your productivity toolkit:\n• `agentic task add --title 'Daily Goals' --priority high`\n• `agentic prep start --exam 'Personal Development'`\n• `agentic blog new --title 'Progress Journal'`\n\n**🔥 Pro Tip:** For unlimited AI assistance, install Ollama!\nVisit: https://ollama.ai and run `ollama pull gemma3`",
        )
    } else {
        let mut s = String::from_str(
            "🤖 **AI Assistant (Free Mode)**\n\nI'm running in free mode with enhanced pattern matching. For unlimited AI responses:\n\n**Option 1: Install Ollama (Recommended - Free & Unlimited)**\n1. Visit https://ollama.ai and download Ollama\n2. Run: `ollama pull gemma3`\n3. Restart agentic CLI for automatic AI support\n\n**Option 2: Use OpenAI**\nAdd your API key to the config file\n\n**Your Query:** ",
        );
        s.append(query);
        s.append(
            "\n\n**Quick Commands:**\n• Tasks: `agentic task add --title 'Your task'`\n• Study: `agentic prep start --exam CET`\n• Blog: `agentic blog new --title 'Post title'`\n• Run: `agentic run 'any command'`",
        );
        s
    }
}

/// The query rephrased so the assistant answers with one CLI command.
pub fn interpret_prompt(query: &str) -> (r: String)
    ensures
        r@
            == "Convert this natural language request into a specific CLI command using the agentic CLI tool: "@
            + query@,
{
    let mut s = String::from_str(
        "Convert this natural language request into a specific CLI command using the agentic CLI tool: ",
    );
    s.append(query);
    s
}

/// The assistant's system prompt.
pub fn create_system_prompt() -> (r: String)
    ensures
        r@
            == "You are an intelligent CLI assistant that helps users with terminal commands and task management.\n\nYour primary responsibilities:\n1. Convert natural language queries into specific CLI commands\n2. Provide helpful explanations for complex commands\n3. Suggest best practices and alternatives\n4. Help with task management, study preparation, and productivity\n\nAvailable command categories:\n- task: Task management (add, list, complete, priority)\n- prep: Study and exam preparation\n- blog: Content creation and blogging\n- run: Execute arbitrary commands\n- agent: AI-powered assistance\n\nWhen responding:\n- Be concise and practical\n- Provide the exact command to run when possible\n- Include brief explanations for complex commands\n- Suggest safer alternatives for potentially dangerous operations\n- Use modern CLI tools and best practices"@,
{
    String::from_str(
        "You are an intelligent CLI assistant that helps users with terminal commands and task management.\n\nYour primary responsibilities:\n1. Convert natural language queries into specific CLI commands\n2. Provide helpful explanations for complex commands\n3. Suggest best practices and alternatives\n4. Help with task management, study preparation, and productivity\n\nAvailable command categories:\n- task: Task management (add, list, complete, priority)\n- prep: Study and exam preparation\n- blog: Content creation and blogging\n- run: Execute arbitrary commands\n- agent: AI-powered assistance\n\nWhen responding:\n- Be concise and practical\n- Provide the exact command to run when possible\n- Include brief explanations for complex commands\n- Suggest safer alternatives for potentially dangerous operations\n- Use modern CLI tools and best practices",
    )
}

} // verus!
