//! Chat messages and the generation backend's response shape.
//!
//! The HTTP exchange itself happens in the surrounding application; the
//! message values and the prompt they are flattened into are built here.

use vstd::prelude::*;
use crate::text::str_eq;

verus! {

/// One message of a chat exchange.
#[derive(Clone, Debug)]
pub struct ChatMessage {
    pub role: String,
    pub content: String,
}

impl ChatMessage {
    pub fn system(content: &str) -> (r: Self)
        ensures
            r.role@ == "system"@,
            r.content@ == content@,
    {
        ChatMessage { role: String::from_str("system"), content: String::from_str(content) }
    }

    pub fn user(content: &str) -> (r: Self)
        ensures
            r.role@ == "user"@,
            r.content@ == content@,
    {
        ChatMessage { role: String::from_str("user"), content: String::from_str(content) }
    }

    pub fn assistant(content: &str) -> (r: Self)
        ensures
            r.role@ == "assistant"@,
            r.content@ == content@,
    {
        ChatMessage { role: String::from_str("assistant"), content: String::from_str(content) }
    }
}

/// What the generation backend answers: the generated text and the
/// bookkeeping counters it reports.
#[derive(Clone, Debug)]
pub struct OllamaResponse {
    pub model: String,
    pub response: String,
    pub done: bool,
    pub context: Vec<u32>,
    pub total_duration: Option<u64>,
    pub load_duration: Option<u64>,
    pub prompt_eval_count: Option<u32>,
    pub prompt_eval_duration: Option<u64>,
    pub eval_count: Option<u32>,
    pub eval_duration: Option<u64>,
}

/// One chat message flattened into prompt text: the labelled roles get
/// their label, any other role is written as it is.
pub open spec fn message_line(role: Seq<char>, content: Seq<char>) -> Seq<char> {
    if role == "system"@ {
        "System: "@ + content + "\n"@
    } else if role == "user"@ {
        "User: "@ + content + "\n"@
    } else if role == "assistant"@ {
        "Assistant: "@ + content + "\n"@
    } else {
        role + ": "@ + content + "\n"@
    }
}

/// The whole exchange flattened, oldest first.
pub open spec fn chat_prompt_spec(messages: Seq<ChatMessage>) -> Seq<char>
    decreases messages.len(),
{
    if messages.len() == 0 {
        "Assistant: "@
    } else {
        message_line(messages[0].role@, messages[0].content@) + chat_prompt_spec(
            messages.drop_first(),
        )
    }
}

/// Flattens a chat exchange into a single prompt, each message on its own
/// labelled line, ending with the assistant label that invites the answer.
pub fn format_chat_prompt(messages: &Vec<ChatMessage>) -> (r: String)
    ensures
        r@ == chat_prompt_spec(messages@),
{
    let mut prompt = String::new();
    let mut i: usize = 0;
    proof {
        assert(messages@.skip(0) =~= messages@);
        assert(prompt@ + chat_prompt_spec(messages@) =~= chat_prompt_spec(messages@));
    }
    while i < messages.len()
        invariant
            0 <= i <= messages@.len(),
            chat_prompt_spec(messages@) == prompt@ + chat_prompt_spec(messages@.skip(i as int)),
        decreases messages@.len() - i,
    {
        let m = &messages[i];
        let ghost before = prompt@;
        if str_eq(m.role.as_str(), "system") {
            prompt.append("System: ");
            prompt.append(m.content.as_str());
            prompt.append("\n");
        } else if str_eq(m.role.as_str(), "user") {
            prompt.append("User: ");
            prompt.append(m.content.as_str());
            prompt.append("\n");
        } else if str_eq(m.role.as_str(), "assistant") {
            prompt.append("Assistant: ");
            prompt.append(m.content.as_str());
            prompt.append("\n");
        } else {
            prompt.append(m.role.as_str());
            prompt.append(": ");
            prompt.append(m.content.as_str());
            prompt.append("\n");
        }
        proof {
            let rest = messages@.skip(i as int);
            assert(rest[0] == messages@[i as int]);
            assert(rest.drop_first() =~= messages@.skip(i + 1));
            assert(prompt@ == before + message_line(m.role@, m.content@));
            assert(before + (message_line(m.role@, m.content@) + chat_prompt_spec(
                messages@.skip(i + 1),
            )) =~= prompt@ + chat_prompt_spec(messages@.skip(i + 1)));
        }
        i = i + 1;
    }
    proof {
        assert(messages@.skip(messages@.len() as int) =~= Seq::<ChatMessage>::empty());
    }
    prompt.append("Assistant: ");
    prompt
}

} // verus!
