use agentic::config::{AgentConfig, Config, Theme};
use agentic::messages::{format_chat_prompt, ChatMessage};
use agentic::ui::{AppMode, InputMode};

#[test]
fn chat_messages_carry_their_roles() {
    let m = ChatMessage::system("be brief");
    assert_eq!(m.role, "system");
    assert_eq!(m.content, "be brief");
    assert_eq!(ChatMessage::user("hi").role, "user");
    assert_eq!(ChatMessage::assistant("hello").role, "assistant");
}

#[test]
fn chat_prompt_flattens_the_exchange() {
    let messages = vec![
        ChatMessage::system("be brief"),
        ChatMessage::user("hi"),
        ChatMessage::assistant("hello"),
        ChatMessage { role: String::from("tool"), content: String::from("42") },
    ];
    assert_eq!(
        format_chat_prompt(&messages),
        "System: be brief\nUser: hi\nAssistant: hello\ntool: 42\nAssistant: "
    );
    assert_eq!(format_chat_prompt(&Vec::new()), "Assistant: ");
}

#[test]
fn default_config_values() {
    let config = Config::with_config_dir("/home/someone/.agentic");
    assert_eq!(config.database_path, "/home/someone/.agentic/history.db");
    assert_eq!(config.openai_api_key, None);
    assert!(config.theme.dark_mode);
    assert_eq!(config.theme.primary_color, "#61dafb");
    assert_eq!(config.agent.model, "gpt-3.5-turbo");
    assert_eq!(config.agent.temperature_milli, 700);
    assert_eq!(config.agent.max_tokens, 1000);
    assert_eq!(config.agent.timeout_seconds, 30);
    assert!(config.get_openai_api_key().is_none());

    let theme = Theme::default();
    assert_eq!(theme.text_color, "#ffffff");
    let agent = AgentConfig::default();
    assert_eq!(agent.timeout_seconds, 30);
}

#[test]
fn interface_modes_compare_structurally() {
    assert_eq!(AppMode::Normal, AppMode::Normal);
    assert_ne!(AppMode::Agent, AppMode::Help);
    assert_eq!(InputMode::Editing, InputMode::Editing);
    assert_ne!(InputMode::Normal, InputMode::Editing);
}

#[test]
fn test_terminal_setup_and_restore() {
    // Deliberately inert, as in the original suite: grabbing the real
    // terminal here would disturb the test run.
}
