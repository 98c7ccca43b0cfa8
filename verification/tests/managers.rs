use agentic::agent::{generate_fallback_response, generate_ollama_fallback_response, AIProvider};
use agentic::commands::{PostStatus, Priority, SessionStatus, Task, TaskStatus};
use agentic::components::{CommandBlock, InputBar, Sidebar, StatusBar};
use agentic::events::EventHandler;
use agentic::history::{CommandExecution, ExecutionStatus};
use agentic::keybindings::{key_binding_to_string, Key, KeyBinding, KeyBindingManager, Modifiers};
use agentic::palette::CommandPalette;
use agentic::performance::{OptimizedTextRenderer, PerformanceManager, VirtualScroller};
use agentic::plans::parse_plan_response;
use agentic::registry::CommandRegistry;
use agentic::themes::{TerminalColors, Theme, ThemeManager};
use agentic::workflows::{Workflow, WorkflowArgument, WorkflowManager};

#[test]
fn test_fallback_responses() {
    let response = generate_fallback_response("add a task to study");
    assert!(response.contains("agentic task add"));

    let response = generate_fallback_response("start prep for exam");
    assert!(response.contains("agentic prep start"));
}

#[test]
fn ollama_fallback_echoes_unmatched_queries() {
    let response = generate_ollama_fallback_response("tell me a story");
    assert!(response.contains("tell me a story"));
    let response = generate_ollama_fallback_response("show my task list");
    assert!(response.contains("agentic task list"));
    let _ = AIProvider::Ollama;
}

#[test]
fn test_plan_parsing() {
    let response =
        "1. Command: `cargo init --name test`\nDescription: Initialize Rust project\nDependencies: None";
    let plan = parse_plan_response(response, "test goal");

    assert_eq!(plan.steps.len(), 1);
    assert_eq!(plan.steps[0].command, "cargo init --name test");
}

#[test]
fn unparsable_answer_falls_back_to_echo_step() {
    let plan = parse_plan_response("nothing useful here", "test goal");
    assert_eq!(plan.steps.len(), 1);
    assert_eq!(plan.steps[0].command, "echo 'Goal: test goal'");
    assert_eq!(plan.steps[0].description, "Display the goal");
    assert_eq!(plan.steps[0].expected_output, Some(String::from("Goal: test goal")));
    assert_eq!(plan.estimated_duration, 60);
}

#[test]
fn plan_duration_estimates_per_command_kind() {
    let plan = parse_plan_response(
        "1. Command: `npm install`\nDescription: Install dependencies\n2. Command: `npm test`\nDescription: Run the tests\n3. Command: `ls`\nDescription: List files\n",
        "goal",
    );
    assert_eq!(plan.steps.len(), 3);
    assert_eq!(agentic::plans::estimate_plan_duration(&plan.steps), 120 + 60 + 10);
}

#[test]
fn test_priority_parsing() {
    assert!(matches!("high".parse::<Priority>().unwrap(), Priority::High));
    assert!(matches!("medium".parse::<Priority>().unwrap(), Priority::Medium));
    assert!(matches!("low".parse::<Priority>().unwrap(), Priority::Low));
    assert!("invalid".parse::<Priority>().is_err());
}

#[test]
fn test_task_creation() {
    let task = Task::new(
        "Test task".to_string(),
        Some("Test description".to_string()),
        Priority::High,
    );

    assert_eq!(task.title, "Test task");
    assert_eq!(task.description, Some("Test description".to_string()));
    assert!(matches!(task.priority, Priority::High));
    assert!(matches!(task.status, TaskStatus::Todo));
}

#[test]
fn task_ids_are_hyphenated_uuids() {
    let a = Task::new("a".to_string(), None, Priority::Low);
    let b = Task::new("b".to_string(), None, Priority::Low);
    assert_eq!(a.id.chars().count(), 36);
    assert_eq!(b.id.chars().count(), 36);
    assert_ne!(a.id, b.id);
    assert_eq!(a.created_at_ms, a.updated_at_ms);
}

#[test]
fn task_colours_and_icons() {
    let task = Task::new("t".to_string(), None, Priority::Medium);
    assert_eq!(task.priority_color(), "yellow");
    assert_eq!(task.status_icon(), "○");
}

#[test]
fn test_post_status() {
    let status = PostStatus::Draft;
    assert!(matches!(status, PostStatus::Draft));
}

#[test]
fn test_session_status() {
    let status = SessionStatus::Active;
    assert!(matches!(status, SessionStatus::Active));
}

#[test]
fn command_execution_records_start_running() {
    let record = CommandExecution::new(
        String::from("ls -la"),
        Some(String::from("list my files")),
    );
    assert_eq!(record.command, "ls -la");
    assert_eq!(record.output, "");
    assert!(matches!(record.status, ExecutionStatus::Running));
    assert_eq!(record.duration_ms, 0);
    assert_eq!(record.id.chars().count(), 36);
}

fn theme_named(name: &str, tags: Vec<String>, description: Option<String>) -> Theme {
    Theme {
        name: String::from(name),
        accent: String::from("#ff0000"),
        background: String::from("#000000"),
        details: String::from("darker"),
        foreground: String::from("#ffffff"),
        terminal_colors: TerminalColors { normal: Vec::new(), bright: Vec::new() },
        author: None,
        description,
        tags,
    }
}

#[test]
fn themes_load_lookup_and_replace() {
    let mut manager = ThemeManager::new();
    manager.load_themes(vec![
        theme_named("dracula", vec![String::from("dark")], None),
        theme_named("solar", vec![String::from("light")], None),
    ]);
    assert_eq!(manager.list_themes().len(), 2);
    assert!(manager.get_theme("dracula").is_some());
    assert!(manager.get_theme("missing").is_none());

    let mut replacement = theme_named("dracula", vec![String::from("dark")], None);
    replacement.accent = String::from("#00ff00");
    manager.load_themes(vec![replacement]);
    assert_eq!(manager.list_themes().len(), 2);
    assert_eq!(manager.get_theme("dracula").unwrap().accent, "#00ff00");
}

#[test]
fn theme_selection_and_errors() {
    let mut manager = ThemeManager::new();
    manager.load_themes(vec![theme_named("nord", vec![], None)]);
    assert!(manager.get_current_theme().is_none());
    assert!(manager.set_current_theme("nord").is_ok());
    assert_eq!(manager.get_current_theme().unwrap().name, "nord");
    let err = manager.set_current_theme("missing").unwrap_err();
    assert_eq!(err, "Theme 'missing' not found");
}

#[test]
fn theme_search_and_categories() {
    let mut manager = ThemeManager::new();
    manager.load_themes(vec![
        theme_named(
            "midnight",
            vec![String::from("dark"), String::from("popular")],
            Some(String::from("A deep blue look")),
        ),
        theme_named("paper", vec![String::from("light")], None),
    ]);
    assert_eq!(manager.search_themes("BLUE").len(), 1);
    assert_eq!(manager.search_themes("paper").len(), 1);
    assert_eq!(manager.search_themes("nothing").len(), 0);
    assert_eq!(manager.list_themes_by_tag("dark").len(), 1);
    let categories = manager.get_theme_categories();
    let names: Vec<&str> = categories.iter().map(|c| c.0.as_str()).collect();
    assert!(names.contains(&"Dark"));
    assert!(names.contains(&"Light"));
    assert!(names.contains(&"Popular"));
    assert!(!names.contains(&"Minimal"));
}

fn workflow_with(command: &str, args: Vec<WorkflowArgument>) -> Workflow {
    Workflow {
        name: String::from("clone"),
        command: String::from(command),
        description: String::from("Clone a repository"),
        tags: vec![String::from("git")],
        arguments: args,
        author: None,
        author_url: None,
        source_url: None,
        shells: Vec::new(),
    }
}

#[test]
fn workflow_ids_derive_from_paths() {
    let manager = WorkflowManager::new();
    assert_eq!(
        manager.generate_workflow_id("workflows/git/clone.yaml", "workflows"),
        "git/clone"
    );
    assert_eq!(
        manager.generate_workflow_id("elsewhere/deep/run.yml", "workflows"),
        "run"
    );
}

#[test]
fn workflow_execution_substitutes_arguments() {
    let mut manager = WorkflowManager::new();
    let args = vec![
        WorkflowArgument {
            name: String::from("url"),
            description: String::from("Repository URL"),
            default_value: None,
            required: true,
        },
        WorkflowArgument {
            name: String::from("depth"),
            description: String::from("Clone depth"),
            default_value: Some(String::from("1")),
            required: false,
        },
    ];
    manager.load_workflows(vec![(
        String::from("git/clone"),
        workflow_with("git clone --depth {{depth}} {{url}}", args),
    )]);

    let provided = vec![(String::from("url"), String::from("https://example.com/repo.git"))];
    assert_eq!(
        manager.execute_workflow("git/clone", provided).unwrap(),
        "git clone --depth 1 https://example.com/repo.git"
    );

    let err = manager.execute_workflow("git/clone", Vec::new()).unwrap_err();
    assert_eq!(
        err,
        "Required argument 'url' not provided for workflow 'git/clone'"
    );

    let err = manager.execute_workflow("missing", Vec::new()).unwrap_err();
    assert_eq!(err, "Workflow 'missing' not found");
}

#[test]
fn workflow_validation_reports_missing_arguments() {
    let mut manager = WorkflowManager::new();
    let args = vec![WorkflowArgument {
        name: String::from("url"),
        description: String::from("Repository URL"),
        default_value: None,
        required: true,
    }];
    manager.load_workflows(vec![(
        String::from("git/clone"),
        workflow_with("git clone {{url}}", args),
    )]);
    assert!(manager
        .validate_workflow_args(
            "git/clone",
            &vec![(String::from("url"), String::from("x"))]
        )
        .is_ok());
    let err = manager
        .validate_workflow_args("git/clone", &Vec::new())
        .unwrap_err();
    assert_eq!(err, "Required argument 'url' missing for workflow 'git/clone'");
}

#[test]
fn workflow_search_favorites_and_suggestions() {
    let mut manager = WorkflowManager::new();
    manager.load_workflows(vec![
        (String::from("git/clone"), workflow_with("git clone {{url}}", Vec::new())),
        (String::from("docker/up"), {
            let mut w = workflow_with("docker compose up", Vec::new());
            w.name = String::from("compose up");
            w.tags = vec![String::from("docker")];
            w
        }),
    ]);
    assert_eq!(manager.list_workflows().len(), 2);
    assert_eq!(manager.search_workflows("GIT").len(), 1);
    assert_eq!(manager.get_workflows_by_tag("docker").len(), 1);
    assert_eq!(manager.get_workflow_suggestions("git").len(), 1);

    assert!(!manager.is_favorite("git/clone"));
    manager.add_favorite("git/clone");
    manager.add_favorite("git/clone");
    assert!(manager.is_favorite("git/clone"));
    assert_eq!(manager.get_favorites().len(), 1);
    manager.remove_favorite("git/clone");
    assert!(!manager.is_favorite("git/clone"));

    let categories = manager.get_workflow_categories();
    assert_eq!(categories.len(), 2);
}

#[test]
fn palette_filters_and_wraps_selection() {
    let mut palette = CommandPalette::new();
    assert!(!palette.is_visible);
    palette.toggle();
    assert!(palette.is_visible);

    palette.update_filter(String::from("GIT"));
    let filtered = palette.get_filtered_suggestions();
    assert_eq!(filtered.len(), 3);
    assert_eq!(palette.get_selected_suggestion(), Some(String::from("git status")));

    palette.move_selection(-1);
    assert_eq!(
        palette.get_selected_suggestion(),
        Some(String::from("git commit -m 'message'"))
    );
    palette.move_selection(1);
    assert_eq!(palette.get_selected_suggestion(), Some(String::from("git status")));

    palette.toggle();
    assert!(!palette.is_visible);
    assert_eq!(palette.filter, "");
}

#[test]
fn virtual_scroller_clamps_to_content() {
    let mut scroller = VirtualScroller::new(10, 4);
    scroller.update_total_items(7);
    assert_eq!(scroller.max_scroll_offset(), 5);
    assert_eq!(scroller.get_visible_range(), (0, 2));
    scroller.scroll_down(100);
    assert_eq!(scroller.scroll_offset, 5);
    scroller.scroll_up(2);
    assert_eq!(scroller.scroll_offset, 3);
    scroller.scroll_to_item(0);
    assert_eq!(scroller.scroll_offset, 0);
    scroller.scroll_to_item(6);
    assert_eq!(scroller.scroll_offset, 5);
    scroller.update_total_items(2);
    assert_eq!(scroller.scroll_offset, 0);
}

#[test]
fn performance_manager_tracks_dirty_regions_by_priority() {
    let mut manager = PerformanceManager::new();
    manager.mark_dirty(0, 0, 10, 10, 1);
    manager.mark_dirty(1, 1, 5, 5, 9);
    manager.mark_dirty(2, 2, 3, 3, 5);
    let priorities: Vec<u8> = manager.dirty_regions.iter().map(|r| r.priority).collect();
    assert_eq!(priorities, vec![9, 5, 1]);
    manager.clear_dirty_regions();
    assert!(manager.dirty_regions.is_empty());
}

#[test]
fn long_output_is_truncated_with_a_notice() {
    let mut manager = PerformanceManager::new();
    manager.max_output_lines = 2;
    let out = manager.optimize_command_output("a\nb\nc\nd");
    assert_eq!(out, "a\nb\n\n... 2 more lines truncated for performance");
    assert_eq!(manager.optimize_command_output("a\nb"), "a\nb");
}

#[test]
fn command_history_is_trimmed_to_the_limit() {
    let mut manager = PerformanceManager::new();
    manager.max_history_size = 2;
    let mut history = vec![
        CommandExecution::new(String::from("a"), None),
        CommandExecution::new(String::from("b"), None),
        CommandExecution::new(String::from("c"), None),
    ];
    manager.optimize_command_history(&mut history);
    assert_eq!(history.len(), 2);
    assert_eq!(history[0].command, "a");
}

#[test]
fn renderer_highlights_by_language() {
    let mut renderer = OptimizedTextRenderer::new();
    let rust = renderer.render_with_highlighting("fn main() {}", Some("rust"));
    assert_eq!(rust, vec![String::from("\u{1b}[94mfn\u{1b}[0m main() {}")]);

    let shell = renderer.render_with_highlighting("  git status\necho hi", Some("shell"));
    assert_eq!(shell[0], "\u{1b}[92m  git status\u{1b}[0m");
    assert_eq!(shell[1], "echo hi");

    let json = renderer.render_with_highlighting("{\"a\": 1}", Some("json"));
    assert_eq!(json, vec![String::from("{\"a\"\u{1b}[93m:\u{1b}[0m 1}")]);

    let plain = renderer.render_with_highlighting("x: y", None);
    assert_eq!(plain, vec![String::from("x: y")]);
}

#[test]
fn renderer_cache_drops_oldest_when_full() {
    let mut renderer = OptimizedTextRenderer::new();
    renderer.max_cache_size = 2;
    renderer.cache_line(String::from("one"));
    renderer.cache_line(String::from("two"));
    renderer.cache_line(String::from("three"));
    assert_eq!(renderer.line_cache, vec![String::from("two"), String::from("three")]);
}

#[test]
fn registry_splits_raw_commands() {
    let registry = CommandRegistry::new();
    let (cmd, args) = registry.parse_raw_command("ls  -la /tmp").unwrap();
    assert_eq!(cmd, "ls");
    assert_eq!(args, vec![String::from("-la"), String::from("/tmp")]);
    assert!(registry.parse_raw_command("   ").is_none());
    assert!(registry.parse_raw_command("").is_none());
}

#[test]
fn widgets_start_in_their_documented_state() {
    let block = CommandBlock::new(String::from("1"), String::from("ls"));
    assert_eq!(block.status, "running");
    assert_eq!(block.output, "");

    let input = InputBar::new();
    assert_eq!(input.content, "");
    assert_eq!(input.cursor_position, 0);

    let status = StatusBar::new();
    assert_eq!(status.message, "Ready");
    assert_eq!(status.mode, "Normal");

    let sidebar = Sidebar::new();
    assert_eq!(sidebar.suggestions.len(), 4);

    let events = EventHandler::new(16);
    assert_eq!(events.tick_rate_ms, 16);
    assert_eq!(EventHandler::default().tick_rate_ms, 250);
}

#[test]
fn key_descriptions_parse_and_render() {
    let b = KeyBinding::from_string("ctrl-shift-p").unwrap();
    assert_eq!(b.key, Key::Character('p'));
    assert!(b.modifiers.ctrl && b.modifiers.shift && !b.modifiers.alt);

    let b = KeyBinding::from_string("Cmd-Enter").unwrap();
    assert_eq!(b.key, Key::Enter);
    assert!(b.modifiers.ctrl);

    assert_eq!(
        KeyBinding::from_string("f5").unwrap().key,
        Key::Function(5)
    );
    assert_eq!(
        KeyBinding::from_string("space").unwrap().key,
        Key::Character(' ')
    );
    assert!(KeyBinding::from_string("hyper-x").is_err());
    assert!(KeyBinding::from_string("ctrl-unknownkey").is_err());
    assert!(KeyBindingManager::validate_key_string("alt-f4"));
    assert!(!KeyBindingManager::validate_key_string("notakey"));

    let b = KeyBinding::new(
        Key::Character('p'),
        Modifiers { ctrl: true, alt: false, shift: true },
    );
    assert_eq!(key_binding_to_string(&b), "ctrl-shift-p");
}

#[test]
fn keybinding_manager_keeps_a_two_way_table() {
    let mut manager = KeyBindingManager::new();
    manager.load_keyset(
        "default",
        vec![
            (String::from("app:quit"), String::from("ctrl-q")),
            (String::from("app:help"), String::from("f1")),
            (String::from("broken"), String::from("hyper-x")),
        ],
    );
    assert_eq!(manager.get_current_keyset(), Some(&String::from("default")));
    assert!(manager.has_binding("app:quit"));
    assert!(!manager.has_binding("broken"));

    let ctrl = Modifiers { ctrl: true, alt: false, shift: false };
    assert_eq!(
        manager.get_command_for_key(Key::Character('q'), ctrl),
        Some(&String::from("app:quit"))
    );
    assert_eq!(manager.get_command_for_key(Key::Character('z'), ctrl), None);
    assert_eq!(
        manager.get_key_for_command("app:help").unwrap().key,
        Key::Function(1)
    );

    manager.add_binding(
        String::from("app:palette"),
        KeyBinding::new(Key::Character('q'), ctrl),
    );
    assert!(!manager.has_binding("app:quit"));
    assert_eq!(
        manager.get_command_for_key(Key::Character('q'), ctrl),
        Some(&String::from("app:palette"))
    );

    manager.remove_binding("app:palette");
    assert!(!manager.has_binding("app:palette"));

    let categories = manager.get_bindings_by_category();
    assert_eq!(categories.len(), 1);
    assert_eq!(categories[0].0, "app");
    assert_eq!(manager.search_bindings("HELP").len(), 1);

    let exported = manager.export_keyset();
    assert_eq!(exported, vec![(String::from("app:help"), String::from("f1"))]);
}

#[test]
fn priority_and_status_labels() {
    assert_eq!(Priority::High.label(), "HIGH");
    assert_eq!(Priority::Medium.label(), "MED");
    assert_eq!(Priority::Low.label(), "LOW");
    assert_eq!(TaskStatus::Todo.label(), "TODO");
    assert_eq!(TaskStatus::InProgress.label(), "IN PROGRESS");
    assert_eq!(TaskStatus::Complete.label(), "COMPLETE");
}

#[test]
fn planning_prompt_embeds_the_goal() {
    let prompt = agentic::plans::create_planning_prompt("ship the release");
    assert!(prompt.starts_with(
        "Create a detailed execution plan for the following goal: ship the release"
    ));
    let prompt = agentic::agent::interpret_prompt("list files");
    assert!(prompt.ends_with(": list files"));
}
