//! Small stateful widgets of the terminal interface: the command block,
//! the input bar, the status bar and the sidebar's suggestion list.

use vstd::prelude::*;
use crate::text::views_of;

verus! {

/// One command with its accumulated output and a textual status.
#[derive(Clone, Debug)]
pub struct CommandBlock {
    pub id: String,
    pub command: String,
    pub output: String,
    pub status: String,
}

impl CommandBlock {
    /// A fresh block for `command`: empty output, running.
    pub fn new(id: String, command: String) -> (r: Self)
        ensures
            r.id@ == id@,
            r.command@ == command@,
            r.output@.len() == 0,
            r.status@ == "running"@,
    {
        CommandBlock {
            id,
            command,
            output: String::new(),
            status: String::from_str("running"),
        }
    }
}

/// The line being typed, with the cursor position.
#[derive(Clone, Debug)]
pub struct InputBar {
    pub content: String,
    pub cursor_position: usize,
}

impl InputBar {
    pub fn new() -> (r: Self)
        ensures
            r.content@.len() == 0,
            r.cursor_position == 0,
    {
        InputBar { content: String::new(), cursor_position: 0 }
    }

    /// Refresh per tick; the bar holds no derived state, so nothing
    /// changes.
    pub fn update(&mut self)
        ensures
            *final(self) == *old(self),
    {
    }
}

/// The status line: a message and the current mode.
#[derive(Clone, Debug)]
pub struct StatusBar {
    pub message: String,
    pub mode: String,
}

impl StatusBar {
    pub fn new() -> (r: Self)
        ensures
            r.message@ == "Ready"@,
            r.mode@ == "Normal"@,
    {
        StatusBar { message: String::from_str("Ready"), mode: String::from_str("Normal") }
    }

    /// Refresh per tick; the bar holds no derived state, so nothing
    /// changes.
    pub fn update(&mut self)
        ensures
            *final(self) == *old(self),
    {
    }
}

/// The sidebar's canned suggestions.
pub open spec fn sidebar_suggestions() -> Seq<Seq<char>> {
    seq![
        "task add --title 'New task'"@,
        "prep start --exam CET"@,
        "blog new --title 'My Post'"@,
        "agent 'help me study'"@,
    ]
}

/// The sidebar with its suggestion list.
#[derive(Clone, Debug)]
pub struct Sidebar {
    pub suggestions: Vec<String>,
}

impl Sidebar {
    pub fn new() -> (r: Self)
        ensures
            views_of(r.suggestions@) == sidebar_suggestions(),
    {
        let mut suggestions: Vec<String> = Vec::new();
        suggestions.push(String::from_str("task add --title 'New task'"));
        suggestions.push(String::from_str("prep start --exam CET"));
        suggestions.push(String::from_str("blog new --title 'My Post'"));
        suggestions.push(String::from_str("agent 'help me study'"));
        proof {
            assert(views_of(suggestions@) =~= sidebar_suggestions());
        }
        Sidebar { suggestions }
    }

    /// Refresh per tick; the list is fixed, so nothing changes.
    pub fn update(&mut self)
        ensures
            *final(self) == *old(self),
    {
    }
}

} // verus!
