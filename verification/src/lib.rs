//! Core library of the agentic command-line assistant.
//!
//! The heart of the crate is the Warp pipeline: a natural-language request is
//! turned into a plan, the plan into a shell command, the command is checked
//! against a safety policy and, once confirmed, executed by a shell runner.
//! The modules here hold the verified logic of that pipeline together with
//! the managers (themes, workflows, key bindings, rendering helpers) that the
//! surrounding terminal application uses.

pub mod agent;
pub mod agents;
pub mod commands;
pub mod components;
pub mod config;
pub mod events;
pub mod history;
pub mod keybindings;
pub mod messages;
pub mod palette;
pub mod performance;
pub mod pipeline;
pub mod plans;
pub mod registry;
pub mod safety;
pub mod shell;
pub mod text;
pub mod themes;
pub mod ui;
pub mod warp;
pub mod workflows;
