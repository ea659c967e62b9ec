//! The logic of a terminal kanban board that assigns agents to tasks: key
//! handling, diff parsing, navigation and the layout of every view.

pub mod app;
pub mod config;
pub mod config_editor;
pub mod diff_view;
pub mod draw;
pub mod editor;
pub mod editor_handler;
pub mod effects;
pub mod help;
pub mod kanban;
pub mod keys;
pub mod loading;
pub mod modes;
pub mod mouse;
pub mod normal;
pub mod overlays;
pub mod page;
pub mod permission;
pub mod permission_modal;
pub mod projects;
pub mod prompts;
pub mod reports;
pub mod review;
pub mod sidebar;
pub mod state;
pub mod status_bar;
pub mod subagent;
pub mod table;
pub mod task_card;
pub mod tasks;
pub mod text;
pub mod utils;
pub mod view;
