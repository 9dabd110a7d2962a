//! Verified core of the KILD desktop dashboard: projects, layout and tab
//! state, keyboard handling, terminal input encoding and the small text
//! formats the dashboard shows.
use vstd::prelude::*;

pub mod text;
pub mod keybindings;
pub mod input;
pub mod projects;
pub mod paths;
pub mod strmap;
pub mod errors;
pub mod commands;
pub mod layout;
pub mod terminals;
pub mod navigation;
pub mod terminal_tabs;
pub mod dashboard;
pub mod watcher;
pub mod colors;
pub mod blink;
pub mod urls;
pub mod daemon;
pub mod teams;
pub mod grid_layout;
pub mod handlers;
pub mod terminal_error;
pub mod refresh;

verus! {

} // verus!
