//! Verified view logic of an agent conversation: what a thread view shows and
//! how its state changes, apart from drawing it.

pub mod text;
pub mod keyed;
pub mod model;
pub mod numbered_code;
pub mod code_layout;
pub mod permissions;
pub mod zed_todos;
pub mod callouts;
pub mod feedback;
pub mod thinking;
pub mod turn;
pub mod thread_view;
pub mod following;
pub mod queue;
pub mod sending;
pub mod editing;
pub mod events;
pub mod terminal_card;
pub mod tool_call;
pub mod subagent;
pub mod skills;
pub mod response;
pub mod entry;
pub mod edits;
pub mod todos_surface;
pub mod activity;
pub mod usage;
pub mod model_controls;
pub mod editor_controls;
pub mod view;
pub mod links;
pub mod dock;
