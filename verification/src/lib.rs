//! Game logic of a Chip's Challenge style tile game: the editor's undo
//! history and tools, level sets and save data, menus, and the decisions
//! that drive the presentation layer.

pub mod config;
pub mod data;
pub mod editor;
pub mod fx;
pub mod menu;
pub mod play;
pub mod render;
