//! Presentation decisions: which sprite, model and animation show what the
//! game does.

pub mod control;
pub mod handlers;
pub mod hud;
pub mod sprites;
