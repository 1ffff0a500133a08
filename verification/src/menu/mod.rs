//! Menus: cursor movement, choices and the events they send.

pub mod about;
pub mod event;
pub mod gameover;
pub mod gamewin;
pub mod input;
pub mod levelselect;
pub mod levelset;
pub mod main;
pub mod options;
pub mod pause;
pub mod scorecard;
pub mod scout;
pub mod text;
pub mod unlocklevel;
