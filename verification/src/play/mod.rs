//! Gameplay progression: level sets, save data and what drives them.

pub mod lvsets;
pub mod savedata;
pub mod state;
