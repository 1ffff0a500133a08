//! Level editor logic.

pub mod editstate;
pub mod encode;
pub mod field;
pub mod history;
pub mod resize;
pub mod session;
pub mod tool;
