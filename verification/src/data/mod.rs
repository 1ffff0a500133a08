//! Plain data shared by the game: positions, directions, terrain, entities,
//! sprites and models.

pub mod model;
pub mod sprite;
pub mod terrain;
