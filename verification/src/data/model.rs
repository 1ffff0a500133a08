use vstd::prelude::*;

verus! {

/// Geometry used to draw a tile or an object.
#[derive(Copy, Clone, Debug, PartialEq, Eq, Structural)]
pub enum ModelId {
    Empty,
    Floor,
    Wall,
    ThinWall,
    ToggleWall,
    Sprite,
    FlatSprite,
    ReallyFlatSprite,
    FloorSprite,
    Portal,
    Tank,
}

/// Scripted animation of an object.
#[derive(Copy, Clone, Debug, PartialEq, Eq, Structural)]
pub enum AnimationId {
    NoAnimation,
    FadeOut,
    FadeIn,
    Fall,
    Raise,
}

} // verus!
