//! Drawn objects and effects.

pub mod objectmap;

use vstd::prelude::*;

verus! {

/// A short animation played at a tile.
#[derive(Copy, Clone, Debug, PartialEq, Eq, Structural)]
pub enum EffectType {
    Splash,
    Sparkles,
    Fireworks,
}

} // verus!
