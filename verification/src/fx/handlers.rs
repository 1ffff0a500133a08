use vstd::prelude::*;
use crate::data::model::ModelId;
use crate::data::sprite::SpriteId;
use crate::data::terrain::{Compass, EntityKind, Terrain};
use crate::fx::sprites::{spec_model_for_ent, sprite_facing};

verus! {

/// Why a game ended.
#[derive(Copy, Clone, Debug, PartialEq, Eq, Structural)]
pub enum GameOverReason {
    LevelComplete,
    Drowned,
    Burned,
    Bombed,
    Collided,
    Eaten,
    TimeOut,
    NotOkay,
}

/// The colour of a key and of the lock it opens.
#[derive(Copy, Clone, Debug, PartialEq, Eq, Structural)]
pub enum KeyColor {
    Red,
    Green,
    Blue,
    Yellow,
}

/// The player's sprite when the game ends: cheering after a win, a splash
/// after drowning, burned otherwise.
pub open spec fn spec_game_over_sprite(reason: GameOverReason) -> SpriteId {
    match reason {
        GameOverReason::LevelComplete => SpriteId::PlayerCheer,
        GameOverReason::Drowned => SpriteId::WaterSplash,
        _ => SpriteId::PlayerBurned,
    }
}

/// The player's sprite when the game ends.
pub fn game_over_sprite(reason: GameOverReason) -> (r: SpriteId)
    ensures
        r == spec_game_over_sprite(reason),
{
    match reason {
        GameOverReason::LevelComplete => SpriteId::PlayerCheer,
        GameOverReason::Drowned => SpriteId::WaterSplash,
        GameOverReason::Burned => SpriteId::PlayerBurned,
        GameOverReason::Bombed => SpriteId::PlayerBurned,
        GameOverReason::Collided => SpriteId::PlayerBurned,
        GameOverReason::Eaten => SpriteId::PlayerBurned,
        GameOverReason::TimeOut => SpriteId::PlayerBurned,
        GameOverReason::NotOkay => SpriteId::PlayerBurned,
    }
}

/// The lock that sinks away when a key of this colour opens it.
pub open spec fn spec_lock_sprite(key: KeyColor) -> SpriteId {
    match key {
        KeyColor::Red => SpriteId::RedLock,
        KeyColor::Green => SpriteId::GreenLock,
        KeyColor::Blue => SpriteId::BlueLock,
        KeyColor::Yellow => SpriteId::YellowLock,
    }
}

/// The key that rises and fades when it opens a lock.
pub open spec fn spec_key_sprite(key: KeyColor) -> SpriteId {
    match key {
        KeyColor::Red => SpriteId::RedKey,
        KeyColor::Green => SpriteId::GreenKey,
        KeyColor::Blue => SpriteId::BlueKey,
        KeyColor::Yellow => SpriteId::YellowKey,
    }
}

/// The colour of a key or lock sprite, by its name, and whether it is a
/// lock.
pub open spec fn sprite_color(s: SpriteId) -> Option<(KeyColor, bool)> {
    match s {
        SpriteId::RedKey => Some((KeyColor::Red, false)),
        SpriteId::GreenKey => Some((KeyColor::Green, false)),
        SpriteId::BlueKey => Some((KeyColor::Blue, false)),
        SpriteId::YellowKey => Some((KeyColor::Yellow, false)),
        SpriteId::RedLock => Some((KeyColor::Red, true)),
        SpriteId::GreenLock => Some((KeyColor::Green, true)),
        SpriteId::BlueLock => Some((KeyColor::Blue, true)),
        SpriteId::YellowLock => Some((KeyColor::Yellow, true)),
        _ => None,
    }
}

/// Opening a lock shows the lock and the key of the key's own colour.
pub proof fn law_lock_and_key_match(key: KeyColor)
    ensures
        sprite_color(spec_lock_sprite(key)) == Some((key, true)),
        sprite_color(spec_key_sprite(key)) == Some((key, false)),
{
}

/// The lock that sinks away when a key of this colour opens it.
pub fn lock_sprite(key: KeyColor) -> (r: SpriteId)
    ensures
        r == spec_lock_sprite(key),
{
    match key {
        KeyColor::Red => SpriteId::RedLock,
        KeyColor::Green => SpriteId::GreenLock,
        KeyColor::Blue => SpriteId::BlueLock,
        KeyColor::Yellow => SpriteId::YellowLock,
    }
}

/// The key that rises and fades when it opens a lock.
pub fn key_sprite(key: KeyColor) -> (r: SpriteId)
    ensures
        r == spec_key_sprite(key),
{
    match key {
        KeyColor::Red => SpriteId::RedKey,
        KeyColor::Green => SpriteId::GreenKey,
        KeyColor::Blue => SpriteId::BlueKey,
        KeyColor::Yellow => SpriteId::YellowKey,
    }
}

/// The sprite of the player pushing, facing its facing or else its step
/// direction; no pushing pose for other entities or in water.
pub open spec fn spec_push_sprite(
    kind: EntityKind,
    terrain: Terrain,
    face_dir: Option<Compass>,
    step_dir: Option<Compass>,
) -> Option<SpriteId> {
    if kind != EntityKind::Player || terrain == Terrain::Water {
        None
    } else {
        Some(
            match if face_dir is Some { face_dir } else { step_dir } {
                Some(Compass::Up) => SpriteId::PlayerPushN,
                Some(Compass::Down) => SpriteId::PlayerPushS,
                Some(Compass::Left) => SpriteId::PlayerPushW,
                Some(Compass::Right) => SpriteId::PlayerPushE,
                None => SpriteId::PlayerWalkIdle,
            },
        )
    }
}

/// The sprite of the player pushing, if it shows one.
pub fn push_sprite(
    kind: EntityKind,
    terrain: Terrain,
    face_dir: Option<Compass>,
    step_dir: Option<Compass>,
) -> (r: Option<SpriteId>)
    ensures
        r == spec_push_sprite(kind, terrain, face_dir, step_dir),
{
    if !matches!(kind, EntityKind::Player) {
        return None;
    }
    // No pushing animation in water
    if matches!(terrain, Terrain::Water) {
        return None;
    }
    let dir = match face_dir {
        Some(d) => Some(d),
        None => step_dir,
    };
    Some(
        match dir {
            Some(Compass::Up) => SpriteId::PlayerPushN,
            Some(Compass::Down) => SpriteId::PlayerPushS,
            Some(Compass::Left) => SpriteId::PlayerPushW,
            Some(Compass::Right) => SpriteId::PlayerPushE,
            None => SpriteId::PlayerWalkIdle,
        },
    )
}

/// The player pushes facing the way it faces, or else the way it steps.
pub proof fn law_push_faces_the_push(terrain: Terrain, face_dir: Option<Compass>, step_dir: Option<Compass>, d: Compass)
    ensures
        terrain != Terrain::Water && (face_dir == Some(d) || (face_dir is None && step_dir == Some(d)))
            ==> (spec_push_sprite(EntityKind::Player, terrain, face_dir, step_dir) matches Some(s)
            && sprite_facing(s) == Some(d)),
{
}

/// How the object of a removed entity goes away; in every case it is
/// dropped once its animations end.
#[derive(Copy, Clone, Debug, PartialEq, Eq, Structural)]
pub enum RemovalAnim {
    /// It rises and fades: picked up chips, keys and boots.
    RiseAndFade,
    /// It fades where it is: the socket.
    Fade,
    /// Its animations stop: the bomb.
    StopAnims,
    /// Nothing is added.
    Keep,
}

/// How the object of a removed entity of this kind goes away.
pub open spec fn spec_removal_anim(kind: EntityKind) -> RemovalAnim {
    match kind {
        EntityKind::Chip | EntityKind::BlueKey | EntityKind::RedKey | EntityKind::GreenKey | EntityKind::YellowKey
        | EntityKind::Flippers | EntityKind::FireBoots | EntityKind::IceSkates
        | EntityKind::SuctionBoots => RemovalAnim::RiseAndFade,
        EntityKind::Socket => RemovalAnim::Fade,
        EntityKind::Bomb => RemovalAnim::StopAnims,
        _ => RemovalAnim::Keep,
    }
}

/// How the object of a removed entity of this kind goes away.
pub fn removal_anim(kind: EntityKind) -> (r: RemovalAnim)
    ensures
        r == spec_removal_anim(kind),
{
    match kind {
        EntityKind::Chip | EntityKind::BlueKey | EntityKind::RedKey | EntityKind::GreenKey | EntityKind::YellowKey
        | EntityKind::Flippers | EntityKind::FireBoots | EntityKind::IceSkates
        | EntityKind::SuctionBoots => RemovalAnim::RiseAndFade,
        EntityKind::Socket => RemovalAnim::Fade,
        EntityKind::Bomb => RemovalAnim::StopAnims,
        _ => RemovalAnim::Keep,
    }
}

/// What the presentation does when a tile's terrain changes.
#[derive(Copy, Clone, Debug, PartialEq, Eq, Structural)]
pub enum TerrainChange {
    /// Raise or lower the existing toggle wall to match the terrain.
    ToggleWall,
    RemoveToggleWall,
    /// Add a toggle wall, raised or lowered.
    CreateToggleWall(bool),
    RemoveFire,
    CreateFire,
    RecessedWallRaised,
    RemoveWallMirage,
    CreateWallMirage,
    RemoveWaterHazard,
    CreateWaterHazard,
    CreateFakeBlueWall,
    RemoveFakeBlueWall,
    CreateBearTrap,
    RemoveBearTrap,
    Nothing,
}

/// What the presentation does when a tile changes from `old` to `new`; the
/// first rule that applies decides.
pub open spec fn spec_terrain_change(old: Terrain, new: Terrain) -> TerrainChange {
    if old == Terrain::ToggleFloor && new == Terrain::ToggleWall {
        TerrainChange::ToggleWall
    } else if old == Terrain::ToggleWall && new == Terrain::ToggleFloor {
        TerrainChange::ToggleWall
    } else if old == Terrain::ToggleFloor || old == Terrain::ToggleWall {
        TerrainChange::RemoveToggleWall
    } else if new == Terrain::ToggleFloor {
        TerrainChange::CreateToggleWall(false)
    } else if new == Terrain::ToggleWall {
        TerrainChange::CreateToggleWall(true)
    } else if old == Terrain::Fire {
        TerrainChange::RemoveFire
    } else if new == Terrain::Fire {
        TerrainChange::CreateFire
    } else if old == Terrain::RecessedWall && new == Terrain::Wall {
        TerrainChange::RecessedWallRaised
    } else if old == Terrain::InvisibleWall && new == Terrain::HiddenWall {
        TerrainChange::Nothing
    } else if old == Terrain::HiddenWall && new == Terrain::InvisibleWall {
        TerrainChange::Nothing
    } else if old == Terrain::InvisibleWall || old == Terrain::HiddenWall {
        TerrainChange::RemoveWallMirage
    } else if new == Terrain::InvisibleWall || new == Terrain::HiddenWall {
        TerrainChange::CreateWallMirage
    } else if old == Terrain::WaterHazard {
        TerrainChange::RemoveWaterHazard
    } else if new == Terrain::WaterHazard {
        TerrainChange::CreateWaterHazard
    } else if new == Terrain::FakeBlueWall {
        TerrainChange::CreateFakeBlueWall
    } else if old == Terrain::FakeBlueWall {
        TerrainChange::RemoveFakeBlueWall
    } else if new == Terrain::BearTrap {
        TerrainChange::CreateBearTrap
    } else if old == Terrain::BearTrap {
        TerrainChange::RemoveBearTrap
    } else {
        TerrainChange::Nothing
    }
}

/// What the presentation does when a tile changes from `old` to `new`.
pub fn terrain_change(old: Terrain, new: Terrain) -> (r: TerrainChange)
    ensures
        r == spec_terrain_change(old, new),
{
    match (old, new) {
        (Terrain::ToggleFloor, Terrain::ToggleWall) => TerrainChange::ToggleWall,
        (Terrain::ToggleWall, Terrain::ToggleFloor) => TerrainChange::ToggleWall,
        (Terrain::ToggleFloor, _) => TerrainChange::RemoveToggleWall,
        (Terrain::ToggleWall, _) => TerrainChange::RemoveToggleWall,
        (_, Terrain::ToggleFloor) => TerrainChange::CreateToggleWall(false),
        (_, Terrain::ToggleWall) => TerrainChange::CreateToggleWall(true),
        (Terrain::Fire, _) => TerrainChange::RemoveFire,
        (_, Terrain::Fire) => TerrainChange::CreateFire,
        (Terrain::RecessedWall, Terrain::Wall) => TerrainChange::RecessedWallRaised,
        (Terrain::InvisibleWall, Terrain::HiddenWall) => TerrainChange::Nothing,
        (Terrain::HiddenWall, Terrain::InvisibleWall) => TerrainChange::Nothing,
        (Terrain::InvisibleWall | Terrain::HiddenWall, _) => TerrainChange::RemoveWallMirage,
        (_, Terrain::InvisibleWall | Terrain::HiddenWall) => TerrainChange::CreateWallMirage,
        (Terrain::WaterHazard, _) => TerrainChange::RemoveWaterHazard,
        (_, Terrain::WaterHazard) => TerrainChange::CreateWaterHazard,
        (_, Terrain::FakeBlueWall) => TerrainChange::CreateFakeBlueWall,
        (Terrain::FakeBlueWall, _) => TerrainChange::RemoveFakeBlueWall,
        (_, Terrain::BearTrap) => TerrainChange::CreateBearTrap,
        (Terrain::BearTrap, _) => TerrainChange::RemoveBearTrap,
        _ => TerrainChange::Nothing,
    }
}

/// A tile whose terrain does not change needs no new decoration, except a
/// toggle wall, fire, mirage, water hazard, fake wall or trap being set up
/// again on its own kind of tile.
pub proof fn law_terrain_change_same(t: Terrain)
    ensures
        spec_terrain_change(t, t) == match t {
            Terrain::ToggleFloor | Terrain::ToggleWall => TerrainChange::RemoveToggleWall,
            Terrain::Fire => TerrainChange::RemoveFire,
            Terrain::InvisibleWall | Terrain::HiddenWall => TerrainChange::RemoveWallMirage,
            Terrain::WaterHazard => TerrainChange::RemoveWaterHazard,
            Terrain::FakeBlueWall => TerrainChange::CreateFakeBlueWall,
            Terrain::BearTrap => TerrainChange::CreateBearTrap,
            _ => TerrainChange::Nothing,
        },
{
}

/// The boots the thief takes.
#[derive(Copy, Clone, Debug, PartialEq, Eq, Structural)]
pub struct Boots {
    pub flippers: bool,
    pub fire_boots: bool,
    pub ice_skates: bool,
    pub suction_boots: bool,
}

/// The sprites of the boots the thief takes, in a fixed order: flippers,
/// fire boots, ice skates, suction boots.
pub open spec fn spec_thief_sprites(boots: Boots) -> Seq<SpriteId> {
    (if boots.flippers { seq![SpriteId::Flippers] } else { Seq::empty() })
        + (if boots.fire_boots { seq![SpriteId::FireBoots] } else { Seq::empty() })
        + (if boots.ice_skates { seq![SpriteId::IceSkates] } else { Seq::empty() })
        + (if boots.suction_boots { seq![SpriteId::SuctionBoots] } else { Seq::empty() })
}

/// The sprites of the boots the thief takes, in a fixed order.
pub fn thief_sprites(boots: Boots) -> (r: Vec<SpriteId>)
    ensures
        r@ == spec_thief_sprites(boots),
{
    let mut sprites: Vec<SpriteId> = Vec::new();
    if boots.flippers {
        sprites.push(SpriteId::Flippers);
    }
    if boots.fire_boots {
        sprites.push(SpriteId::FireBoots);
    }
    if boots.ice_skates {
        sprites.push(SpriteId::IceSkates);
    }
    if boots.suction_boots {
        sprites.push(SpriteId::SuctionBoots);
    }
    assert(sprites@ =~= spec_thief_sprites(boots));
    sprites
}

/// Height of an entity's object above the field: blocks sit at the base,
/// anything on a clone machine sits on top of it (when that is asked for),
/// sockets and thieves are raised a little.
pub open spec fn spec_ent_z(kind: EntityKind, terrain: Terrain, check_elevated: bool) -> int {
    if kind == EntityKind::Block || kind == EntityKind::IceBlock {
        0
    } else if check_elevated && terrain == Terrain::CloneMachine {
        20
    } else if kind == EntityKind::Socket {
        2
    } else if kind == EntityKind::Thief {
        1
    } else {
        0
    }
}

/// Height of an entity's object above the field; `terrain` is the terrain
/// under it.
pub fn ent_z(kind: EntityKind, terrain: Terrain, check_elevated: bool) -> (r: i32)
    ensures
        r == spec_ent_z(kind, terrain, check_elevated),
{
    let elevated = matches!(terrain, Terrain::CloneMachine);
    let base_z: i32 = match kind {
        EntityKind::Socket => 2,
        EntityKind::Thief => 1,
        _ => 0,
    };
    // Blocks appear on top of walls
    if matches!(kind, EntityKind::Block | EntityKind::IceBlock) {
        0
    } else if check_elevated && elevated {
        20
    } else {
        base_z
    }
}

/// The model of a newly created entity: flat on the floor when it sits on
/// a clone machine, else the kind's own.
pub fn created_model(kind: EntityKind, terrain: Terrain) -> (r: ModelId)
    ensures
        r == if spec_ent_z(kind, terrain, true) >= 20 { ModelId::FloorSprite } else { spec_model_for_ent(kind) },
{
    if ent_z(kind, terrain, true) >= 20 {
        ModelId::FloorSprite
    } else {
        match kind {
            EntityKind::Block => ModelId::Wall,
            EntityKind::IceBlock => ModelId::Wall,
            EntityKind::Tank => ModelId::Tank,
            EntityKind::Bug => ModelId::FlatSprite,
            EntityKind::Blob => ModelId::ReallyFlatSprite,
            EntityKind::Paramecium => ModelId::ReallyFlatSprite,
            _ => ModelId::Sprite,
        }
    }
}

/// How high an entity hops when it steps: pink balls and walkers bounce.
pub fn jump_height(kind: EntityKind) -> (r: i32)
    ensures
        r == if kind == EntityKind::PinkBall || kind == EntityKind::Walker { 6int } else { 0int },
{
    match kind {
        EntityKind::PinkBall => 6,
        EntityKind::Walker => 6,
        _ => 0,
    }
}

/// Height a toggle wall moves to: up on a toggle wall tile, sunk otherwise.
pub fn toggle_wall_z(terrain: Terrain) -> (r: i32)
    ensures
        r == if terrain == Terrain::ToggleWall { 0int } else { -21int },
{
    if matches!(terrain, Terrain::ToggleWall) { 0 } else { -21 }
}

} // verus!
