use vstd::prelude::*;
use crate::data::model::ModelId;
use crate::data::sprite::SpriteId;
use crate::data::terrain::{Compass, Entity, EntityKind, Terrain};

verus! {

/// The sprite for a facing: one per direction, and one for no facing.
pub open spec fn dir_sprite(
    face_dir: Option<Compass>,
    up: SpriteId,
    down: SpriteId,
    left: SpriteId,
    right: SpriteId,
    none: SpriteId,
) -> SpriteId {
    match face_dir {
        Some(Compass::Up) => up,
        Some(Compass::Down) => down,
        Some(Compass::Left) => left,
        Some(Compass::Right) => right,
        None => none,
    }
}

/// The sprite for a facing: one per direction, and one for no facing.
fn pick_dir(
    face_dir: Option<Compass>,
    up: SpriteId,
    down: SpriteId,
    left: SpriteId,
    right: SpriteId,
    none: SpriteId,
) -> (r: SpriteId)
    ensures
        r == dir_sprite(face_dir, up, down, left, right, none),
{
    match face_dir {
        Some(Compass::Up) => up,
        Some(Compass::Down) => down,
        Some(Compass::Left) => left,
        Some(Compass::Right) => right,
        None => none,
    }
}

/// The geometry an entity is drawn with: blocks are cubes, tanks have their
/// own model, bugs and blobs lie flatter than other sprites.
pub open spec fn spec_model_for_ent(kind: EntityKind) -> ModelId {
    match kind {
        EntityKind::Block => ModelId::Wall,
        EntityKind::IceBlock => ModelId::Wall,
        EntityKind::Tank => ModelId::Tank,
        EntityKind::Bug => ModelId::FlatSprite,
        EntityKind::Blob => ModelId::ReallyFlatSprite,
        EntityKind::Paramecium => ModelId::ReallyFlatSprite,
        _ => ModelId::Sprite,
    }
}

/// The geometry an entity is drawn with.
pub fn model_for_ent(ent: &Entity) -> (r: ModelId)
    ensures
        r == spec_model_for_ent(ent.kind),
{
    match ent.kind {
        EntityKind::Block => ModelId::Wall,
        EntityKind::IceBlock => ModelId::Wall,
        EntityKind::Tank => ModelId::Tank,
        EntityKind::Bug => ModelId::FlatSprite,
        EntityKind::Blob => ModelId::ReallyFlatSprite,
        EntityKind::Paramecium => ModelId::ReallyFlatSprite,
        _ => ModelId::Sprite,
    }
}

/// The player's sprite: swimming in water, walking elsewhere.
pub open spec fn spec_sprite_for_player(face_dir: Option<Compass>, terrain: Terrain) -> SpriteId {
    if terrain == Terrain::Water {
        dir_sprite(
            face_dir,
            SpriteId::PlayerSwimN,
            SpriteId::PlayerSwimS,
            SpriteId::PlayerSwimW,
            SpriteId::PlayerSwimE,
            SpriteId::PlayerSwimIdle,
        )
    } else {
        dir_sprite(
            face_dir,
            SpriteId::PlayerWalkN,
            SpriteId::PlayerWalkS,
            SpriteId::PlayerWalkW,
            SpriteId::PlayerWalkE,
            SpriteId::PlayerWalkIdle,
        )
    }
}

/// The player's sprite: swimming in water, walking elsewhere.
pub fn sprite_for_player(face_dir: Option<Compass>, terrain: Terrain) -> (r: SpriteId)
    ensures
        r == spec_sprite_for_player(face_dir, terrain),
{
    if matches!(terrain, Terrain::Water) {
        pick_dir(
            face_dir,
            SpriteId::PlayerSwimN,
            SpriteId::PlayerSwimS,
            SpriteId::PlayerSwimW,
            SpriteId::PlayerSwimE,
            SpriteId::PlayerSwimIdle,
        )
    } else {
        pick_dir(
            face_dir,
            SpriteId::PlayerWalkN,
            SpriteId::PlayerWalkS,
            SpriteId::PlayerWalkW,
            SpriteId::PlayerWalkE,
            SpriteId::PlayerWalkIdle,
        )
    }
}

/// A replay ghost's sprite: swimming in water, burned in fire, walking
/// elsewhere; without a facing it shows burned, except in water.
pub open spec fn spec_sprite_for_playernpc(face_dir: Option<Compass>, terrain: Terrain) -> SpriteId {
    if terrain == Terrain::Water {
        dir_sprite(
            face_dir,
            SpriteId::PlayerSwimN,
            SpriteId::PlayerSwimS,
            SpriteId::PlayerSwimW,
            SpriteId::PlayerSwimE,
            SpriteId::PlayerSwimIdle,
        )
    } else if terrain == Terrain::Fire {
        SpriteId::PlayerBurned
    } else {
        dir_sprite(
            face_dir,
            SpriteId::PlayerWalkN,
            SpriteId::PlayerWalkS,
            SpriteId::PlayerWalkW,
            SpriteId::PlayerWalkE,
            SpriteId::PlayerBurned,
        )
    }
}

/// A replay ghost's sprite.
pub fn sprite_for_playernpc(face_dir: Option<Compass>, terrain: Terrain) -> (r: SpriteId)
    ensures
        r == spec_sprite_for_playernpc(face_dir, terrain),
{
    if matches!(terrain, Terrain::Water) {
        pick_dir(
            face_dir,
            SpriteId::PlayerSwimN,
            SpriteId::PlayerSwimS,
            SpriteId::PlayerSwimW,
            SpriteId::PlayerSwimE,
            SpriteId::PlayerSwimIdle,
        )
    } else if matches!(terrain, Terrain::Fire) {
        SpriteId::PlayerBurned
    } else {
        pick_dir(
            face_dir,
            SpriteId::PlayerWalkN,
            SpriteId::PlayerWalkS,
            SpriteId::PlayerWalkW,
            SpriteId::PlayerWalkE,
            SpriteId::PlayerBurned,
        )
    }
}

/// The sprite of an entity kind that looks the same whether it stands or
/// moves; `None` for the players and the monsters whose look depends on
/// facing or motion.
pub open spec fn still_sprite(kind: EntityKind) -> Option<SpriteId> {
    match kind {
        EntityKind::Chip => Some(SpriteId::Chip),
        EntityKind::Socket => Some(SpriteId::Socket),
        EntityKind::Block => Some(SpriteId::DirtBlock),
        EntityKind::IceBlock => Some(SpriteId::IceBlock),
        EntityKind::Flippers => Some(SpriteId::Flippers),
        EntityKind::FireBoots => Some(SpriteId::FireBoots),
        EntityKind::IceSkates => Some(SpriteId::IceSkates),
        EntityKind::SuctionBoots => Some(SpriteId::SuctionBoots),
        EntityKind::BlueKey => Some(SpriteId::BlueKey),
        EntityKind::RedKey => Some(SpriteId::RedKey),
        EntityKind::GreenKey => Some(SpriteId::GreenKey),
        EntityKind::YellowKey => Some(SpriteId::YellowKey),
        EntityKind::Thief => Some(SpriteId::Thief),
        EntityKind::PinkBall => Some(SpriteId::PinkBall),
        _ => None,
    }
}

/// The sprite of an entity standing still on a tile of `terrain`.
pub open spec fn spec_sprite_for_ent(kind: EntityKind, face_dir: Option<Compass>, terrain: Terrain) -> SpriteId {
    match kind {
        EntityKind::Player => spec_sprite_for_player(face_dir, terrain),
        EntityKind::PlayerNPC => spec_sprite_for_playernpc(face_dir, terrain),
        EntityKind::Bug => dir_sprite(
            face_dir,
            SpriteId::BugN,
            SpriteId::BugS,
            SpriteId::BugW,
            SpriteId::BugE,
            SpriteId::BugN,
        ),
        EntityKind::Tank => dir_sprite(
            face_dir,
            SpriteId::TankN,
            SpriteId::TankS,
            SpriteId::TankW,
            SpriteId::TankE,
            SpriteId::TankN,
        ),
        EntityKind::FireBall => SpriteId::Fireball,
        EntityKind::Glider => dir_sprite(
            face_dir,
            SpriteId::GliderN,
            SpriteId::GliderS,
            SpriteId::GliderW,
            SpriteId::GliderE,
            SpriteId::GliderN,
        ),
        EntityKind::Walker => dir_sprite(
            face_dir,
            SpriteId::WalkerN,
            SpriteId::WalkerS,
            SpriteId::WalkerW,
            SpriteId::WalkerE,
            SpriteId::WalkerN,
        ),
        EntityKind::Teeth => dir_sprite(
            face_dir,
            SpriteId::TeethN,
            SpriteId::TeethS,
            SpriteId::TeethW,
            SpriteId::TeethE,
            SpriteId::TeethN,
        ),
        EntityKind::Blob => SpriteId::Blob,
        EntityKind::Paramecium => dir_sprite(
            face_dir,
            SpriteId::ParameciumN,
            SpriteId::ParameciumS,
            SpriteId::ParameciumW,
            SpriteId::ParameciumE,
            SpriteId::ParameciumN,
        ),
        EntityKind::Bomb => SpriteId::Bomb,
        _ => still_sprite(kind)->0,
    }
}

/// The sprite of an entity in motion on a tile of `terrain`: monsters show
/// their animated frames.
pub open spec fn spec_animated_sprite_for_ent(kind: EntityKind, face_dir: Option<Compass>, terrain: Terrain) -> SpriteId {
    match kind {
        EntityKind::Player => spec_sprite_for_player(face_dir, terrain),
        EntityKind::PlayerNPC => spec_sprite_for_playernpc(face_dir, terrain),
        EntityKind::Bug => dir_sprite(
            face_dir,
            SpriteId::BugNA,
            SpriteId::BugSA,
            SpriteId::BugWA,
            SpriteId::BugEA,
            SpriteId::BugN,
        ),
        EntityKind::Tank => dir_sprite(
            face_dir,
            SpriteId::TankN,
            SpriteId::TankS,
            SpriteId::TankW,
            SpriteId::TankE,
            SpriteId::TankN,
        ),
        EntityKind::FireBall => SpriteId::FireballA,
        EntityKind::Glider => dir_sprite(
            face_dir,
            SpriteId::GliderNA,
            SpriteId::GliderSA,
            SpriteId::GliderWA,
            SpriteId::GliderEA,
            SpriteId::GliderN,
        ),
        EntityKind::Walker => dir_sprite(
            face_dir,
            SpriteId::WalkerNA,
            SpriteId::WalkerSA,
            SpriteId::WalkerWA,
            SpriteId::WalkerEA,
            SpriteId::WalkerN,
        ),
        EntityKind::Teeth => dir_sprite(
            face_dir,
            SpriteId::TeethNA,
            SpriteId::TeethSA,
            SpriteId::TeethWA,
            SpriteId::TeethEA,
            SpriteId::TeethN,
        ),
        EntityKind::Blob => dir_sprite(
            face_dir,
            SpriteId::BlobNA,
            SpriteId::BlobSA,
            SpriteId::BlobWA,
            SpriteId::BlobEA,
            SpriteId::Blob,
        ),
        EntityKind::Paramecium => dir_sprite(
            face_dir,
            SpriteId::ParameciumNA,
            SpriteId::ParameciumSA,
            SpriteId::ParameciumWA,
            SpriteId::ParameciumEA,
            SpriteId::ParameciumN,
        ),
        EntityKind::Bomb => SpriteId::BombA,
        _ => still_sprite(kind)->0,
    }
}

/// The sprite of a kind that looks the same standing or moving.
fn still_sprite_of(kind: EntityKind) -> (r: SpriteId)
    requires
        still_sprite(kind) is Some,
    ensures
        r == still_sprite(kind)->0,
{
    match kind {
        EntityKind::Chip => SpriteId::Chip,
        EntityKind::Socket => SpriteId::Socket,
        EntityKind::Block => SpriteId::DirtBlock,
        EntityKind::IceBlock => SpriteId::IceBlock,
        EntityKind::Flippers => SpriteId::Flippers,
        EntityKind::FireBoots => SpriteId::FireBoots,
        EntityKind::IceSkates => SpriteId::IceSkates,
        EntityKind::SuctionBoots => SpriteId::SuctionBoots,
        EntityKind::BlueKey => SpriteId::BlueKey,
        EntityKind::RedKey => SpriteId::RedKey,
        EntityKind::GreenKey => SpriteId::GreenKey,
        EntityKind::YellowKey => SpriteId::YellowKey,
        EntityKind::Thief => SpriteId::Thief,
        _ => SpriteId::PinkBall,
    }
}

/// The sprite of an entity standing still; `terrain` is the terrain under
/// it.
pub fn sprite_for_ent(ent: &Entity, terrain: Terrain) -> (r: SpriteId)
    ensures
        r == spec_sprite_for_ent(ent.kind, ent.face_dir, terrain),
{
    let d = ent.face_dir;
    match ent.kind {
        EntityKind::Player => sprite_for_player(d, terrain),
        EntityKind::PlayerNPC => sprite_for_playernpc(d, terrain),
        EntityKind::Bug => pick_dir(d, SpriteId::BugN, SpriteId::BugS, SpriteId::BugW, SpriteId::BugE, SpriteId::BugN),
        EntityKind::Tank => pick_dir(d, SpriteId::TankN, SpriteId::TankS, SpriteId::TankW, SpriteId::TankE, SpriteId::TankN),
        EntityKind::FireBall => SpriteId::Fireball,
        EntityKind::Glider => pick_dir(
            d,
            SpriteId::GliderN,
            SpriteId::GliderS,
            SpriteId::GliderW,
            SpriteId::GliderE,
            SpriteId::GliderN,
        ),
        EntityKind::Walker => pick_dir(
            d,
            SpriteId::WalkerN,
            SpriteId::WalkerS,
            SpriteId::WalkerW,
            SpriteId::WalkerE,
            SpriteId::WalkerN,
        ),
        EntityKind::Teeth => pick_dir(
            d,
            SpriteId::TeethN,
            SpriteId::TeethS,
            SpriteId::TeethW,
            SpriteId::TeethE,
            SpriteId::TeethN,
        ),
        EntityKind::Blob => SpriteId::Blob,
        EntityKind::Paramecium => pick_dir(
            d,
            SpriteId::ParameciumN,
            SpriteId::ParameciumS,
            SpriteId::ParameciumW,
            SpriteId::ParameciumE,
            SpriteId::ParameciumN,
        ),
        EntityKind::Bomb => SpriteId::Bomb,
        _ => still_sprite_of(ent.kind),
    }
}

/// The sprite of an entity in motion; `terrain` is the terrain under it.
pub fn animated_sprite_for_ent(ent: &Entity, terrain: Terrain) -> (r: SpriteId)
    ensures
        r == spec_animated_sprite_for_ent(ent.kind, ent.face_dir, terrain),
{
    let d = ent.face_dir;
    match ent.kind {
        EntityKind::Player => sprite_for_player(d, terrain),
        EntityKind::PlayerNPC => sprite_for_playernpc(d, terrain),
        EntityKind::Bug => pick_dir(d, SpriteId::BugNA, SpriteId::BugSA, SpriteId::BugWA, SpriteId::BugEA, SpriteId::BugN),
        EntityKind::Tank => pick_dir(d, SpriteId::TankN, SpriteId::TankS, SpriteId::TankW, SpriteId::TankE, SpriteId::TankN),
        EntityKind::FireBall => SpriteId::FireballA,
        EntityKind::Glider => pick_dir(
            d,
            SpriteId::GliderNA,
            SpriteId::GliderSA,
            SpriteId::GliderWA,
            SpriteId::GliderEA,
            SpriteId::GliderN,
        ),
        EntityKind::Walker => pick_dir(
            d,
            SpriteId::WalkerNA,
            SpriteId::WalkerSA,
            SpriteId::WalkerWA,
            SpriteId::WalkerEA,
            SpriteId::WalkerN,
        ),
        EntityKind::Teeth => pick_dir(
            d,
            SpriteId::TeethNA,
            SpriteId::TeethSA,
            SpriteId::TeethWA,
            SpriteId::TeethEA,
            SpriteId::TeethN,
        ),
        EntityKind::Blob => pick_dir(d, SpriteId::BlobNA, SpriteId::BlobSA, SpriteId::BlobWA, SpriteId::BlobEA, SpriteId::Blob),
        EntityKind::Paramecium => pick_dir(
            d,
            SpriteId::ParameciumNA,
            SpriteId::ParameciumSA,
            SpriteId::ParameciumWA,
            SpriteId::ParameciumEA,
            SpriteId::ParameciumN,
        ),
        EntityKind::Bomb => SpriteId::BombA,
        _ => still_sprite_of(ent.kind),
    }
}

/// Items, keys, blocks, sockets, the thief and the pink ball look the same
/// standing and moving, and so do the players and tanks; the other monsters
/// show animated frames when they move, except with no facing.
pub proof fn law_still_and_moving_sprites(kind: EntityKind, face_dir: Option<Compass>, terrain: Terrain)
    ensures
        still_sprite(kind) is Some ==> spec_sprite_for_ent(kind, face_dir, terrain) == still_sprite(kind)->0
            && spec_animated_sprite_for_ent(kind, face_dir, terrain) == still_sprite(kind)->0,
        (kind == EntityKind::Player || kind == EntityKind::PlayerNPC || kind == EntityKind::Tank)
            ==> spec_animated_sprite_for_ent(kind, face_dir, terrain) == spec_sprite_for_ent(kind, face_dir, terrain),
        (kind == EntityKind::Bug || kind == EntityKind::Glider || kind == EntityKind::Walker
            || kind == EntityKind::Teeth || kind == EntityKind::Paramecium) && face_dir is Some
            ==> spec_animated_sprite_for_ent(kind, face_dir, terrain) != spec_sprite_for_ent(kind, face_dir, terrain),
{
}

/// In water the player and a replay ghost look the same.
pub proof fn law_swimming_looks_alike(face_dir: Option<Compass>)
    ensures
        spec_sprite_for_player(face_dir, Terrain::Water) == spec_sprite_for_playernpc(face_dir, Terrain::Water),
{
}


/// The way a creature's sprite faces, by its name: the `N`, `S`, `W` and
/// `E` sprites (still or animated) face up, down, left and right.
pub open spec fn sprite_facing(s: SpriteId) -> Option<Compass> {
    match s {
        SpriteId::PlayerWalkN => Some(Compass::Up),
        SpriteId::PlayerWalkS => Some(Compass::Down),
        SpriteId::PlayerWalkW => Some(Compass::Left),
        SpriteId::PlayerWalkE => Some(Compass::Right),
        SpriteId::PlayerSwimN => Some(Compass::Up),
        SpriteId::PlayerSwimS => Some(Compass::Down),
        SpriteId::PlayerSwimW => Some(Compass::Left),
        SpriteId::PlayerSwimE => Some(Compass::Right),
        SpriteId::PlayerPushN => Some(Compass::Up),
        SpriteId::PlayerPushS => Some(Compass::Down),
        SpriteId::PlayerPushW => Some(Compass::Left),
        SpriteId::PlayerPushE => Some(Compass::Right),
        SpriteId::BugN => Some(Compass::Up),
        SpriteId::BugNA => Some(Compass::Up),
        SpriteId::BugS => Some(Compass::Down),
        SpriteId::BugSA => Some(Compass::Down),
        SpriteId::BugW => Some(Compass::Left),
        SpriteId::BugWA => Some(Compass::Left),
        SpriteId::BugE => Some(Compass::Right),
        SpriteId::BugEA => Some(Compass::Right),
        SpriteId::TankN => Some(Compass::Up),
        SpriteId::TankS => Some(Compass::Down),
        SpriteId::TankW => Some(Compass::Left),
        SpriteId::TankE => Some(Compass::Right),
        SpriteId::GliderN => Some(Compass::Up),
        SpriteId::GliderNA => Some(Compass::Up),
        SpriteId::GliderS => Some(Compass::Down),
        SpriteId::GliderSA => Some(Compass::Down),
        SpriteId::GliderW => Some(Compass::Left),
        SpriteId::GliderWA => Some(Compass::Left),
        SpriteId::GliderE => Some(Compass::Right),
        SpriteId::GliderEA => Some(Compass::Right),
        SpriteId::WalkerN => Some(Compass::Up),
        SpriteId::WalkerNA => Some(Compass::Up),
        SpriteId::WalkerS => Some(Compass::Down),
        SpriteId::WalkerSA => Some(Compass::Down),
        SpriteId::WalkerW => Some(Compass::Left),
        SpriteId::WalkerWA => Some(Compass::Left),
        SpriteId::WalkerE => Some(Compass::Right),
        SpriteId::WalkerEA => Some(Compass::Right),
        SpriteId::TeethN => Some(Compass::Up),
        SpriteId::TeethNA => Some(Compass::Up),
        SpriteId::TeethS => Some(Compass::Down),
        SpriteId::TeethSA => Some(Compass::Down),
        SpriteId::TeethW => Some(Compass::Left),
        SpriteId::TeethWA => Some(Compass::Left),
        SpriteId::TeethE => Some(Compass::Right),
        SpriteId::TeethEA => Some(Compass::Right),
        SpriteId::ParameciumN => Some(Compass::Up),
        SpriteId::ParameciumNA => Some(Compass::Up),
        SpriteId::ParameciumS => Some(Compass::Down),
        SpriteId::ParameciumSA => Some(Compass::Down),
        SpriteId::ParameciumW => Some(Compass::Left),
        SpriteId::ParameciumWA => Some(Compass::Left),
        SpriteId::ParameciumE => Some(Compass::Right),
        SpriteId::ParameciumEA => Some(Compass::Right),
        SpriteId::BlobNA => Some(Compass::Up),
        SpriteId::BlobSA => Some(Compass::Down),
        SpriteId::BlobWA => Some(Compass::Left),
        SpriteId::BlobEA => Some(Compass::Right),
        _ => None,
    }
}

/// Whom a creature's sprite shows, by its name.
pub open spec fn sprite_subject(s: SpriteId) -> Option<EntityKind> {
    match s {
        SpriteId::Blob => Some(EntityKind::Blob),
        SpriteId::BlobEA => Some(EntityKind::Blob),
        SpriteId::BlobNA => Some(EntityKind::Blob),
        SpriteId::BlobSA => Some(EntityKind::Blob),
        SpriteId::BlobWA => Some(EntityKind::Blob),
        SpriteId::Bomb => Some(EntityKind::Bomb),
        SpriteId::BombA => Some(EntityKind::Bomb),
        SpriteId::BugE => Some(EntityKind::Bug),
        SpriteId::BugEA => Some(EntityKind::Bug),
        SpriteId::BugN => Some(EntityKind::Bug),
        SpriteId::BugNA => Some(EntityKind::Bug),
        SpriteId::BugS => Some(EntityKind::Bug),
        SpriteId::BugSA => Some(EntityKind::Bug),
        SpriteId::BugW => Some(EntityKind::Bug),
        SpriteId::BugWA => Some(EntityKind::Bug),
        SpriteId::Fireball => Some(EntityKind::FireBall),
        SpriteId::FireballA => Some(EntityKind::FireBall),
        SpriteId::GliderE => Some(EntityKind::Glider),
        SpriteId::GliderEA => Some(EntityKind::Glider),
        SpriteId::GliderN => Some(EntityKind::Glider),
        SpriteId::GliderNA => Some(EntityKind::Glider),
        SpriteId::GliderS => Some(EntityKind::Glider),
        SpriteId::GliderSA => Some(EntityKind::Glider),
        SpriteId::GliderW => Some(EntityKind::Glider),
        SpriteId::GliderWA => Some(EntityKind::Glider),
        SpriteId::ParameciumE => Some(EntityKind::Paramecium),
        SpriteId::ParameciumEA => Some(EntityKind::Paramecium),
        SpriteId::ParameciumN => Some(EntityKind::Paramecium),
        SpriteId::ParameciumNA => Some(EntityKind::Paramecium),
        SpriteId::ParameciumS => Some(EntityKind::Paramecium),
        SpriteId::ParameciumSA => Some(EntityKind::Paramecium),
        SpriteId::ParameciumV => Some(EntityKind::Paramecium),
        SpriteId::ParameciumW => Some(EntityKind::Paramecium),
        SpriteId::ParameciumWA => Some(EntityKind::Paramecium),
        SpriteId::PlayerBurned => Some(EntityKind::Player),
        SpriteId::PlayerCheer => Some(EntityKind::Player),
        SpriteId::PlayerPushE => Some(EntityKind::Player),
        SpriteId::PlayerPushN => Some(EntityKind::Player),
        SpriteId::PlayerPushS => Some(EntityKind::Player),
        SpriteId::PlayerPushW => Some(EntityKind::Player),
        SpriteId::PlayerSwimE => Some(EntityKind::Player),
        SpriteId::PlayerSwimIdle => Some(EntityKind::Player),
        SpriteId::PlayerSwimN => Some(EntityKind::Player),
        SpriteId::PlayerSwimS => Some(EntityKind::Player),
        SpriteId::PlayerSwimW => Some(EntityKind::Player),
        SpriteId::PlayerWalkE => Some(EntityKind::Player),
        SpriteId::PlayerWalkIdle => Some(EntityKind::Player),
        SpriteId::PlayerWalkN => Some(EntityKind::Player),
        SpriteId::PlayerWalkS => Some(EntityKind::Player),
        SpriteId::PlayerWalkW => Some(EntityKind::Player),
        SpriteId::TankE => Some(EntityKind::Tank),
        SpriteId::TankN => Some(EntityKind::Tank),
        SpriteId::TankS => Some(EntityKind::Tank),
        SpriteId::TankW => Some(EntityKind::Tank),
        SpriteId::TeethE => Some(EntityKind::Teeth),
        SpriteId::TeethEA => Some(EntityKind::Teeth),
        SpriteId::TeethN => Some(EntityKind::Teeth),
        SpriteId::TeethNA => Some(EntityKind::Teeth),
        SpriteId::TeethS => Some(EntityKind::Teeth),
        SpriteId::TeethSA => Some(EntityKind::Teeth),
        SpriteId::TeethW => Some(EntityKind::Teeth),
        SpriteId::TeethWA => Some(EntityKind::Teeth),
        SpriteId::WalkerE => Some(EntityKind::Walker),
        SpriteId::WalkerEA => Some(EntityKind::Walker),
        SpriteId::WalkerN => Some(EntityKind::Walker),
        SpriteId::WalkerNA => Some(EntityKind::Walker),
        SpriteId::WalkerS => Some(EntityKind::Walker),
        SpriteId::WalkerSA => Some(EntityKind::Walker),
        SpriteId::WalkerV => Some(EntityKind::Walker),
        SpriteId::WalkerW => Some(EntityKind::Walker),
        SpriteId::WalkerWA => Some(EntityKind::Walker),
        _ => None,
    }
}

/// Whether a sprite shows the player swimming.
pub open spec fn is_swim_sprite(s: SpriteId) -> bool {
    match s {
        SpriteId::PlayerSwimN | SpriteId::PlayerSwimS | SpriteId::PlayerSwimW | SpriteId::PlayerSwimE
        | SpriteId::PlayerSwimIdle => true,
        _ => false,
    }
}

/// A creature that faces a way is drawn facing that way, still or moving,
/// and drawn as itself: the player (and a replay ghost out of fire) faces
/// its direction, swimming exactly in water; bugs, tanks, gliders, walkers,
/// teeth and paramecia face theirs, and blobs do when moving.
pub proof fn law_sprites_face_their_direction(kind: EntityKind, d: Compass, face: Option<Compass>, t: Terrain)
    ensures
        (kind == EntityKind::Player || kind == EntityKind::Bug || kind == EntityKind::Tank || kind
            == EntityKind::Glider || kind == EntityKind::Walker || kind == EntityKind::Teeth || kind
            == EntityKind::Paramecium || (kind == EntityKind::PlayerNPC && t != Terrain::Fire)) ==> {
            &&& sprite_facing(spec_sprite_for_ent(kind, Some(d), t)) == Some(d)
            &&& sprite_facing(spec_animated_sprite_for_ent(kind, Some(d), t)) == Some(d)
        },
        sprite_facing(spec_animated_sprite_for_ent(EntityKind::Blob, Some(d), t)) == Some(d),
        (kind == EntityKind::Bug || kind == EntityKind::Tank || kind == EntityKind::Glider || kind
            == EntityKind::Walker || kind == EntityKind::Teeth || kind == EntityKind::Paramecium || kind
            == EntityKind::Blob || kind == EntityKind::FireBall || kind == EntityKind::Bomb) ==> {
            &&& sprite_subject(spec_sprite_for_ent(kind, face, t)) == Some(kind)
            &&& sprite_subject(spec_animated_sprite_for_ent(kind, face, t)) == Some(kind)
        },
        sprite_subject(spec_sprite_for_player(face, t)) == Some(EntityKind::Player),
        sprite_subject(spec_sprite_for_playernpc(face, t)) == Some(EntityKind::Player),
        is_swim_sprite(spec_sprite_for_player(face, t)) == (t == Terrain::Water),
        is_swim_sprite(spec_sprite_for_playernpc(face, t)) == (t == Terrain::Water),
        face is None && t != Terrain::Water ==> spec_sprite_for_player(face, t) == SpriteId::PlayerWalkIdle,
{
}

} // verus!
