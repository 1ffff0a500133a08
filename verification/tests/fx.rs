use chipgame::data::model::ModelId;
use chipgame::data::sprite::SpriteId;
use chipgame::data::terrain::{Compass, Entity, EntityKind, Terrain, Vec2i};
use chipgame::fx::control::{Decoration, PauseAction, ViewState, decoration_for, level_settings, field_decorations, level_end_event, pause_or_scout, scout_dir};
use chipgame::fx::hud::{hud_darken, bar_backgrounds, boot_slots, chips_remaining, key_labels, key_slots, level_intro_lines, time_remaining};
use chipgame::fx::handlers::{
    Boots, GameOverReason, KeyColor, RemovalAnim, TerrainChange, created_model, ent_z, game_over_sprite, jump_height,
    key_sprite, lock_sprite, push_sprite, removal_anim, terrain_change, thief_sprites, toggle_wall_z,
};
use chipgame::play::savedata::OptionsDto;
use chipgame::play::state::FxEvent;
use chipgame::fx::sprites::{animated_sprite_for_ent, model_for_ent, sprite_for_ent, sprite_for_player, sprite_for_playernpc};

fn ent(kind: EntityKind, face_dir: Option<Compass>) -> Entity {
    Entity { handle: 1, kind, pos: Vec2i { x: 0, y: 0 }, face_dir }
}

#[test]
fn player_sprites() {
    assert_eq!(sprite_for_player(Some(Compass::Left), Terrain::Water), SpriteId::PlayerSwimW);
    assert_eq!(sprite_for_player(None, Terrain::Floor), SpriteId::PlayerWalkIdle);
    assert_eq!(sprite_for_playernpc(Some(Compass::Up), Terrain::Fire), SpriteId::PlayerBurned);
    assert_eq!(sprite_for_playernpc(None, Terrain::Floor), SpriteId::PlayerBurned);
    assert_eq!(sprite_for_playernpc(Some(Compass::Down), Terrain::Floor), SpriteId::PlayerWalkS);
}

#[test]
fn still_and_moving_sprites() {
    let bug = ent(EntityKind::Bug, Some(Compass::Right));
    assert_eq!(sprite_for_ent(&bug, Terrain::Floor), SpriteId::BugE);
    assert_eq!(animated_sprite_for_ent(&bug, Terrain::Floor), SpriteId::BugEA);
    let blob = ent(EntityKind::Blob, Some(Compass::Up));
    assert_eq!(sprite_for_ent(&blob, Terrain::Floor), SpriteId::Blob);
    assert_eq!(animated_sprite_for_ent(&blob, Terrain::Floor), SpriteId::BlobNA);
    let key = ent(EntityKind::YellowKey, None);
    assert_eq!(sprite_for_ent(&key, Terrain::Floor), SpriteId::YellowKey);
    assert_eq!(animated_sprite_for_ent(&ent(EntityKind::FireBall, None), Terrain::Floor), SpriteId::FireballA);
    assert_eq!(sprite_for_ent(&ent(EntityKind::Bomb, None), Terrain::Floor), SpriteId::Bomb);
    assert_eq!(sprite_for_ent(&ent(EntityKind::Player, Some(Compass::Up)), Terrain::Water), SpriteId::PlayerSwimN);
}

#[test]
fn models() {
    assert_eq!(model_for_ent(&ent(EntityKind::IceBlock, None)), ModelId::Wall);
    assert_eq!(model_for_ent(&ent(EntityKind::Paramecium, None)), ModelId::ReallyFlatSprite);
    assert_eq!(model_for_ent(&ent(EntityKind::Chip, None)), ModelId::Sprite);
    assert_eq!(created_model(EntityKind::Tank, Terrain::CloneMachine), ModelId::FloorSprite);
    assert_eq!(created_model(EntityKind::Block, Terrain::CloneMachine), ModelId::Wall);
    assert_eq!(created_model(EntityKind::Tank, Terrain::Floor), ModelId::Tank);
}

#[test]
fn heights() {
    assert_eq!(ent_z(EntityKind::Socket, Terrain::Floor, true), 2);
    assert_eq!(ent_z(EntityKind::Thief, Terrain::CloneMachine, true), 20);
    assert_eq!(ent_z(EntityKind::Thief, Terrain::CloneMachine, false), 1);
    assert_eq!(ent_z(EntityKind::Block, Terrain::CloneMachine, true), 0);
    assert_eq!(jump_height(EntityKind::Walker), 6);
    assert_eq!(jump_height(EntityKind::Bug), 0);
    assert_eq!(toggle_wall_z(Terrain::ToggleWall), 0);
    assert_eq!(toggle_wall_z(Terrain::ToggleFloor), -21);
}

#[test]
fn game_over_and_keys() {
    assert_eq!(game_over_sprite(GameOverReason::LevelComplete), SpriteId::PlayerCheer);
    assert_eq!(game_over_sprite(GameOverReason::Drowned), SpriteId::WaterSplash);
    assert_eq!(game_over_sprite(GameOverReason::Eaten), SpriteId::PlayerBurned);
    assert_eq!(lock_sprite(KeyColor::Green), SpriteId::GreenLock);
    assert_eq!(key_sprite(KeyColor::Blue), SpriteId::BlueKey);
}

#[test]
fn push_pose() {
    assert_eq!(push_sprite(EntityKind::Player, Terrain::Floor, None, Some(Compass::Left)), Some(SpriteId::PlayerPushW));
    assert_eq!(push_sprite(EntityKind::Player, Terrain::Floor, Some(Compass::Up), Some(Compass::Left)), Some(SpriteId::PlayerPushN));
    assert_eq!(push_sprite(EntityKind::Player, Terrain::Floor, None, None), Some(SpriteId::PlayerWalkIdle));
    assert_eq!(push_sprite(EntityKind::Player, Terrain::Water, Some(Compass::Up), None), None);
    assert_eq!(push_sprite(EntityKind::Block, Terrain::Floor, Some(Compass::Up), None), None);
}

#[test]
fn removal() {
    assert_eq!(removal_anim(EntityKind::RedKey), RemovalAnim::RiseAndFade);
    assert_eq!(removal_anim(EntityKind::Socket), RemovalAnim::Fade);
    assert_eq!(removal_anim(EntityKind::Bomb), RemovalAnim::StopAnims);
    assert_eq!(removal_anim(EntityKind::Bug), RemovalAnim::Keep);
}

#[test]
fn terrain_changes() {
    assert_eq!(terrain_change(Terrain::ToggleFloor, Terrain::ToggleWall), TerrainChange::ToggleWall);
    assert_eq!(terrain_change(Terrain::ToggleWall, Terrain::Fire), TerrainChange::RemoveToggleWall);
    assert_eq!(terrain_change(Terrain::Floor, Terrain::ToggleFloor), TerrainChange::CreateToggleWall(false));
    assert_eq!(terrain_change(Terrain::Fire, Terrain::Floor), TerrainChange::RemoveFire);
    assert_eq!(terrain_change(Terrain::RecessedWall, Terrain::Wall), TerrainChange::RecessedWallRaised);
    assert_eq!(terrain_change(Terrain::InvisibleWall, Terrain::HiddenWall), TerrainChange::Nothing);
    assert_eq!(terrain_change(Terrain::HiddenWall, Terrain::Floor), TerrainChange::RemoveWallMirage);
    assert_eq!(terrain_change(Terrain::Floor, Terrain::BearTrap), TerrainChange::CreateBearTrap);
    assert_eq!(terrain_change(Terrain::FakeBlueWall, Terrain::BearTrap), TerrainChange::RemoveFakeBlueWall);
    assert_eq!(terrain_change(Terrain::FakeBlueWall, Terrain::Floor), TerrainChange::RemoveFakeBlueWall);
    assert_eq!(terrain_change(Terrain::Floor, Terrain::Dirt), TerrainChange::Nothing);
}

#[test]
fn thief_takes_boots_in_order() {
    let boots = Boots { flippers: true, fire_boots: false, ice_skates: true, suction_boots: true };
    assert_eq!(thief_sprites(boots), vec![SpriteId::Flippers, SpriteId::IceSkates, SpriteId::SuctionBoots]);
    let none = Boots { flippers: false, fire_boots: false, ice_skates: false, suction_boots: false };
    assert!(thief_sprites(none).is_empty());
}

#[test]
fn start_pauses_and_select_scouts_once_per_press() {
    assert_eq!(pause_or_scout(true, false, false, false), (PauseAction::Pause, true));
    assert_eq!(pause_or_scout(true, false, true, false), (PauseAction::Nothing, true));
    assert_eq!(pause_or_scout(false, true, false, false), (PauseAction::Scout, true));
    assert_eq!(pause_or_scout(true, true, false, false), (PauseAction::Pause, true));
    assert_eq!(pause_or_scout(false, false, true, false), (PauseAction::Nothing, false));
    assert_eq!(pause_or_scout(true, false, false, true), (PauseAction::Nothing, false));
    assert_eq!(pause_or_scout(false, false, true, true), (PauseAction::Nothing, true));
}

#[test]
fn level_end_events() {
    assert_eq!(level_end_event(Some(GameOverReason::LevelComplete)), FxEvent::LevelComplete);
    assert_eq!(level_end_event(Some(GameOverReason::Eaten)), FxEvent::GameOver);
    assert_eq!(level_end_event(None), FxEvent::GameOver);
}

#[test]
fn scout_directions() {
    assert_eq!(scout_dir(true, false, false, false), Vec2i { x: 0, y: -1 });
    assert_eq!(scout_dir(false, true, true, false), Vec2i { x: 1, y: 1 });
    assert_eq!(scout_dir(true, true, true, true), Vec2i { x: 0, y: 0 });
    assert_eq!(scout_dir(false, false, false, true), Vec2i { x: -1, y: 0 });
}

#[test]
fn level_decorations() {
    assert_eq!(decoration_for(Terrain::ToggleFloor), Some(Decoration::ToggleWall { raised: false }));
    assert_eq!(decoration_for(Terrain::InvisibleWall), Some(Decoration::WallMirage));
    assert_eq!(decoration_for(Terrain::Floor), None);
    let terrain = vec![
        Terrain::Floor, Terrain::Fire, Terrain::Wall,
        Terrain::ToggleWall, Terrain::Floor, Terrain::FakeBlueWall,
    ];
    assert_eq!(
        field_decorations(3, 2, &terrain),
        vec![
            (Vec2i { x: 1, y: 0 }, Decoration::Fire),
            (Vec2i { x: 0, y: 1 }, Decoration::ToggleWall { raised: true }),
            (Vec2i { x: 2, y: 1 }, Decoration::FakeBlueWall),
        ]
    );
    assert!(field_decorations(0, 0, &Vec::new()).is_empty());
}

#[test]
fn hud_counters() {
    assert_eq!(chips_remaining(11, 4), 7);
    assert_eq!(chips_remaining(11, 11), 0);
    assert_eq!(chips_remaining(0, 3), 0);
    assert_eq!(time_remaining(0, 500), -1);
    assert_eq!(time_remaining(-5, 0), -1);
    assert_eq!(time_remaining(100, 0), 100);
    assert_eq!(time_remaining(100, 1), 100);
    assert_eq!(time_remaining(100, 60), 99);
    assert_eq!(time_remaining(100, 59), 100);
    assert_eq!(time_remaining(1, 60), 0);
    assert_eq!(time_remaining(1, 90), 0);
    assert_eq!(time_remaining(1, 121), -1);
}

#[test]
fn hud_inventory() {
    let keys = [0, 1, 3, 0];
    assert_eq!(key_slots(keys), vec![(1, SpriteId::RedKey), (2, SpriteId::GreenKey)]);
    assert_eq!(key_labels(keys), vec![(2, 3)]);
    assert_eq!(key_slots([2, 0, 0, 1]), vec![(0, SpriteId::BlueKey), (3, SpriteId::YellowKey)]);
    let boots = Boots { flippers: false, fire_boots: true, ice_skates: false, suction_boots: true };
    assert_eq!(boot_slots(boots), vec![(1, SpriteId::FireBoots), (3, SpriteId::SuctionBoots)]);
    assert_eq!(bar_backgrounds(keys, boots), (true, true));
    let none = Boots { flippers: false, fire_boots: false, ice_skates: false, suction_boots: false };
    assert_eq!(bar_backgrounds([0, 0, 0, 0], none), (false, false));
    assert!(boot_slots(none).is_empty());
}

#[test]
fn options_set_step_mode_and_assist_distance() {
    let mut o = OptionsDto::default();
    assert_eq!(level_settings(&o), (false, 0));
    o.assist_mode = true;
    o.step_mode = true;
    assert_eq!(level_settings(&o), (true, 2));
}

#[test]
fn intro_lines_show_password_when_there_is_one() {
    let name = String::from("LESSON 1");
    assert_eq!(level_intro_lines(1, &name, &None), vec![String::from("~ Level 1 ~"), String::from("LESSON 1")]);
    let lines = level_intro_lines(149, &name, &Some(String::from("BDHP")));
    assert_eq!(lines, vec![String::from("~ Level 149 ~"), String::from("LESSON 1"), String::from("Password: BDHP")]);
}

#[test]
fn pause_scout_resume_steps() {
    let mut v = ViewState { paused: false, hud_enabled: true, unpauses: 0, scout_active: false };
    let mut events = Vec::new();
    assert!(!v.resume(&mut events));
    assert!(events.is_empty());
    v.pause(&mut events);
    assert_eq!(v, ViewState { paused: true, hud_enabled: false, unpauses: 0, scout_active: false });
    assert!(v.resume(&mut events));
    assert_eq!(v, ViewState { paused: false, hud_enabled: true, unpauses: 1, scout_active: false });
    v.scout(&mut events);
    assert_eq!(v, ViewState { paused: true, hud_enabled: true, unpauses: 1, scout_active: true });
    assert!(v.resume(&mut events));
    assert_eq!(v.unpauses, 2);
    assert!(!v.scout_active);
    assert_eq!(events, vec![FxEvent::PauseGame, FxEvent::ResumePlay, FxEvent::ScoutMode, FxEvent::ResumePlay]);
}

#[test]
fn hud_darkens_before_the_first_move_and_over_hints() {
    assert_eq!(hud_darken(0, false, false, false, false), (true, true));
    assert_eq!(hud_darken(0, true, false, false, true), (true, false));
    assert_eq!(hud_darken(5, true, true, true, true), (true, false));
    assert_eq!(hud_darken(5, true, true, false, true), (false, true));
    assert_eq!(hud_darken(5, false, true, true, false), (false, false));
}
