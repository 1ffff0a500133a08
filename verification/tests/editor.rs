use chipgame::data::terrain::{Compass, Entity, EntityArgs, EntityKind, Terrain, Vec2i};
use chipgame::editor::editstate::{EditorEditState, Input};
use chipgame::editor::encode::save_field_dto;
use chipgame::editor::field::{EditLevel, Field, FieldConn};
use chipgame::editor::history::History;
use chipgame::editor::resize::FieldLimits;
use chipgame::editor::session::EditorSession;
use chipgame::editor::tool::ToolState;
use chipgame::editor::tool::connection::ConnectionToolState;
use chipgame::editor::tool::entity::{EntityToolState, next_face_dir};
use chipgame::editor::tool::forcepath::{ForcePathToolState, force_tile_for_dir};
use chipgame::editor::tool::icepath::{IcePathToolState, ice_tile_for_turn};
use chipgame::editor::tool::terrain::{TerrainToolState, flood_fill, put_tile};

fn field(width: i32, height: i32, terrain: Vec<Terrain>) -> Field {
    Field { width, height, terrain, conns: Vec::new() }
}

fn level(width: i32, height: i32, terrain: Vec<Terrain>) -> EditLevel {
    EditLevel { field: field(width, height, terrain), ents: Vec::new(), next_handle: 0 }
}

fn editor(level: EditLevel) -> EditorEditState {
    EditorEditState {
        level,
        tool: None,
        cursor_pos: Vec2i { x: 0, y: 0 },
        input: Input::default(),
        conn_src: Vec2i { x: 0, y: 0 },
        forcepath_last_pos: None,
        tool_pos: None,
    }
}

#[test]
fn history_undo_redo() {
    let mut h = History::new(1);
    h.push(2);
    h.push(3);
    assert_eq!(h.undo().copied(), Some(2));
    assert_eq!(h.undo().copied(), Some(1));
    assert_eq!(h.undo().copied(), None);
    assert_eq!(h.redo().copied(), Some(2));
    h.push(4);
    assert_eq!(h.redo().copied(), None);
    assert_eq!(h.undo().copied(), Some(2));
}

#[test]
fn history_push_if_skips_current() {
    let mut h = History::new(String::from("a"));
    h.push_if(String::from("a"));
    assert_eq!(h.undo(), None);
    h.push_if(String::from("b"));
    assert_eq!(h.undo().cloned(), Some(String::from("a")));
}

#[test]
fn history_keeps_at_most_limit_entries() {
    let mut h = History::new(0);
    for i in 1..=150 {
        h.push(i);
    }
    let mut undos = 0;
    while h.undo().is_some() {
        undos += 1;
    }
    assert_eq!(undos, 99);
    h.clear(7);
    assert_eq!(h.undo(), None);
    assert_eq!(h.redo(), None);
}

#[test]
fn flood_fill_fills_connected_area() {
    let (f, w, a) = (Terrain::Floor, Terrain::Wall, Terrain::Water);
    let mut l = level(3, 3, vec![f, f, w, w, f, w, f, w, f]);
    flood_fill(&mut l, Vec2i { x: 0, y: 0 }, Terrain::Water);
    assert_eq!(l.field.terrain, vec![a, a, w, w, a, w, f, w, f]);
}

#[test]
fn flood_fill_same_terrain_or_outside_changes_nothing() {
    let mut l = level(2, 1, vec![Terrain::Floor, Terrain::Wall]);
    flood_fill(&mut l, Vec2i { x: 0, y: 0 }, Terrain::Floor);
    flood_fill(&mut l, Vec2i { x: 5, y: 0 }, Terrain::Water);
    assert_eq!(l.field.terrain, vec![Terrain::Floor, Terrain::Wall]);
}

#[test]
fn put_dirt_block_removes_blocks_there() {
    let mut l = level(2, 1, vec![Terrain::Floor, Terrain::Floor]);
    let p = Vec2i { x: 0, y: 0 };
    l.entity_create(&EntityArgs { kind: EntityKind::Block, pos: p, face_dir: None });
    l.entity_create(&EntityArgs { kind: EntityKind::Chip, pos: p, face_dir: None });
    l.entity_create(&EntityArgs { kind: EntityKind::Block, pos: Vec2i { x: 1, y: 0 }, face_dir: None });
    put_tile(&mut l, p, Terrain::DirtBlock);
    assert_eq!(l.field.terrain[0], Terrain::DirtBlock);
    let kinds: Vec<EntityKind> = l.ents.iter().map(|e| e.kind).collect();
    assert_eq!(kinds, vec![EntityKind::Chip, EntityKind::Block]);
}

#[test]
fn entity_handles_count_up() {
    let mut l = level(1, 1, vec![Terrain::Floor]);
    let a = l.entity_create(&EntityArgs { kind: EntityKind::Chip, pos: Vec2i { x: 0, y: 0 }, face_dir: None });
    let b = l.entity_create(&EntityArgs { kind: EntityKind::Bug, pos: Vec2i { x: 0, y: 0 }, face_dir: Some(Compass::Up) });
    assert_eq!((a, b), (1, 2));
    assert_eq!(l.entity_at(Vec2i { x: 0, y: 0 }), Some(1));
    let args = l.entity_remove(1).unwrap();
    assert_eq!(args.kind, EntityKind::Chip);
    assert_eq!(l.get(1), None);
    assert_eq!(l.entity_remove(1), None);
}

#[test]
fn save_field_dto_builds_legend() {
    let f = field(2, 2, vec![Terrain::Wall, Terrain::Floor, Terrain::Water, Terrain::Wall]);
    let dto = save_field_dto(&f);
    assert_eq!(dto.legend, vec![Terrain::Blank, Terrain::Floor, Terrain::Wall, Terrain::Water]);
    assert_eq!(dto.data, vec![2, 1, 3, 2]);
    assert_eq!((dto.width, dto.height), (2, 2));
}

#[test]
fn face_dir_cycles_through_five_states() {
    let mut d = None;
    let mut seen = Vec::new();
    for _ in 0..5 {
        d = next_face_dir(d);
        seen.push(d);
    }
    assert_eq!(seen, vec![Some(Compass::Up), Some(Compass::Right), Some(Compass::Down), Some(Compass::Left), None]);
}

#[test]
fn entity_tool_places_and_moves() {
    let mut s = editor(level(3, 1, vec![Terrain::Floor; 3]));
    let mut tool = EntityToolState {
        selected_ent: 0,
        selected_args: Some(EntityArgs { kind: EntityKind::Tank, pos: Vec2i { x: 0, y: 0 }, face_dir: Some(Compass::Left) }),
    };
    s.cursor_pos = Vec2i { x: 1, y: 0 };
    tool.left_click(&mut s, true);
    assert_eq!(tool.selected_ent, 1);
    assert_eq!(s.level.ents, vec![Entity { handle: 1, kind: EntityKind::Tank, pos: Vec2i { x: 1, y: 0 }, face_dir: Some(Compass::Left) }]);
    s.cursor_pos = Vec2i { x: 2, y: 0 };
    tool.left_click(&mut s, false);
    assert_eq!(s.level.ents, vec![Entity { handle: 2, kind: EntityKind::Tank, pos: Vec2i { x: 2, y: 0 }, face_dir: Some(Compass::Left) }]);
}

#[test]
fn entity_tool_rotates_and_deletes() {
    let mut s = editor(level(1, 1, vec![Terrain::Floor]));
    s.level.entity_create(&EntityArgs { kind: EntityKind::Glider, pos: Vec2i { x: 0, y: 0 }, face_dir: Some(Compass::Down) });
    let mut tool = EntityToolState::default();
    tool.right_click(&mut s, true);
    assert_eq!(s.level.ents[0].face_dir, Some(Compass::Left));
    assert_eq!(s.level.ents[0].handle, 2);
    assert_eq!(tool.selected_ent, 2);
    tool.delete(&mut s, true);
    assert!(s.level.ents.is_empty());
    assert_eq!(tool.selected_ent, 0);
}

#[test]
fn connection_tool_toggles() {
    let mut s = editor(level(2, 1, vec![Terrain::RedButton, Terrain::CloneMachine]));
    let mut tool = ConnectionToolState::default();
    s.cursor_pos = Vec2i { x: 0, y: 0 };
    tool.left_click(&mut s, true);
    s.cursor_pos = Vec2i { x: 1, y: 0 };
    tool.left_click(&mut s, false);
    let conn = FieldConn { src: Vec2i { x: 0, y: 0 }, dest: Vec2i { x: 1, y: 0 } };
    assert_eq!(s.level.field.conns, vec![conn]);
    tool.left_click(&mut s, false);
    assert!(s.level.field.conns.is_empty());
}

#[test]
fn ice_corners() {
    assert_eq!(ice_tile_for_turn(Compass::Up, Compass::Right), Terrain::IceNW);
    assert_eq!(ice_tile_for_turn(Compass::Left, Compass::Down), Terrain::IceNW);
    assert_eq!(ice_tile_for_turn(Compass::Down, Compass::Right), Terrain::IceSW);
    assert_eq!(ice_tile_for_turn(Compass::Up, Compass::Up), Terrain::Ice);
    assert_eq!(ice_tile_for_turn(Compass::Up, Compass::Down), Terrain::Ice);
}

#[test]
fn ice_path_draws_corner() {
    let mut s = editor(level(2, 2, vec![Terrain::Floor; 4]));
    let mut tool = IcePathToolState::default();
    s.cursor_pos = Vec2i { x: 0, y: 1 };
    tool.left_click(&mut s, true);
    s.cursor_pos = Vec2i { x: 0, y: 0 };
    tool.think(&mut s);
    s.cursor_pos = Vec2i { x: 1, y: 0 };
    tool.think(&mut s);
    assert_eq!(s.level.field.terrain, vec![Terrain::IceNW, Terrain::Ice, Terrain::Ice, Terrain::Floor]);
    assert_eq!(tool.last_dir, Some(Compass::Right));
}

#[test]
fn force_path_points_along_the_drag() {
    assert_eq!(force_tile_for_dir(Compass::Up), Terrain::ForceN);
    let mut s = editor(level(3, 1, vec![Terrain::Floor; 3]));
    let mut tool = ForcePathToolState::default();
    tool.left_click(&mut s, true);
    assert_eq!(s.level.field.terrain[0], Terrain::ForceRandom);
    s.cursor_pos = Vec2i { x: 1, y: 0 };
    tool.think(&mut s);
    assert_eq!(s.level.field.terrain, vec![Terrain::ForceE, Terrain::ForceE, Terrain::Floor]);
    tool.left_click(&mut s, false);
    assert_eq!(s.forcepath_last_pos, None);
}

#[test]
fn sample_picks_from_palettes_and_field() {
    let mut s = editor(level(1, 1, vec![Terrain::Water]));
    s.cursor_pos = Vec2i { x: -2, y: 8 };
    s.sample();
    assert!(matches!(s.tool, Some(ToolState::Terrain(TerrainToolState { selected_terrain: Terrain::Fire }))));
    s.cursor_pos = Vec2i { x: 0, y: -2 };
    s.sample();
    assert!(matches!(s.tool, Some(ToolState::Entity(t)) if t.selected_args.map(|a| a.kind) == Some(EntityKind::Player)));
    s.cursor_pos = Vec2i { x: 0, y: 0 };
    s.sample();
    assert!(matches!(s.tool, Some(ToolState::Terrain(TerrainToolState { selected_terrain: Terrain::Water }))));
}

#[test]
fn left_click_with_terrain_tool_paints_and_records_on_release() {
    let mut s = editor(level(2, 1, vec![Terrain::Floor; 2]));
    s.tool = Some(ToolState::Terrain(TerrainToolState { selected_terrain: Terrain::Wall }));
    s.cursor_pos = Vec2i { x: 1, y: 0 };
    assert!(!s.left_click(true));
    assert_eq!(s.level.field.terrain, vec![Terrain::Floor, Terrain::Wall]);
    assert!(s.input.left_click);
    assert!(s.left_click(false));
    assert!(!s.input.left_click);
}

#[test]
fn tool_names() {
    assert_eq!(ToolState::IcePath(IcePathToolState::default()).name(), "Ice Path");
    assert_eq!(ToolState::ForcePath(ForcePathToolState::default()).name(), "Force Path");
}

const LIMITS: FieldLimits = FieldLimits { min_width: 2, max_width: 5, min_height: 2, max_height: 5 };

fn sample_level() -> EditLevel {
    let mut l = level(3, 2, vec![Terrain::Wall, Terrain::Floor, Terrain::Water, Terrain::Fire, Terrain::Ice, Terrain::Exit]);
    l.entity_create(&EntityArgs { kind: EntityKind::Block, pos: Vec2i { x: 2, y: 1 }, face_dir: None });
    l.entity_create(&EntityArgs { kind: EntityKind::Bug, pos: Vec2i { x: 0, y: 0 }, face_dir: Some(Compass::Up) });
    l.field.conns.push(FieldConn { src: Vec2i { x: 0, y: 1 }, dest: Vec2i { x: 2, y: 0 } });
    l
}

#[test]
fn resize_expands_left_and_top() {
    let mut l = sample_level();
    assert!(l.resize(1, 1, 0, 0, Terrain::Gravel, LIMITS));
    assert_eq!((l.field.width, l.field.height), (4, 3));
    assert_eq!(l.field.terrain, vec![Terrain::Gravel, Terrain::Gravel, Terrain::Gravel, Terrain::Gravel, Terrain::Gravel, Terrain::Wall, Terrain::Floor, Terrain::Water, Terrain::Gravel, Terrain::Fire, Terrain::Ice, Terrain::Exit]);
    assert_eq!(l.ents[0].pos, Vec2i { x: 3, y: 2 });
    assert_eq!(l.ents[1].pos, Vec2i { x: 1, y: 1 });
    assert_eq!(l.ents[1].handle, 2);
    assert_eq!(l.field.conns, vec![FieldConn { src: Vec2i { x: 1, y: 2 }, dest: Vec2i { x: 3, y: 1 } }]);
}

#[test]
fn resize_crop_drops_what_falls_off() {
    let mut l = sample_level();
    assert!(l.resize(0, 0, -1, 0, Terrain::Floor, LIMITS));
    assert_eq!((l.field.width, l.field.height), (2, 2));
    assert_eq!(l.field.terrain, vec![Terrain::Wall, Terrain::Floor, Terrain::Fire, Terrain::Ice]);
    assert_eq!(l.ents.len(), 1);
    assert_eq!(l.ents[0].kind, EntityKind::Bug);
    assert!(l.field.conns.is_empty());
}

#[test]
fn resize_outside_limits_changes_nothing() {
    let mut l = sample_level();
    assert!(!l.resize(0, 0, 3, 0, Terrain::Floor, LIMITS));
    assert!(!l.resize(0, -1, 0, 0, Terrain::Floor, LIMITS));
    assert_eq!((l.field.width, l.field.height), (3, 2));
    assert_eq!(l.ents.len(), 2);
    assert_eq!(l.field.conns.len(), 1);
}

#[test]
fn crop_undoes_expand() {
    let before = sample_level();
    let mut l = sample_level();
    assert!(l.resize(1, 2, 1, 0, Terrain::Dirt, LIMITS));
    assert!(l.resize(-1, -2, -1, 0, Terrain::Floor, LIMITS));
    assert_eq!((l.field.width, l.field.height), (before.field.width, before.field.height));
    assert_eq!(l.field.terrain, before.field.terrain);
    assert_eq!(l.ents, before.ents);
    assert_eq!(l.field.conns, before.field.conns);
}

#[test]
fn editor_resize_fills_with_selected_terrain() {
    let mut e = editor(sample_level());
    e.tool = Some(ToolState::Terrain(TerrainToolState { selected_terrain: Terrain::Water }));
    assert!(e.resize(0, 0, 0, 1, LIMITS));
    assert_eq!(&e.level.field.terrain[6..], &[Terrain::Water, Terrain::Water, Terrain::Water]);
    let mut e = editor(sample_level());
    assert!(e.resize(0, 0, 1, 0, LIMITS));
    assert_eq!(e.level.field.terrain[3], Terrain::Floor);
    assert!(!e.resize(0, 0, 9, 0, LIMITS));
}

#[test]
fn remove_undoes_create() {
    let mut l = sample_level();
    let before = l.ents.clone();
    let args = EntityArgs { kind: EntityKind::Teeth, pos: Vec2i { x: 1, y: 0 }, face_dir: Some(Compass::Left) };
    let h = l.entity_create(&args);
    assert_eq!(h, 3);
    assert_eq!(l.entity_remove(h), Some(args));
    assert_eq!(l.ents, before);
    assert_eq!(l.next_handle, 3);
}

#[test]
fn default_history_is_empty() {
    let mut h: History<i32> = History::default();
    assert_eq!(h.undo(), None);
    assert_eq!(h.redo(), None);
    h.push(1);
    let c = h.clone();
    h.push(2);
    assert_eq!(h.undo().copied(), Some(1));
    let mut c = c;
    assert_eq!(c.undo(), None);
}

#[test]
fn session_records_changes_and_undoes_them() {
    let mut s = editor(level(2, 1, vec![Terrain::Floor; 2]));
    s.tool = Some(ToolState::Terrain(TerrainToolState { selected_terrain: Terrain::Wall }));
    s.cursor_pos = Vec2i { x: 1, y: 0 };
    let mut e = EditorSession::new(s);
    e.left_click(true);
    e.left_click(false);
    assert_eq!(e.state.level.field.terrain, vec![Terrain::Floor, Terrain::Wall]);
    // Painting the same tile again records nothing new.
    e.left_click(true);
    e.left_click(false);
    assert!(e.undo());
    assert_eq!(e.state.level.field.terrain, vec![Terrain::Floor, Terrain::Floor]);
    assert!(!e.undo());
    assert!(e.redo());
    assert_eq!(e.state.level.field.terrain, vec![Terrain::Floor, Terrain::Wall]);
    assert!(!e.redo());
    e.resize(0, 0, 1, 1, LIMITS);
    assert_eq!((e.state.level.field.width, e.state.level.field.height), (3, 2));
    assert!(e.undo());
    assert_eq!((e.state.level.field.width, e.state.level.field.height), (2, 1));
    assert_eq!(e.state.level.field.terrain, vec![Terrain::Floor, Terrain::Wall]);
}
