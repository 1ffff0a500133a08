use vstd::prelude::*;
use crate::data::terrain::{Compass, EntityArgs, EntityKind, INVALID_ENTITY, Terrain, Vec2i};
use crate::editor::field::{EditLevel, is_first_entity, stands_on};
use crate::editor::resize::{FieldLimits, resize_post};
use crate::editor::tool::{
    ToolState, tool_can_place, tool_delete_post, tool_left_click_post, tool_right_click_post, tool_think_post,
};
use crate::editor::tool::connection::ConnectionToolState;
use crate::editor::tool::entity::EntityToolState;
use crate::editor::tool::forcepath::ForcePathToolState;
use crate::editor::tool::icepath::IcePathToolState;
use crate::editor::tool::terrain::TerrainToolState;

verus! {

/// Buttons and keys held in the editor.
#[derive(Copy, Clone)]
pub struct Input {
    pub left_click: bool,
    pub right_click: bool,
    pub key_left: bool,
    pub key_right: bool,
    pub key_up: bool,
    pub key_down: bool,
    pub key_shift: bool,
}

impl Input {
    /// Nothing held.
    pub fn default() -> (r: Input)
        ensures
            !r.left_click && !r.right_click && !r.key_left && !r.key_right && !r.key_up && !r.key_down && !r.key_shift,
    {
        Input {
            left_click: false,
            right_click: false,
            key_left: false,
            key_right: false,
            key_up: false,
            key_down: false,
            key_shift: false,
        }
    }
}

/// The editor's tools.
#[derive(Copy, Clone, Debug, PartialEq, Eq, Structural)]
pub enum Tool {
    Terrain,
    Entity,
    Connection,
}

impl Tool {
    /// The terrain tool.
    pub fn default() -> (r: Tool)
        ensures
            r == Tool::Terrain,
    {
        Tool::Terrain
    }
}

/// Terrain of the palette left of the field: row `row` of the two columns
/// (`col` 0 or 1).
pub open spec fn spec_terrain_sample(row: int, col: int) -> Terrain {
    if col == 0 {
        if row == 0 { Terrain::Blank }
        else if row == 1 { Terrain::Dirt }
        else if row == 2 { Terrain::Wall }
        else if row == 3 { Terrain::HiddenWall }
        else if row == 4 { Terrain::RealBlueWall }
        else if row == 5 { Terrain::BlueLock }
        else if row == 6 { Terrain::GreenLock }
        else if row == 7 { Terrain::Exit }
        else if row == 8 { Terrain::Water }
        else if row == 9 { Terrain::WaterHazard }
        else if row == 10 { Terrain::ThinWallE }
        else if row == 11 { Terrain::ThinWallN }
        else if row == 12 { Terrain::ThinWallSE }
        else if row == 13 { Terrain::IceNW }
        else if row == 14 { Terrain::IceSW }
        else if row == 15 { Terrain::ToggleFloor }
        else if row == 16 { Terrain::GreenButton }
        else if row == 17 { Terrain::BrownButton }
        else if row == 18 { Terrain::BearTrap }
        else if row == 19 { Terrain::Teleport }
        else if row == 20 { Terrain::ForceE }
        else if row == 21 { Terrain::ForceN }
        else if row == 22 { Terrain::CloneBlockE }
        else { Terrain::CloneBlockN }
    } else {
        if row == 0 { Terrain::Floor }
        else if row == 1 { Terrain::Gravel }
        else if row == 2 { Terrain::CloneMachine }
        else if row == 3 { Terrain::InvisibleWall }
        else if row == 4 { Terrain::FakeBlueWall }
        else if row == 5 { Terrain::RedLock }
        else if row == 6 { Terrain::YellowLock }
        else if row == 7 { Terrain::Hint }
        else if row == 8 { Terrain::Fire }
        else if row == 9 { Terrain::DirtBlock }
        else if row == 10 { Terrain::ThinWallS }
        else if row == 11 { Terrain::ThinWallW }
        else if row == 12 { Terrain::Ice }
        else if row == 13 { Terrain::IceNE }
        else if row == 14 { Terrain::IceSE }
        else if row == 15 { Terrain::ToggleWall }
        else if row == 16 { Terrain::RedButton }
        else if row == 17 { Terrain::BlueButton }
        else if row == 18 { Terrain::RecessedWall }
        else if row == 19 { Terrain::ForceRandom }
        else if row == 20 { Terrain::ForceS }
        else if row == 21 { Terrain::ForceW }
        else if row == 22 { Terrain::CloneBlockS }
        else { Terrain::CloneBlockW }
    }
}

/// Number of rows of the terrain palette.
pub const TERRAIN_SAMPLES_LEN: i32 = 24;

/// Number of entries of the entity palette.
pub const ENTITY_SAMPLES_LEN: i32 = 24;

/// Terrain of the palette at row `row`, column `col`.
pub fn terrain_sample(row: usize, col: usize) -> (r: Terrain)
    requires
        row < 24,
        col < 2,
    ensures
        r == spec_terrain_sample(row as int, col as int),
{
    if col == 0 {
        if row == 0 { Terrain::Blank }
        else if row == 1 { Terrain::Dirt }
        else if row == 2 { Terrain::Wall }
        else if row == 3 { Terrain::HiddenWall }
        else if row == 4 { Terrain::RealBlueWall }
        else if row == 5 { Terrain::BlueLock }
        else if row == 6 { Terrain::GreenLock }
        else if row == 7 { Terrain::Exit }
        else if row == 8 { Terrain::Water }
        else if row == 9 { Terrain::WaterHazard }
        else if row == 10 { Terrain::ThinWallE }
        else if row == 11 { Terrain::ThinWallN }
        else if row == 12 { Terrain::ThinWallSE }
        else if row == 13 { Terrain::IceNW }
        else if row == 14 { Terrain::IceSW }
        else if row == 15 { Terrain::ToggleFloor }
        else if row == 16 { Terrain::GreenButton }
        else if row == 17 { Terrain::BrownButton }
        else if row == 18 { Terrain::BearTrap }
        else if row == 19 { Terrain::Teleport }
        else if row == 20 { Terrain::ForceE }
        else if row == 21 { Terrain::ForceN }
        else if row == 22 { Terrain::CloneBlockE }
        else { Terrain::CloneBlockN }
    } else {
        if row == 0 { Terrain::Floor }
        else if row == 1 { Terrain::Gravel }
        else if row == 2 { Terrain::CloneMachine }
        else if row == 3 { Terrain::InvisibleWall }
        else if row == 4 { Terrain::FakeBlueWall }
        else if row == 5 { Terrain::RedLock }
        else if row == 6 { Terrain::YellowLock }
        else if row == 7 { Terrain::Hint }
        else if row == 8 { Terrain::Fire }
        else if row == 9 { Terrain::DirtBlock }
        else if row == 10 { Terrain::ThinWallS }
        else if row == 11 { Terrain::ThinWallW }
        else if row == 12 { Terrain::Ice }
        else if row == 13 { Terrain::IceNE }
        else if row == 14 { Terrain::IceSE }
        else if row == 15 { Terrain::ToggleWall }
        else if row == 16 { Terrain::RedButton }
        else if row == 17 { Terrain::BlueButton }
        else if row == 18 { Terrain::RecessedWall }
        else if row == 19 { Terrain::ForceRandom }
        else if row == 20 { Terrain::ForceS }
        else if row == 21 { Terrain::ForceW }
        else if row == 22 { Terrain::CloneBlockS }
        else { Terrain::CloneBlockW }
    }
}

/// Entity kind of the palette above the field at position `i`.
pub open spec fn spec_entity_sample(i: int) -> EntityKind {
    if i == 0 { EntityKind::Player }
    else if i == 1 { EntityKind::Chip }
    else if i == 2 { EntityKind::Socket }
    else if i == 3 { EntityKind::Block }
    else if i == 4 { EntityKind::IceBlock }
    else if i == 5 { EntityKind::Flippers }
    else if i == 6 { EntityKind::FireBoots }
    else if i == 7 { EntityKind::IceSkates }
    else if i == 8 { EntityKind::SuctionBoots }
    else if i == 9 { EntityKind::BlueKey }
    else if i == 10 { EntityKind::RedKey }
    else if i == 11 { EntityKind::GreenKey }
    else if i == 12 { EntityKind::YellowKey }
    else if i == 13 { EntityKind::Thief }
    else if i == 14 { EntityKind::Bomb }
    else if i == 15 { EntityKind::Bug }
    else if i == 16 { EntityKind::FireBall }
    else if i == 17 { EntityKind::PinkBall }
    else if i == 18 { EntityKind::Tank }
    else if i == 19 { EntityKind::Glider }
    else if i == 20 { EntityKind::Teeth }
    else if i == 21 { EntityKind::Walker }
    else if i == 22 { EntityKind::Blob }
    else { EntityKind::Paramecium }
}

/// Entity kind of the palette above the field at position `i`.
pub fn entity_sample(i: usize) -> (r: EntityKind)
    requires
        i < 24,
    ensures
        r == spec_entity_sample(i as int),
{
    if i == 0 { EntityKind::Player }
    else if i == 1 { EntityKind::Chip }
    else if i == 2 { EntityKind::Socket }
    else if i == 3 { EntityKind::Block }
    else if i == 4 { EntityKind::IceBlock }
    else if i == 5 { EntityKind::Flippers }
    else if i == 6 { EntityKind::FireBoots }
    else if i == 7 { EntityKind::IceSkates }
    else if i == 8 { EntityKind::SuctionBoots }
    else if i == 9 { EntityKind::BlueKey }
    else if i == 10 { EntityKind::RedKey }
    else if i == 11 { EntityKind::GreenKey }
    else if i == 12 { EntityKind::YellowKey }
    else if i == 13 { EntityKind::Thief }
    else if i == 14 { EntityKind::Bomb }
    else if i == 15 { EntityKind::Bug }
    else if i == 16 { EntityKind::FireBall }
    else if i == 17 { EntityKind::PinkBall }
    else if i == 18 { EntityKind::Tank }
    else if i == 19 { EntityKind::Glider }
    else if i == 20 { EntityKind::Teeth }
    else if i == 21 { EntityKind::Walker }
    else if i == 22 { EntityKind::Blob }
    else { EntityKind::Paramecium }
}

/// The edit mode of the editor: the level, the active tool, the tile under
/// the cursor and the state of the input.
pub struct EditorEditState {
    pub level: EditLevel,
    pub tool: Option<ToolState>,
    pub cursor_pos: Vec2i,
    pub input: Input,
    pub conn_src: Vec2i,
    pub forcepath_last_pos: Option<Vec2i>,
    pub tool_pos: Option<Vec2i>,
}

/// The tool a sample at `c` picks, if any: a palette entry left of or above
/// the field, else the entity or the terrain under the cursor.
pub open spec fn sampled_tool(level: EditLevel, c: Vec2i) -> Option<ToolState> {
    if c.x < 0 {
        if c.x == -2 && 0 <= c.y < 24 {
            Some(ToolState::Terrain(TerrainToolState { selected_terrain: spec_terrain_sample(c.y as int, 1) }))
        } else if c.x == -3 && 0 <= c.y < 24 {
            Some(ToolState::Terrain(TerrainToolState { selected_terrain: spec_terrain_sample(c.y as int, 0) }))
        } else {
            None
        }
    } else if c.y < 0 {
        if c.y == -2 && 0 <= c.x < 24 {
            Some(ToolState::Entity(EntityToolState {
                selected_ent: INVALID_ENTITY,
                selected_args: Some(EntityArgs { kind: spec_entity_sample(c.x as int), pos: c, face_dir: None }),
            }))
        } else {
            None
        }
    } else if exists|i: int| is_first_entity(level.ents@, stands_on(c), i) {
        let i = choose|i: int| is_first_entity(level.ents@, stands_on(c), i);
        Some(ToolState::Entity(EntityToolState {
            selected_ent: level.ents@[i].handle,
            selected_args: Some(level.ents@[i].to_args()),
        }))
    } else {
        Some(ToolState::Terrain(TerrainToolState { selected_terrain: level.field.spec_terrain(c) }))
    }
}

/// The editor after sampling: the tool is the sampled one, if any, and all
/// else is unchanged.
pub open spec fn sample_post(s0: EditorEditState, s1: EditorEditState) -> bool {
    &&& s1.level == s0.level
    &&& s1.cursor_pos == s0.cursor_pos
    &&& s1.input == s0.input
    &&& s1.conn_src == s0.conn_src
    &&& s1.forcepath_last_pos == s0.forcepath_last_pos
    &&& s1.tool_pos == s0.tool_pos
    &&& s1.tool == match sampled_tool(s0.level, s0.cursor_pos) {
        Some(t) => Some(t),
        None => s0.tool,
    }
}

/// Only the terrain, the input and the path-drawing positions may differ:
/// entities, connections, field size, cursor, tool and connection start are
/// the same.
pub open spec fn same_but_terrain(s0: EditorEditState, s1: EditorEditState) -> bool {
    &&& s1.level.ents@ == s0.level.ents@
    &&& s1.level.next_handle == s0.level.next_handle
    &&& s1.level.field.width == s0.level.field.width
    &&& s1.level.field.height == s0.level.field.height
    &&& s1.level.field.conns@ == s0.level.field.conns@
    &&& s1.cursor_pos == s0.cursor_pos
    &&& s1.tool == s0.tool
    &&& s1.conn_src == s0.conn_src
}

impl EditorEditState {
    /// The level is well formed.
    pub open spec fn wf(&self) -> bool {
        self.level.wf()
    }

    pub fn key_left(&mut self, pressed: bool)
        ensures
            final(self).input == (Input { key_left: pressed, ..old(self).input }),
            final(self).level == old(self).level,
            final(self).tool == old(self).tool,
            final(self).cursor_pos == old(self).cursor_pos,
    {
        self.input.key_left = pressed;
    }

    pub fn key_right(&mut self, pressed: bool)
        ensures
            final(self).input == (Input { key_right: pressed, ..old(self).input }),
            final(self).level == old(self).level,
            final(self).tool == old(self).tool,
            final(self).cursor_pos == old(self).cursor_pos,
    {
        self.input.key_right = pressed;
    }

    pub fn key_up(&mut self, pressed: bool)
        ensures
            final(self).input == (Input { key_up: pressed, ..old(self).input }),
            final(self).level == old(self).level,
            final(self).tool == old(self).tool,
            final(self).cursor_pos == old(self).cursor_pos,
    {
        self.input.key_up = pressed;
    }

    pub fn key_down(&mut self, pressed: bool)
        ensures
            final(self).input == (Input { key_down: pressed, ..old(self).input }),
            final(self).level == old(self).level,
            final(self).tool == old(self).tool,
            final(self).cursor_pos == old(self).cursor_pos,
    {
        self.input.key_down = pressed;
    }

    pub fn key_shift(&mut self, pressed: bool)
        ensures
            final(self).input == (Input { key_shift: pressed, ..old(self).input }),
            final(self).level == old(self).level,
            final(self).tool == old(self).tool,
            final(self).cursor_pos == old(self).cursor_pos,
    {
        self.input.key_shift = pressed;
    }

    /// Picks a tool from the palettes or from the tile under the cursor.
    pub fn sample(&mut self)
        requires
            old(self).wf(),
        ensures
            sample_post(*old(self), *final(self)),
            final(self).wf(),
    {
        let cursor_pos = self.cursor_pos;

        // Sample from the terrain samples
        if cursor_pos.x < 0 {
            if cursor_pos.x == -3 && cursor_pos.y >= 0 && cursor_pos.y < TERRAIN_SAMPLES_LEN {
                let selected_terrain = terrain_sample(cursor_pos.y as usize, 0);
                self.tool = Some(ToolState::Terrain(TerrainToolState { selected_terrain }));
            }
            if cursor_pos.x == -2 && cursor_pos.y >= 0 && cursor_pos.y < TERRAIN_SAMPLES_LEN {
                let selected_terrain = terrain_sample(cursor_pos.y as usize, 1);
                self.tool = Some(ToolState::Terrain(TerrainToolState { selected_terrain }));
            }
        }
        // Sample from the entity samples
        else if cursor_pos.y < 0 {
            if cursor_pos.y == -2 && cursor_pos.x >= 0 && cursor_pos.x < ENTITY_SAMPLES_LEN {
                let kind = entity_sample(cursor_pos.x as usize);
                let selected_ent = INVALID_ENTITY;
                let selected_args = Some(EntityArgs { kind, pos: cursor_pos, face_dir: None });
                self.tool = Some(ToolState::Entity(EntityToolState { selected_ent, selected_args }));
            }
        }
        else {
            // Sample from the existing entities
            let ehandle = self.level.entity_at(cursor_pos);
            if let Some(ehandle) = ehandle {
                proof {
                    let i = choose|i: int| is_first_entity(self.level.ents@, stands_on(cursor_pos), i)
                        && self.level.ents@[i].handle == ehandle;
                    let i2 = choose|i: int| is_first_entity(self.level.ents@, stands_on(cursor_pos), i);
                    assert(i == i2);
                }
                if let Some(ent) = self.level.get(ehandle) {
                    let selected_ent = ehandle;
                    let selected_args = Some(ent.to_entity_args());
                    self.tool = Some(ToolState::Entity(EntityToolState { selected_ent, selected_args }));
                }
            }
            // Sample from the terrain
            else {
                let selected_terrain = self.level.field.get_terrain(cursor_pos);
                self.tool = Some(ToolState::Terrain(TerrainToolState { selected_terrain }));
            }
        }
    }
}

/// The editor after handing an event to its tool `t0`: the tool was taken
/// out while it acted (`mid` is the editor it left, `t1` the tool), and is
/// put back unless it picked another tool itself.
pub open spec fn with_tool_back(mid: EditorEditState, t1: ToolState) -> EditorEditState {
    EditorEditState { tool: if mid.tool is None { Some(t1) } else { mid.tool }, ..mid }
}

/// The editor after a left button press or release.
pub open spec fn left_click_post(s0: EditorEditState, s1: EditorEditState, pressed: bool) -> bool {
    let c = s0.cursor_pos;
    if pressed && (c.x < 0 || c.y < 0) {
        sample_post(s0, s1)
    } else {
        match s0.tool {
            None => s1 == EditorEditState { input: Input { left_click: pressed, ..s0.input }, ..s0 },
            Some(t0) => exists|t1: ToolState, mid: EditorEditState| {
                &&& tool_left_click_post(t0, t1, EditorEditState { tool: None, ..s0 }, mid, pressed)
                &&& s1 == EditorEditState {
                    input: Input { left_click: pressed, ..mid.input },
                    ..with_tool_back(mid, t1)
                }
            },
        }
    }
}

/// The editor after a right button press or release.
pub open spec fn right_click_post(s0: EditorEditState, s1: EditorEditState, pressed: bool) -> bool {
    match s0.tool {
        None => s1 == EditorEditState { input: Input { right_click: pressed, ..s0.input }, ..s0 },
        Some(t0) => exists|t1: ToolState, mid: EditorEditState| {
            &&& tool_right_click_post(t0, t1, EditorEditState { tool: None, ..s0 }, mid, pressed)
            &&& s1 == EditorEditState {
                input: Input { right_click: pressed, ..mid.input },
                ..with_tool_back(mid, t1)
            }
        },
    }
}

impl EditorEditState {
    /// Picks the terrain tool, painting floor.
    pub fn tool_terrain(&mut self, pressed: bool)
        ensures
            *final(self) == if pressed {
                EditorEditState {
                    tool: Some(ToolState::Terrain(TerrainToolState { selected_terrain: Terrain::Floor })),
                    ..*old(self)
                }
            } else {
                *old(self)
            },
    {
        if pressed {
            self.tool = Some(ToolState::Terrain(TerrainToolState::default()));
        }
    }

    /// Picks the entity tool with nothing picked.
    pub fn tool_entity(&mut self, pressed: bool)
        ensures
            *final(self) == if pressed {
                EditorEditState {
                    tool: Some(ToolState::Entity(EntityToolState { selected_ent: INVALID_ENTITY, selected_args: None })),
                    ..*old(self)
                }
            } else {
                *old(self)
            },
    {
        if pressed {
            self.tool = Some(ToolState::Entity(EntityToolState::default()));
        }
    }

    /// Picks the connection tool.
    pub fn tool_connection(&mut self, pressed: bool)
        ensures
            *final(self) == if pressed {
                EditorEditState { tool: Some(ToolState::Connection(ConnectionToolState {})), ..*old(self) }
            } else {
                *old(self)
            },
    {
        if pressed {
            self.tool = Some(ToolState::Connection(ConnectionToolState::default()));
        }
    }

    /// Picks the ice path tool, not yet drawing.
    pub fn tool_icepath(&mut self, pressed: bool)
        ensures
            *final(self) == if pressed {
                EditorEditState {
                    tool: Some(ToolState::IcePath(IcePathToolState { last_pos: None, last_dir: None })),
                    ..*old(self)
                }
            } else {
                *old(self)
            },
    {
        if pressed {
            self.tool = Some(ToolState::IcePath(IcePathToolState::default()));
        }
    }

    /// Picks the force path tool.
    pub fn tool_forcepath(&mut self, pressed: bool)
        ensures
            *final(self) == if pressed {
                EditorEditState { tool: Some(ToolState::ForcePath(ForcePathToolState {})), ..*old(self) }
            } else {
                *old(self)
            },
    {
        if pressed {
            self.tool = Some(ToolState::ForcePath(ForcePathToolState::default()));
        }
    }

    /// A left button press or release. Pressing off the field samples a
    /// tool; otherwise the active tool acts. Returns whether the level should
    /// now be recorded in the undo history, which is after every release.
    pub fn left_click(&mut self, pressed: bool) -> (record: bool)
        requires
            old(self).wf(),
            old(self).tool matches Some(t) ==> tool_can_place(t, *old(self)),
        ensures
            final(self).wf(),
            left_click_post(*old(self), *final(self), pressed),
            record == !pressed,
    {
        if pressed && (self.cursor_pos.x < 0 || self.cursor_pos.y < 0) {
            self.sample();
            return false;
        }

        if let Some(t) = self.tool {
            let mut tool_state = t;
            self.tool = None;
            tool_state.left_click(self, pressed);
            if self.tool.is_none() {
                self.tool = Some(tool_state);
            }
        }

        self.input.left_click = pressed;
        !pressed
    }

    /// A right button press or release, handed to the active tool. Returns
    /// whether the level should now be recorded in the undo history, which
    /// is after every release.
    pub fn right_click(&mut self, pressed: bool) -> (record: bool)
        requires
            old(self).wf(),
            old(self).tool matches Some(t) ==> tool_can_place(t, *old(self)),
        ensures
            final(self).wf(),
            right_click_post(*old(self), *final(self), pressed),
            record == !pressed,
    {
        if let Some(t) = self.tool {
            let mut tool_state = t;
            self.tool = None;
            tool_state.right_click(self, pressed);
            if self.tool.is_none() {
                self.tool = Some(tool_state);
            }
        }

        self.input.right_click = pressed;
        !pressed
    }

    /// The delete key, handed to the active tool. Returns whether the level
    /// should now be recorded in the undo history, which is after every
    /// release.
    pub fn delete(&mut self, pressed: bool) -> (record: bool)
        requires
            old(self).wf(),
        ensures
            final(self).wf(),
            match old(self).tool {
                None => *final(self) == *old(self),
                Some(t0) => exists|t1: ToolState, mid: EditorEditState| {
                    &&& tool_delete_post(t0, t1, EditorEditState { tool: None, ..*old(self) }, mid, pressed)
                    &&& *final(self) == with_tool_back(mid, t1)
                },
            },
            record == !pressed,
    {
        if let Some(t) = self.tool {
            let mut tool_state = t;
            self.tool = None;
            let ghost taken = *self;
            tool_state.delete(self, pressed);
            let ghost mid = *self;
            assert(tool_delete_post(t, tool_state, taken, mid, pressed));
            if self.tool.is_none() {
                self.tool = Some(tool_state);
            }
            assert(*self == with_tool_back(mid, tool_state));
        }
        !pressed
    }

    /// Lets the active tool act once per frame.
    pub fn tool_think(&mut self)
        requires
            old(self).wf(),
        ensures
            final(self).wf(),
            match old(self).tool {
                None => *final(self) == *old(self),
                Some(t0) => exists|t1: ToolState, mid: EditorEditState| {
                    &&& tool_think_post(t0, t1, EditorEditState { tool: None, ..*old(self) }, mid)
                    &&& *final(self) == with_tool_back(mid, t1)
                },
            },
    {
        if let Some(t) = self.tool {
            let mut tool_state = t;
            self.tool = None;
            let ghost taken = *self;
            tool_state.think(self);
            let ghost mid = *self;
            assert(tool_think_post(t, tool_state, taken, mid));
            if self.tool.is_none() {
                self.tool = Some(tool_state);
            }
            assert(*self == with_tool_back(mid, tool_state));
        }
    }
}

/// Terrain given to the tiles a resize adds: the terrain tool's selection,
/// else floor.
pub open spec fn resize_fill(tool: Option<ToolState>) -> Terrain {
    match tool {
        Some(ToolState::Terrain(state)) => state.selected_terrain,
        _ => Terrain::Floor,
    }
}

impl EditorEditState {
    /// Resizes the field by the given number of tiles on each side
    /// (positive expands, negative crops), filling new tiles with the
    /// terrain tool's selection or floor. Returns whether the level should
    /// now be recorded in the undo history, which is when it was resized.
    pub fn resize(&mut self, left: i32, top: i32, right: i32, bottom: i32, limits: FieldLimits) -> (record: bool)
        requires
            old(self).wf(),
            limits.min_width >= 0,
            limits.min_height >= 0,
        ensures
            final(self).wf(),
            final(self).tool == old(self).tool,
            final(self).cursor_pos == old(self).cursor_pos,
            final(self).input == old(self).input,
            final(self).conn_src == old(self).conn_src,
            final(self).forcepath_last_pos == old(self).forcepath_last_pos,
            final(self).tool_pos == old(self).tool_pos,
            resize_post(old(self).level, final(self).level, left, top, right, bottom, resize_fill(old(self).tool), limits, record),
    {
        let fill = match self.tool {
            Some(ToolState::Terrain(state)) => state.selected_terrain,
            _ => Terrain::Floor,
        };
        self.level.resize(left, top, right, bottom, fill, limits)
    }
}

} // verus!
