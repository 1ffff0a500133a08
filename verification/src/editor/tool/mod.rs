//! Editing tools.

use vstd::prelude::*;
use crate::data::terrain::{Compass, Vec2i, compass_vec};
use crate::editor::editstate::{EditorEditState, sample_post};
use crate::editor::tool::connection::{ConnectionToolState, connection_left_click_post};
use crate::editor::tool::entity::{
    EntityToolState, entity_delete_post, entity_left_click_post, entity_right_click_post,
};
use crate::editor::tool::forcepath::{ForcePathToolState, forcepath_left_click_post, forcepath_think_post};
use crate::editor::tool::icepath::{IcePathToolState, icepath_left_click_post, icepath_think_post};
use crate::editor::tool::terrain::{TerrainToolState, terrain_put_post};

pub mod connection;
pub mod entity;
pub mod forcepath;
pub mod icepath;
pub mod terrain;

verus! {

/// The active tool and its state.
#[derive(Copy, Clone)]
pub enum ToolState {
    Terrain(TerrainToolState),
    Entity(EntityToolState),
    Connection(ConnectionToolState),
    IcePath(IcePathToolState),
    ForcePath(ForcePathToolState),
}

/// The tool and the editor after a left button press or release, as the
/// active tool's own `left_click` says.
pub open spec fn tool_left_click_post(
    t0: ToolState,
    t1: ToolState,
    s0: EditorEditState,
    s1: EditorEditState,
    pressed: bool,
) -> bool {
    match (t0, t1) {
        (ToolState::Terrain(a), ToolState::Terrain(b)) => {
            &&& b == a
            &&& if pressed { terrain_put_post(s0, s1, a.selected_terrain) } else { s1 == s0 }
        },
        (ToolState::Entity(a), ToolState::Entity(b)) => entity_left_click_post(a, b, s0, s1, pressed),
        (ToolState::Connection(a), ToolState::Connection(b)) => connection_left_click_post(s0, s1, pressed),
        (ToolState::IcePath(a), ToolState::IcePath(b)) => icepath_left_click_post(a, b, s0, s1, pressed),
        (ToolState::ForcePath(a), ToolState::ForcePath(b)) => forcepath_left_click_post(s0, s1, pressed),
        _ => false,
    }
}

/// The tool and the editor after a right button press or release, as the
/// active tool's own `right_click` says.
pub open spec fn tool_right_click_post(
    t0: ToolState,
    t1: ToolState,
    s0: EditorEditState,
    s1: EditorEditState,
    pressed: bool,
) -> bool {
    match (t0, t1) {
        (ToolState::Entity(a), ToolState::Entity(b)) => entity_right_click_post(a, b, s0, s1, pressed),
        (ToolState::Connection(a), ToolState::Connection(b)) => s1 == s0,
        _ => {
            &&& t1 == t0
            &&& if pressed { sample_post(s0, s1) } else { s1 == s0 }
        },
    }
}

/// The tool and the editor after a frame, as the active tool's own `think`
/// says.
pub open spec fn tool_think_post(t0: ToolState, t1: ToolState, s0: EditorEditState, s1: EditorEditState) -> bool {
    match (t0, t1) {
        (ToolState::Terrain(a), ToolState::Terrain(b)) => {
            &&& b == a
            &&& if s0.input.left_click { terrain_put_post(s0, s1, a.selected_terrain) } else { s1 == s0 }
        },
        (ToolState::IcePath(a), ToolState::IcePath(b)) => icepath_think_post(a, b, s0, s1),
        (ToolState::ForcePath(a), ToolState::ForcePath(b)) => forcepath_think_post(s0, s1),
        _ => {
            &&& t1 == t0
            &&& s1 == s0
        },
    }
}

/// The tool and the editor after the delete key is pressed or released: the
/// entity tool deletes, the other tools do nothing.
pub open spec fn tool_delete_post(
    t0: ToolState,
    t1: ToolState,
    s0: EditorEditState,
    s1: EditorEditState,
    pressed: bool,
) -> bool {
    match (t0, t1) {
        (ToolState::Entity(a), ToolState::Entity(b)) => entity_delete_post(a, b, s0, s1, pressed),
        _ => {
            &&& t1 == t0
            &&& s1 == s0
        },
    }
}

/// The editor state holds enough handles for the tool to place an entity.
pub open spec fn tool_can_place(t: ToolState, s: EditorEditState) -> bool {
    t is Entity ==> s.level.next_handle < u32::MAX
}

impl ToolState {
    /// The tool's name, as shown to the user.
    pub fn name(&self) -> (r: &'static str)
        ensures
            r@ == match *self {
                ToolState::Terrain(_) => "Terrain"@,
                ToolState::Entity(_) => "Entity"@,
                ToolState::Connection(_) => "Connection"@,
                ToolState::IcePath(_) => "Ice Path"@,
                ToolState::ForcePath(_) => "Force Path"@,
            },
    {
        match self {
            ToolState::Terrain(_) => "Terrain",
            ToolState::Entity(_) => "Entity",
            ToolState::Connection(_) => "Connection",
            ToolState::IcePath(_) => "Ice Path",
            ToolState::ForcePath(_) => "Force Path",
        }
    }

    /// Hands a left button press or release to the active tool.
    pub fn left_click(&mut self, s: &mut EditorEditState, pressed: bool)
        requires
            old(s).wf(),
            tool_can_place(*old(self), *old(s)),
        ensures
            final(s).wf(),
            tool_left_click_post(*old(self), *final(self), *old(s), *final(s), pressed),
    {
        match self {
            ToolState::Terrain(state) => state.left_click(s, pressed),
            ToolState::Entity(state) => state.left_click(s, pressed),
            ToolState::Connection(state) => state.left_click(s, pressed),
            ToolState::IcePath(state) => state.left_click(s, pressed),
            ToolState::ForcePath(state) => state.left_click(s, pressed),
        }
    }

    /// Hands a right button press or release to the active tool.
    pub fn right_click(&mut self, s: &mut EditorEditState, pressed: bool)
        requires
            old(s).wf(),
            tool_can_place(*old(self), *old(s)),
        ensures
            final(s).wf(),
            tool_right_click_post(*old(self), *final(self), *old(s), *final(s), pressed),
    {
        match self {
            ToolState::Terrain(state) => state.right_click(s, pressed),
            ToolState::Entity(state) => state.right_click(s, pressed),
            ToolState::Connection(state) => state.right_click(s, pressed),
            ToolState::IcePath(state) => state.right_click(s, pressed),
            ToolState::ForcePath(state) => state.right_click(s, pressed),
        }
    }

    /// Lets the active tool act once per frame.
    pub fn think(&mut self, s: &mut EditorEditState)
        requires
            old(s).wf(),
        ensures
            final(s).wf(),
            tool_think_post(*old(self), *final(self), *old(s), *final(s)),
    {
        match self {
            ToolState::Terrain(state) => state.think(s),
            ToolState::Entity(state) => state.think(s),
            ToolState::Connection(state) => state.think(s),
            ToolState::IcePath(state) => state.think(s),
            ToolState::ForcePath(state) => state.think(s),
        }
    }

    /// Hands the delete key to the entity tool; other tools ignore it.
    pub fn delete(&mut self, s: &mut EditorEditState, pressed: bool)
        requires
            old(s).wf(),
        ensures
            final(s).wf(),
            tool_delete_post(*old(self), *final(self), *old(s), *final(s), pressed),
    {
        if let ToolState::Entity(state) = self {
            state.delete(s, pressed);
        }
    }
}

/// The direction of a single step from `from` to `to`, if `to` is one of
/// the four tiles next to `from`.
pub open spec fn dir_between(from: Vec2i, to: Vec2i) -> Option<Compass> {
    let dx = to.x - from.x;
    let dy = to.y - from.y;
    if dx == 0 && dy == -1 {
        Some(Compass::Up)
    } else if dx == -1 && dy == 0 {
        Some(Compass::Left)
    } else if dx == 0 && dy == 1 {
        Some(Compass::Down)
    } else if dx == 1 && dy == 0 {
        Some(Compass::Right)
    } else {
        None
    }
}

/// The direction of a single step from `from` to `to`, if any.
pub fn step_dir(from: Vec2i, to: Vec2i) -> (r: Option<Compass>)
    ensures
        r == dir_between(from, to),
{
    let dx: i64 = to.x as i64 - from.x as i64;
    let dy: i64 = to.y as i64 - from.y as i64;
    if dx < -1 || dx > 1 || dy < -1 || dy > 1 {
        return None;
    }
    let v = Vec2i { x: dx as i32, y: dy as i32 };
    let r = Compass::from_vec(v);
    assert(r is None ==> compass_vec(Compass::Up) != v && compass_vec(Compass::Left) != v
        && compass_vec(Compass::Down) != v && compass_vec(Compass::Right) != v);
    r
}

} // verus!
