use vstd::prelude::*;
use crate::data::terrain::{Compass, Terrain, Vec2i};
use crate::editor::editstate::{EditorEditState, Input, same_but_terrain, sample_post};
use crate::editor::field::with_tile;
use crate::editor::tool::{dir_between, step_dir};

verus! {

/// The force path tool; its drawing state is kept by the editor.
#[derive(Copy, Clone)]
pub struct ForcePathToolState {}

impl ForcePathToolState {
    pub fn default() -> (r: ForcePathToolState) {
        ForcePathToolState {}
    }
}

/// The force floor that pushes in direction `dir`.
pub open spec fn spec_force_tile_for_dir(dir: Compass) -> Terrain {
    match dir {
        Compass::Up => Terrain::ForceN,
        Compass::Down => Terrain::ForceS,
        Compass::Left => Terrain::ForceW,
        Compass::Right => Terrain::ForceE,
    }
}

/// The force floor that pushes in direction `dir`.
pub fn force_tile_for_dir(dir: Compass) -> (r: Terrain)
    ensures
        r == spec_force_tile_for_dir(dir),
{
    match dir {
        Compass::Up => Terrain::ForceN,
        Compass::Down => Terrain::ForceS,
        Compass::Left => Terrain::ForceW,
        Compass::Right => Terrain::ForceE,
    }
}

/// Each direction has a force floor of its own.
pub proof fn law_force_tile_injective(a: Compass, b: Compass)
    ensures
        spec_force_tile_for_dir(a) == spec_force_tile_for_dir(b) <==> a == b,
{
}

/// The direction a force floor pushes, by its name: `ForceN` pushes up
/// (north), `ForceS` down, `ForceW` left, `ForceE` right.
pub open spec fn force_push_dir(t: Terrain) -> Option<Compass> {
    match t {
        Terrain::ForceN => Some(Compass::Up),
        Terrain::ForceS => Some(Compass::Down),
        Terrain::ForceW => Some(Compass::Left),
        Terrain::ForceE => Some(Compass::Right),
        _ => None,
    }
}

/// The force floor drawn for a step pushes in the direction of the step.
pub proof fn law_force_tile_pushes_along(dir: Compass)
    ensures
        force_push_dir(spec_force_tile_for_dir(dir)) == Some(dir),
{
}

/// The editor after one step of drawing a force path: a step onto a
/// neighbouring tile turns the tile left and the tile entered into force
/// floors pushing in the direction of the step; a jump changes no tile.
/// Either way the cursor becomes the last tile drawn.
pub open spec fn forcepath_think_post(s0: EditorEditState, s1: EditorEditState) -> bool {
    let c = s0.cursor_pos;
    if !s0.input.left_click || s0.forcepath_last_pos is None || s0.forcepath_last_pos == Some(c) {
        *&s1 == s0
    } else {
        let last = s0.forcepath_last_pos->0;
        let w = s0.level.field.width as int;
        let h = s0.level.field.height as int;
        let t0 = s0.level.field.terrain@;
        &&& same_but_terrain(s0, s1)
        &&& s1.input == s0.input
        &&& s1.tool_pos == s0.tool_pos
        &&& s1.forcepath_last_pos == Some(c)
        &&& s1.level.field.terrain@ == match dir_between(last, c) {
            Some(d) => with_tile(
                with_tile(t0, w, h, last, spec_force_tile_for_dir(d)),
                w,
                h,
                c,
                spec_force_tile_for_dir(d),
            ),
            None => t0,
        }
    }
}

/// The editor after a left button press or release with the force path tool.
pub open spec fn forcepath_left_click_post(
    s0: EditorEditState,
    s1: EditorEditState,
    pressed: bool,
) -> bool {
    &&& same_but_terrain(s0, s1)
    &&& s1.input == (Input { left_click: pressed, ..s0.input })
    &&& if pressed {
        &&& s1.level.field.terrain@ == with_tile(
            s0.level.field.terrain@,
            s0.level.field.width as int,
            s0.level.field.height as int,
            s0.cursor_pos,
            Terrain::ForceRandom,
        )
        &&& s1.forcepath_last_pos == Some(s0.cursor_pos)
        &&& s1.tool_pos == Some(s0.cursor_pos)
    } else {
        &&& s1.level.field.terrain@ == s0.level.field.terrain@
        &&& s1.forcepath_last_pos is None
        &&& s1.tool_pos is None
    }
}

impl ForcePathToolState {
    /// Pressing starts a path with a random force floor at the cursor;
    /// releasing stops drawing.
    pub fn left_click(&mut self, s: &mut EditorEditState, pressed: bool)
        requires
            old(s).wf(),
        ensures
            final(s).wf(),
            *final(self) == *old(self),
            forcepath_left_click_post(*old(s), *final(s), pressed),
    {
        if pressed {
            // Start a new force floor path with a random force tile at the cursor.
            s.level.field.set_terrain(s.cursor_pos, Terrain::ForceRandom);
            s.forcepath_last_pos = Some(s.cursor_pos);
            s.tool_pos = Some(s.cursor_pos);
        } else {
            // Stop drawing.
            s.forcepath_last_pos = None;
            s.tool_pos = None;
        }

        s.input.left_click = pressed;
    }

    /// Pressing samples a tool.
    pub fn right_click(&mut self, s: &mut EditorEditState, pressed: bool)
        requires
            old(s).wf(),
        ensures
            final(s).wf(),
            *final(self) == *old(self),
            if pressed { sample_post(*old(s), *final(s)) } else { *final(s) == *old(s) },
    {
        if pressed {
            s.sample();
        }
    }

    /// While the left button is held, extends the path to the cursor.
    pub fn think(&mut self, s: &mut EditorEditState)
        requires
            old(s).wf(),
        ensures
            final(s).wf(),
            *final(self) == *old(self),
            forcepath_think_post(*old(s), *final(s)),
    {
        if !s.input.left_click {
            return;
        }
        let last_pos = match s.forcepath_last_pos {
            Some(p) => p,
            None => return,
        };
        let cursor_pos = s.cursor_pos;
        if cursor_pos == last_pos {
            return;
        }

        // Set the tiles to push in the direction we just moved
        let cursor_dir = step_dir(last_pos, cursor_pos);
        if let Some(cursor_dir) = cursor_dir {
            let terrain = force_tile_for_dir(cursor_dir);
            s.level.field.set_terrain(last_pos, terrain);
            s.level.field.set_terrain(cursor_pos, terrain);
        }

        s.forcepath_last_pos = Some(cursor_pos);
    }
}

} // verus!
