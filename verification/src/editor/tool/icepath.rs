use vstd::prelude::*;
use crate::data::terrain::{Compass, Terrain, Vec2i};
use crate::editor::editstate::{EditorEditState, Input, same_but_terrain, sample_post};
use crate::editor::field::with_tile;
use crate::editor::tool::{dir_between, step_dir};

verus! {

/// The ice path tool: the last tile drawn and the direction it was entered.
#[derive(Copy, Clone)]
pub struct IcePathToolState {
    pub last_pos: Option<Vec2i>,
    pub last_dir: Option<Compass>,
}

impl IcePathToolState {
    /// Not drawing.
    pub fn default() -> (r: IcePathToolState)
        ensures
            r.last_pos is None,
            r.last_dir is None,
    {
        IcePathToolState { last_pos: None, last_dir: None }
    }
}

/// The opposite direction.
pub open spec fn opposite(dir: Compass) -> Compass {
    match dir {
        Compass::Up => Compass::Down,
        Compass::Down => Compass::Up,
        Compass::Left => Compass::Right,
        Compass::Right => Compass::Left,
    }
}

/// The ice tile for a path that enters a tile going `from` and leaves it
/// going `to`: a corner for a turn, plain ice otherwise.
pub open spec fn spec_ice_tile_for_turn(from: Compass, to: Compass) -> Terrain {
    match (from, to) {
        (Compass::Up, Compass::Right) => Terrain::IceNW,
        (Compass::Up, Compass::Left) => Terrain::IceNE,
        (Compass::Right, Compass::Down) => Terrain::IceNE,
        (Compass::Right, Compass::Up) => Terrain::IceSE,
        (Compass::Down, Compass::Left) => Terrain::IceSE,
        (Compass::Down, Compass::Right) => Terrain::IceSW,
        (Compass::Left, Compass::Down) => Terrain::IceNW,
        (Compass::Left, Compass::Up) => Terrain::IceSW,
        _ => Terrain::Ice,
    }
}

/// The ice tile for a path that enters a tile going `from` and leaves it
/// going `to`: a corner for a turn, plain ice otherwise.
pub fn ice_tile_for_turn(from: Compass, to: Compass) -> (r: Terrain)
    ensures
        r == spec_ice_tile_for_turn(from, to),
{
    match (from, to) {
        (Compass::Up, Compass::Right) => Terrain::IceNW,
        (Compass::Up, Compass::Left) => Terrain::IceNE,
        (Compass::Right, Compass::Down) => Terrain::IceNE,
        (Compass::Right, Compass::Up) => Terrain::IceSE,
        (Compass::Down, Compass::Left) => Terrain::IceSE,
        (Compass::Down, Compass::Right) => Terrain::IceSW,
        (Compass::Left, Compass::Down) => Terrain::IceNW,
        (Compass::Left, Compass::Up) => Terrain::IceSW,
        _ => Terrain::Ice,
    }
}

/// Drawing the same path backwards puts the same ice on each tile: the turn
/// from `a` to `b` and the turn from the opposite of `b` to the opposite of
/// `a` give the same tile. Going straight on, or back, gives plain ice.
pub proof fn law_ice_turn_reversed(a: Compass, b: Compass)
    ensures
        spec_ice_tile_for_turn(a, b) == spec_ice_tile_for_turn(opposite(b), opposite(a)),
        (b == a || b == opposite(a)) ==> spec_ice_tile_for_turn(a, b) == Terrain::Ice,
        (b != a && b != opposite(a)) ==> spec_ice_tile_for_turn(a, b) != Terrain::Ice,
{
}

/// The sides an ice corner walls off, by its name: `IceNE` walls the north
/// (up) and east (right) sides, and so on; other terrain walls none.
pub open spec fn ice_corner_walls(t: Terrain, side: Compass) -> bool {
    match t {
        Terrain::IceNE => side == Compass::Up || side == Compass::Right,
        Terrain::IceNW => side == Compass::Up || side == Compass::Left,
        Terrain::IceSE => side == Compass::Down || side == Compass::Right,
        Terrain::IceSW => side == Compass::Down || side == Compass::Left,
        _ => false,
    }
}

/// Where an ice path turns, the corner is the one that lets the path in and
/// out: it walls off the side the path ran into (`from`) and the side
/// opposite the way it leaves (`to`), and leaves open the side it came in
/// by and the side it goes out by.
pub proof fn law_ice_corner_guides_the_turn(from: Compass, to: Compass)
    requires
        to != from,
        to != opposite(from),
    ensures
        forall|side: Compass| ice_corner_walls(spec_ice_tile_for_turn(from, to), side)
            <==> (side == from || side == opposite(to)),
        !ice_corner_walls(spec_ice_tile_for_turn(from, to), opposite(from)),
        !ice_corner_walls(spec_ice_tile_for_turn(from, to), to),
{
}

/// The editor and the tool after one step of drawing an ice path: the tile
/// entered becomes ice, and where the step follows another step the tile
/// left becomes the ice for that turn. The cursor becomes the last tile
/// drawn, entered in the direction of the step if it was one.
pub open spec fn icepath_think_post(
    t0: IcePathToolState,
    t1: IcePathToolState,
    s0: EditorEditState,
    s1: EditorEditState,
) -> bool {
    let c = s0.cursor_pos;
    if !s0.input.left_click || t0.last_pos is None || t0.last_pos == Some(c) {
        &&& t1 == t0
        &&& *&s1 == s0
    } else {
        let last = t0.last_pos->0;
        let w = s0.level.field.width as int;
        let h = s0.level.field.height as int;
        let dir = dir_between(last, c);
        let turned = match (t0.last_dir, dir) {
            (Some(ld), Some(cd)) => with_tile(s0.level.field.terrain@, w, h, last, spec_ice_tile_for_turn(ld, cd)),
            _ => s0.level.field.terrain@,
        };
        &&& same_but_terrain(s0, s1)
        &&& s1.input == s0.input
        &&& s1.forcepath_last_pos == s0.forcepath_last_pos
        &&& s1.tool_pos == s0.tool_pos
        &&& s1.level.field.terrain@ == with_tile(turned, w, h, c, Terrain::Ice)
        &&& t1.last_pos == Some(c)
        &&& t1.last_dir == dir
    }
}

/// The ice path tool and the editor after a left button press or release.
pub open spec fn icepath_left_click_post(
    t0: IcePathToolState,
    t1: IcePathToolState,
    s0: EditorEditState,
    s1: EditorEditState,
    pressed: bool,
) -> bool {
    &&& same_but_terrain(s0, s1)
    &&& s1.input == (Input { left_click: pressed, ..s0.input })
    &&& s1.forcepath_last_pos == s0.forcepath_last_pos
    &&& s1.tool_pos == s0.tool_pos
    &&& t1.last_dir is None
    &&& if pressed {
        &&& s1.level.field.terrain@ == with_tile(
            s0.level.field.terrain@,
            s0.level.field.width as int,
            s0.level.field.height as int,
            s0.cursor_pos,
            Terrain::Ice,
        )
        &&& t1.last_pos == Some(s0.cursor_pos)
    } else {
        &&& s1.level.field.terrain@ == s0.level.field.terrain@
        &&& t1.last_pos is None
    }
}

impl IcePathToolState {
    /// Pressing starts a path with ice at the cursor; releasing stops
    /// drawing.
    pub fn left_click(&mut self, s: &mut EditorEditState, pressed: bool)
        requires
            old(s).wf(),
        ensures
            final(s).wf(),
            icepath_left_click_post(*old(self), *final(self), *old(s), *final(s), pressed),
    {
        if pressed {
            // Start a new ice path
            s.level.field.set_terrain(s.cursor_pos, Terrain::Ice);
            self.last_pos = Some(s.cursor_pos);
            self.last_dir = None;
        } else {
            // Stop drawing
            self.last_pos = None;
            self.last_dir = None;
        }

        s.input.left_click = pressed;
    }

    /// Pressing samples a tool.
    pub fn right_click(&mut self, s: &mut EditorEditState, pressed: bool)
        requires
            old(s).wf(),
        ensures
            final(s).wf(),
            *final(self) == *old(self),
            if pressed { sample_post(*old(s), *final(s)) } else { *final(s) == *old(s) },
    {
        if pressed {
            s.sample();
        }
    }

    /// While the left button is held, extends the path to the cursor.
    pub fn think(&mut self, s: &mut EditorEditState)
        requires
            old(s).wf(),
        ensures
            final(s).wf(),
            icepath_think_post(*old(self), *final(self), *old(s), *final(s)),
    {
        if !s.input.left_click {
            return;
        }
        let last_pos = match self.last_pos {
            Some(p) => p,
            None => return,
        };
        let cursor_pos = s.cursor_pos;
        if cursor_pos == last_pos {
            return;
        }

        // Set the previous tile to the appropriate ice corner
        let cursor_dir = step_dir(last_pos, cursor_pos);
        if let (Some(last_dir), Some(cursor_dir)) = (self.last_dir, cursor_dir) {
            let terrain = ice_tile_for_turn(last_dir, cursor_dir);
            s.level.field.set_terrain(last_pos, terrain);
        }

        // Mark the current tile as ice terrain
        s.level.field.set_terrain(cursor_pos, Terrain::Ice);
        self.last_pos = Some(cursor_pos);
        self.last_dir = cursor_dir;
    }
}

} // verus!
