use vstd::prelude::*;
use crate::data::terrain::{Terrain, Vec2i};
use crate::fx::handlers::{GameOverReason, TerrainChange, spec_terrain_change};
use crate::play::savedata::OptionsDto;
use crate::play::state::FxEvent;

verus! {

/// What the start and select buttons ask of a running level.
#[derive(Copy, Clone, Debug, PartialEq, Eq, Structural)]
pub enum PauseAction {
    Nothing,
    Pause,
    Scout,
}

/// The start and select buttons of one frame: `start` pauses and `select`
/// scouts, each only on the frame it goes down while neither was held on the
/// frame before, and neither once the game is over. Returns the action and
/// whether either button is now held; after the game is over the held flag
/// stays as it was.
pub fn pause_or_scout(start: bool, select: bool, pause_pressed: bool, game_over: bool) -> (r: (PauseAction, bool))
    ensures
        r.0 == (if game_over || pause_pressed {
            PauseAction::Nothing
        } else if start {
            PauseAction::Pause
        } else if select {
            PauseAction::Scout
        } else {
            PauseAction::Nothing
        }),
        r.1 == (if game_over { pause_pressed } else { start || select }),
{
    if game_over {
        return (PauseAction::Nothing, pause_pressed);
    }
    let action = if start && !pause_pressed {
        PauseAction::Pause
    } else if select && !pause_pressed {
        PauseAction::Scout
    } else {
        PauseAction::Nothing
    };
    (action, start || select)
}

/// The event that ends a level once its closing animation is over: level
/// complete after a win, game over otherwise.
pub fn level_end_event(game_over: Option<GameOverReason>) -> (r: FxEvent)
    ensures
        r == (if game_over == Some(GameOverReason::LevelComplete) { FxEvent::LevelComplete } else { FxEvent::GameOver }),
{
    match game_over {
        Some(GameOverReason::LevelComplete) => FxEvent::LevelComplete,
        _ => FxEvent::GameOver,
    }
}

/// What the options set for a running level each frame: whether it runs
/// one step per press, and how close (in tiles) the player must come for
/// hidden things to show, which is two with the assist mode and zero
/// without.
pub fn level_settings(options: &OptionsDto) -> (r: (bool, i32))
    ensures
        r.0 == options.step_mode,
        r.1 == (if options.assist_mode { 2int } else { 0int }),
{
    (options.step_mode, if options.assist_mode { 2 } else { 0 })
}

/// The direction the scouting camera moves in: one step east or west, and
/// south or north, for each direction held; opposite ones cancel.
pub fn scout_dir(north: bool, south: bool, east: bool, west: bool) -> (r: Vec2i)
    ensures
        r.x == (if east { 1int } else { 0int }) - (if west { 1int } else { 0int }),
        r.y == (if south { 1int } else { 0int }) - (if north { 1int } else { 0int }),
{
    let n: i32 = if north { 1 } else { 0 };
    let s: i32 = if south { 1 } else { 0 };
    let e: i32 = if east { 1 } else { 0 };
    let w: i32 = if west { 1 } else { 0 };
    Vec2i { x: e - w, y: s - n }
}

/// An object that a level shows on top of its terrain from the start.
#[derive(Copy, Clone, Debug, PartialEq, Eq, Structural)]
pub enum Decoration {
    Fire,
    /// A toggle wall, raised or sunk.
    ToggleWall { raised: bool },
    /// The faint outline of a hidden or invisible wall.
    WallMirage,
    WaterHazard,
    FakeBlueWall,
}

/// The decoration a terrain starts with, if any.
pub open spec fn spec_decoration_for(t: Terrain) -> Option<Decoration> {
    match t {
        Terrain::Fire => Some(Decoration::Fire),
        Terrain::ToggleFloor => Some(Decoration::ToggleWall { raised: false }),
        Terrain::ToggleWall => Some(Decoration::ToggleWall { raised: true }),
        Terrain::HiddenWall => Some(Decoration::WallMirage),
        Terrain::InvisibleWall => Some(Decoration::WallMirage),
        Terrain::WaterHazard => Some(Decoration::WaterHazard),
        Terrain::FakeBlueWall => Some(Decoration::FakeBlueWall),
        _ => None,
    }
}

/// The decoration a terrain starts with, if any.
pub fn decoration_for(t: Terrain) -> (r: Option<Decoration>)
    ensures
        r == spec_decoration_for(t),
{
    match t {
        Terrain::Fire => Some(Decoration::Fire),
        Terrain::ToggleFloor => Some(Decoration::ToggleWall { raised: false }),
        Terrain::ToggleWall => Some(Decoration::ToggleWall { raised: true }),
        Terrain::HiddenWall => Some(Decoration::WallMirage),
        Terrain::InvisibleWall => Some(Decoration::WallMirage),
        Terrain::WaterHazard => Some(Decoration::WaterHazard),
        Terrain::FakeBlueWall => Some(Decoration::FakeBlueWall),
        _ => None,
    }
}

/// Whether a decoration belongs on a tile of terrain `t`: fire on fire,
/// a raised toggle wall on a toggle wall and a sunk one on a toggle floor,
/// a mirage on a hidden or invisible wall, a water hazard on a water
/// hazard, a fake wall on a fake blue wall.
pub open spec fn belongs_on(d: Decoration, t: Terrain) -> bool {
    match d {
        Decoration::Fire => t == Terrain::Fire,
        Decoration::ToggleWall { raised } => if raised { t == Terrain::ToggleWall } else { t == Terrain::ToggleFloor },
        Decoration::WallMirage => t == Terrain::HiddenWall || t == Terrain::InvisibleWall,
        Decoration::WaterHazard => t == Terrain::WaterHazard,
        Decoration::FakeBlueWall => t == Terrain::FakeBlueWall,
    }
}

/// Every tile gets the decoration that belongs on it, and a tile that no
/// decoration belongs on gets none.
pub proof fn law_decorations_belong(t: Terrain, d: Decoration)
    ensures
        spec_decoration_for(t) matches Some(e) ==> belongs_on(e, t),
        belongs_on(d, t) ==> spec_decoration_for(t) == Some(d),
{
}

/// The decoration a terrain change adds, if it adds one.
pub open spec fn created_by(c: TerrainChange) -> Option<Decoration> {
    match c {
        TerrainChange::CreateFire => Some(Decoration::Fire),
        TerrainChange::CreateToggleWall(raised) => Some(Decoration::ToggleWall { raised }),
        TerrainChange::CreateWallMirage => Some(Decoration::WallMirage),
        TerrainChange::CreateWaterHazard => Some(Decoration::WaterHazard),
        TerrainChange::CreateFakeBlueWall => Some(Decoration::FakeBlueWall),
        _ => None,
    }
}

/// Whether a terrain change takes a decoration away.
pub open spec fn removes_decoration(c: TerrainChange) -> bool {
    match c {
        TerrainChange::RemoveToggleWall | TerrainChange::RemoveFire | TerrainChange::RemoveWallMirage
        | TerrainChange::RemoveWaterHazard | TerrainChange::RemoveFakeBlueWall => true,
        _ => false,
    }
}

/// When a tile's terrain changes, a decoration is added only where it
/// belongs on the new terrain, and a tile that had no decoration gets the
/// one its new terrain needs; a decoration is taken away only from a tile
/// that had one; a toggle wall is raised or lowered only between a toggle
/// floor and a toggle wall.
pub proof fn law_terrain_change_decorations(old: Terrain, new: Terrain)
    ensures
        created_by(spec_terrain_change(old, new)) matches Some(d) ==> belongs_on(d, new),
        spec_decoration_for(old) is None && spec_decoration_for(new) is Some
            ==> created_by(spec_terrain_change(old, new)) == spec_decoration_for(new),
        removes_decoration(spec_terrain_change(old, new)) ==> spec_decoration_for(old) is Some,
        spec_terrain_change(old, new) == TerrainChange::ToggleWall ==> (old == Terrain::ToggleFloor && new
            == Terrain::ToggleWall) || (old == Terrain::ToggleWall && new == Terrain::ToggleFloor),
{
}

/// The decorations of the first `n` tiles of a field `width` tiles wide,
/// row by row, each with its tile.
pub open spec fn decorations_upto(terrain: Seq<Terrain>, width: int, n: int) -> Seq<(Vec2i, Decoration)>
    decreases n,
{
    if n <= 0 {
        Seq::empty()
    } else {
        let prev = decorations_upto(terrain, width, n - 1);
        let i = n - 1;
        match spec_decoration_for(terrain[i]) {
            Some(d) => prev.push((Vec2i { x: (i % width) as i32, y: (i / width) as i32 }, d)),
            None => prev,
        }
    }
}

/// The decorations of a `width` by `height` field, row by row, each with
/// its tile.
pub fn field_decorations(width: i32, height: i32, terrain: &Vec<Terrain>) -> (r: Vec<(Vec2i, Decoration)>)
    requires
        width >= 0,
        height >= 0,
        terrain@.len() == width * height,
    ensures
        r@ == decorations_upto(terrain@, width as int, width * height),
{
    let mut out: Vec<(Vec2i, Decoration)> = Vec::new();
    let mut y: i32 = 0;
    while y < height
        invariant
            width >= 0,
            0 <= y <= height,
            terrain@.len() == width * height,
            out@ == decorations_upto(terrain@, width as int, y * width),
        decreases height - y,
    {
        let mut x: i32 = 0;
        while x < width
            invariant
                width >= 0,
                0 <= y < height,
                0 <= x <= width,
                terrain@.len() == width * height,
                out@ == decorations_upto(terrain@, width as int, y * width + x),
            decreases width - x,
        {
            let ghost i = y * width + x;
            assert(0 <= i < width * height) by (nonlinear_arith)
                requires
                    0 <= x < width,
                    0 <= y < height,
                    i == y * width + x,
            ;
            assert(i % (width as int) == x && i / (width as int) == y) by (nonlinear_arith)
                requires
                    0 <= x < width,
                    0 <= y,
                    i == y * width + x,
            ;
            let yu = y as usize;
            let wu = width as usize;
            let xu = x as usize;
            assert(yu as int * wu as int == y * width);
            let len = terrain.len();
            assert(yu * wu + xu < len);
            let index = yu * wu + xu;
            if let Some(d) = decoration_for(terrain[index]) {
                out.push((Vec2i { x, y }, d));
            }
            x = x + 1;
        }
        assert(y * width + width == (y + 1) * width) by (nonlinear_arith);
        y = y + 1;
    }
    assert(height * width == width * height) by (nonlinear_arith);
    out
}

/// What the level view keeps of pausing: whether the game clock is
/// paused, whether the HUD shows, how often play was resumed, and whether
/// the camera is free for scouting.
#[derive(Copy, Clone, Debug, PartialEq, Eq, Structural)]
pub struct ViewState {
    pub paused: bool,
    pub hud_enabled: bool,
    pub unpauses: i32,
    pub scout_active: bool,
}

impl ViewState {
    /// Pauses the game: the clock stops, the HUD hides, scouting ends, and
    /// the pause is reported.
    pub fn pause(&mut self, events: &mut Vec<FxEvent>)
        ensures
            *final(self) == (ViewState { paused: true, hud_enabled: false, scout_active: false, ..*old(self) }),
            final(events)@ == old(events)@.push(FxEvent::PauseGame),
    {
        self.paused = true;
        events.push(FxEvent::PauseGame);
        self.hud_enabled = false;
        self.scout_active = false;
    }

    /// Starts scouting: the clock stops, the HUD shows, the camera is free,
    /// and scouting is reported.
    pub fn scout(&mut self, events: &mut Vec<FxEvent>)
        ensures
            *final(self) == (ViewState { paused: true, hud_enabled: true, scout_active: true, ..*old(self) }),
            final(events)@ == old(events)@.push(FxEvent::ScoutMode),
    {
        self.paused = true;
        events.push(FxEvent::ScoutMode);
        self.hud_enabled = true;
        self.scout_active = true;
    }

    /// Resumes a paused game: the clock runs, the HUD shows, scouting ends,
    /// the resume is counted and reported. Returns whether it resumed, in
    /// which case the camera goes back to the player at once. A game that
    /// is not paused is left as it is.
    pub fn resume(&mut self, events: &mut Vec<FxEvent>) -> (resumed: bool)
        requires
            old(self).paused ==> old(self).unpauses < i32::MAX,
        ensures
            resumed == old(self).paused,
            resumed ==> {
                &&& !final(self).paused
                &&& final(self).hud_enabled
                &&& final(self).unpauses == old(self).unpauses + 1
                &&& !final(self).scout_active
            },
            resumed ==> final(events)@ == old(events)@.push(FxEvent::ResumePlay),
            !resumed ==> *final(self) == *old(self) && final(events)@ == old(events)@,
    {
        if self.paused {
            self.paused = false;
            events.push(FxEvent::ResumePlay);
            self.hud_enabled = true;
            self.unpauses = self.unpauses + 1;
            self.scout_active = false;
            true
        } else {
            false
        }
    }
}

} // verus!
