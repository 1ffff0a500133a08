use vstd::prelude::*;

verus! {

/// A tile position or offset on the playing field.
#[derive(Copy, Clone, Debug, Default, PartialEq, Eq, Hash, Structural)]
pub struct Vec2i {
    pub x: i32,
    pub y: i32,
}

impl Vec2i {
    pub fn new(x: i32, y: i32) -> (r: Vec2i)
        ensures
            r == (Vec2i { x, y }),
    {
        Vec2i { x, y }
    }
}

/// One of the four directions on the field; `Up` is towards smaller `y`.
#[derive(Copy, Clone, Debug, PartialEq, Eq, Hash, Structural)]
pub enum Compass {
    Up,
    Left,
    Down,
    Right,
}

/// The unit offset of a direction.
pub open spec fn compass_vec(dir: Compass) -> Vec2i {
    match dir {
        Compass::Up => Vec2i { x: 0, y: -1i32 },
        Compass::Left => Vec2i { x: -1i32, y: 0 },
        Compass::Down => Vec2i { x: 0, y: 1 },
        Compass::Right => Vec2i { x: 1, y: 0 },
    }
}

impl Compass {
    /// The unit offset of this direction.
    pub fn to_vec(self) -> (r: Vec2i)
        ensures
            r == compass_vec(self),
    {
        match self {
            Compass::Up => Vec2i { x: 0, y: -1 },
            Compass::Left => Vec2i { x: -1, y: 0 },
            Compass::Down => Vec2i { x: 0, y: 1 },
            Compass::Right => Vec2i { x: 1, y: 0 },
        }
    }

    /// The direction whose unit offset is `v`, if `v` is a unit offset.
    pub fn from_vec(v: Vec2i) -> (r: Option<Compass>)
        ensures
            match r {
                Some(dir) => compass_vec(dir) == v,
                None => forall|dir: Compass| compass_vec(dir) != v,
            },
    {
        if v.x == 0 && v.y == -1 {
            Some(Compass::Up)
        } else if v.x == -1 && v.y == 0 {
            Some(Compass::Left)
        } else if v.x == 0 && v.y == 1 {
            Some(Compass::Down)
        } else if v.x == 1 && v.y == 0 {
            Some(Compass::Right)
        } else {
            None
        }
    }
}

/// The terrain of a tile.
#[derive(Copy, Clone, Debug, PartialEq, Eq, Hash, Structural)]
pub enum Terrain {
    Blank,
    Floor,
    Wall,
    Socket,
    BlueLock,
    RedLock,
    GreenLock,
    YellowLock,
    Hint,
    Exit,
    FakeExit,
    Water,
    WaterHazard,
    Fire,
    Dirt,
    DirtBlock,
    Gravel,
    Ice,
    IceNW,
    IceNE,
    IceSW,
    IceSE,
    ForceN,
    ForceW,
    ForceS,
    ForceE,
    ForceRandom,
    CloneMachine,
    CloneBlockN,
    CloneBlockW,
    CloneBlockS,
    CloneBlockE,
    ToggleFloor,
    ToggleWall,
    ThinWallN,
    ThinWallW,
    ThinWallS,
    ThinWallE,
    ThinWallSE,
    HiddenWall,
    InvisibleWall,
    RealBlueWall,
    FakeBlueWall,
    GreenButton,
    RedButton,
    BrownButton,
    BlueButton,
    Teleport,
    BearTrap,
    RecessedWall,
}

/// The kind of an entity.
#[derive(Copy, Clone, Debug, PartialEq, Eq, Hash, Structural)]
pub enum EntityKind {
    Player,
    PlayerNPC,
    Chip,
    Socket,
    Block,
    IceBlock,
    Flippers,
    FireBoots,
    IceSkates,
    SuctionBoots,
    BlueKey,
    RedKey,
    GreenKey,
    YellowKey,
    Thief,
    Bomb,
    Bug,
    FireBall,
    PinkBall,
    Tank,
    Glider,
    Teeth,
    Walker,
    Blob,
    Paramecium,
}

/// What it takes to place an entity: its kind, tile and facing.
#[derive(Copy, Clone, Debug, PartialEq, Eq, Structural)]
pub struct EntityArgs {
    pub kind: EntityKind,
    pub pos: Vec2i,
    pub face_dir: Option<Compass>,
}

/// Identifies an entity of a level; `INVALID_ENTITY` names none.
pub type EntityHandle = u32;

/// The handle that names no entity.
pub const INVALID_ENTITY: EntityHandle = 0;

/// An entity placed on a level.
#[derive(Copy, Clone, Debug, PartialEq, Eq, Structural)]
pub struct Entity {
    pub handle: EntityHandle,
    pub kind: EntityKind,
    pub pos: Vec2i,
    pub face_dir: Option<Compass>,
}

impl Entity {
    /// What it takes to place this entity again.
    pub open spec fn to_args(self) -> EntityArgs {
        EntityArgs { kind: self.kind, pos: self.pos, face_dir: self.face_dir }
    }

    /// What it takes to place this entity again.
    pub fn to_entity_args(&self) -> (r: EntityArgs)
        ensures
            r == (EntityArgs { kind: self.kind, pos: self.pos, face_dir: self.face_dir }),
    {
        EntityArgs { kind: self.kind, pos: self.pos, face_dir: self.face_dir }
    }
}

} // verus!
