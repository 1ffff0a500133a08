use vstd::prelude::*;

verus! {

/// A sprite in the sprite sheet.
#[derive(Copy, Clone, Debug, PartialEq, Eq, Hash, Structural)]
pub enum SpriteId {
    BearTrap,
    Blank,
    Blob,
    BlobEA,
    BlobNA,
    BlobSA,
    BlobWA,
    BlueKey,
    BlueLock,
    BlueSwitch,
    BlueWall,
    BlueWallFake,
    Bomb,
    BombA,
    BrownSwitch,
    BugE,
    BugEA,
    BugN,
    BugNA,
    BugS,
    BugSA,
    BugW,
    BugWA,
    Chip,
    CloneBlockE,
    CloneBlockN,
    CloneBlockS,
    CloneBlockW,
    CloneMachine,
    Dirt,
    DirtBlock,
    Exit1,
    FireA,
    FireBoots,
    Fireball,
    FireballA,
    Flippers,
    Floor,
    ForceDown,
    ForceLeft,
    ForceRandom,
    ForceRight,
    ForceUp,
    GliderE,
    GliderEA,
    GliderN,
    GliderNA,
    GliderS,
    GliderSA,
    GliderW,
    GliderWA,
    Gravel,
    GreenKey,
    GreenLock,
    GreenSwitch,
    HiddenWall,
    Hint,
    Ice,
    IceBlock,
    IceCornerNE,
    IceCornerNW,
    IceCornerSE,
    IceCornerSW,
    IceSkates,
    InvisWall,
    OnOffFloor,
    OnOffWall,
    ParameciumE,
    ParameciumEA,
    ParameciumN,
    ParameciumNA,
    ParameciumS,
    ParameciumSA,
    ParameciumV,
    ParameciumW,
    ParameciumWA,
    PinkBall,
    PlayerBurned,
    PlayerCheer,
    PlayerPushE,
    PlayerPushN,
    PlayerPushS,
    PlayerPushW,
    PlayerSwimE,
    PlayerSwimIdle,
    PlayerSwimN,
    PlayerSwimS,
    PlayerSwimW,
    PlayerWalkE,
    PlayerWalkIdle,
    PlayerWalkN,
    PlayerWalkS,
    PlayerWalkW,
    RecessedWall,
    RedKey,
    RedLock,
    RedSwitch,
    Socket,
    SuctionBoots,
    TankE,
    TankN,
    TankS,
    TankW,
    TeethE,
    TeethEA,
    TeethN,
    TeethNA,
    TeethS,
    TeethSA,
    TeethW,
    TeethWA,
    Teleport,
    Thief,
    ThinWallE,
    ThinWallN,
    ThinWallS,
    ThinWallSE,
    ThinWallW,
    WalkerE,
    WalkerEA,
    WalkerN,
    WalkerNA,
    WalkerS,
    WalkerSA,
    WalkerV,
    WalkerW,
    WalkerWA,
    Wall,
    Water,
    WaterSplash,
    YellowKey,
    YellowLock,
}

} // verus!
