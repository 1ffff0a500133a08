use vstd::prelude::*;

verus! {

/// What a menu asks the game to do.
#[derive(Copy, Clone, Debug, PartialEq, Eq)]
pub enum MenuEvent {
    CursorMove,
    CursorSelect,
    CloseMenu,

    LoadLevelSet { index: usize },
    SwitchLevelSet,
    OpenMainMenu,

    // Main menu
    NewGame,
    Continue,
    OpenGoToLevel,
    OpenOptions,
    OpenAbout,
    ExitGame,

    // Level selection
    OpenUnlockLevel,
    PreviewLevel { level_number: i32 },
    PreviewExit,
    PlayLevel { level_number: i32 },

    // Unlocking a level
    EnterPassword { code: [u8; 4] },

    // Options
    SetBackgroundMusic { value: bool },
    SetSoundEffects { value: bool },
    SetDeveloperMode { value: bool },
    SetPerspective { value: bool },
    SetAssistMode { value: bool },
    SetStepMode { value: bool },
    SetAutoSaveReplay { value: bool },
    SetSpeedrunMode { value: bool },

    // Pausing, finishing and retrying a level
    OpenPauseMenu,
    RestartLevel,
    PlayNextLevel,
    RetryLevel,
    SaveReplay,
    ResumePlay,
    SaveState,
    LoadState,

    // Scouting the level
    OpenScoutMode,
    ScoutN,
    ScoutE,
    ScoutS,
    ScoutW,
}

} // verus!
