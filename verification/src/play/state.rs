//! The game's flow between menus and levels: what each menu choice and each
//! event of a running level leads to.
//!
//! The running level itself, the menu stack and the files are kept by the
//! caller; this state decides, and hands back what the caller is to do, in
//! order.

use vstd::prelude::*;
use crate::data::terrain::Compass;
use crate::fx::handlers::GameOverReason;
use crate::menu::event::MenuEvent;
use crate::play::lvsets::{LevelSet, LevelSets};
use crate::play::savedata::{
    OptionsDto, SaveData, SaveFileDto, Scores, level_slot, loaded_from, record_score, set_flag, unlock_current,
};
use vstd::utf8::encode_utf8;

verus! {

/// Background music.
#[derive(Copy, Clone, Debug, PartialEq, Eq, Structural)]
pub enum MusicId {
    MenuMusic,
    GameMusic,
}

/// A sound effect: the menu sounds, and the sounds of a running level by
/// their number.
#[derive(Copy, Clone, Debug, PartialEq, Eq, Structural)]
pub enum SoundFx {
    CursorMove,
    CursorSelect,
    GameWin,
    Game(u32),
}

/// What the game asks of its host.
#[derive(Copy, Clone, Debug, PartialEq, Eq, Structural)]
pub enum PlayEvent {
    PlaySound { sound: SoundFx },
    PlayMusic { music: Option<MusicId> },
    SetTitle,
    Restart,
    Quit,
}

/// What the flow knows of the running level (or the level shown behind the
/// level list).
#[derive(Copy, Clone, Debug, PartialEq, Eq, Structural)]
pub struct FxInfo {
    pub level_number: i32,
    pub is_preview: bool,
    pub attempts: i32,
    pub time: i32,
    pub steps: i32,
    pub bonks: i32,
    pub game_over: Option<GameOverReason>,
}

/// What a running level reports.
#[derive(Copy, Clone, Debug, PartialEq, Eq, Structural)]
pub enum FxEvent {
    PlaySound(SoundFx),
    ScoutMode,
    PauseGame,
    ResumePlay,
    LevelComplete,
    GameOver,
}

/// What the caller is to do, in order.
#[derive(Copy, Clone, Debug, PartialEq, Eq, Structural)]
pub enum PlayAction {
    /// Replace the menus by the main menu of the current level set.
    OpenMainMenu { is_continue: bool },
    CloseAllMenus,
    /// Close the top menu (`has_fx`: a level is running).
    CloseMenu { has_fx: bool },
    OpenGoToLevel,
    OpenUnlockLevel,
    /// Show the current level set's about text.
    OpenAbout,
    OpenOptions { options: OptionsDto },
    OpenPauseMenu { has_warp: bool, level_number: i32 },
    OpenScoutMode,
    OpenGameWin {
        level_number: i32,
        attempts: i32,
        time: i32,
        steps: i32,
        bonks: i32,
        time_high_score: i32,
        steps_high_score: i32,
    },
    OpenGameOver {
        reason: Option<GameOverReason>,
        has_warp: bool,
        level_number: i32,
        attempts: i32,
        time: i32,
        steps: i32,
        bonks: i32,
    },
    /// Write the save data of the current level set.
    WriteSaveFile,
    /// Read the save data of the current level set and hand it to
    /// `PlayState::load_level_set`.
    ReadSaveFile,
    /// Start the level; with `segmented_replay`, replay the inputs of the
    /// run that is left.
    StartLevel { level_number: i32, attempts: i32, segmented_replay: bool },
    /// Show the level behind the menus, not running.
    PreviewLevel { level_number: i32 },
    DropFx,
    ResumeFx,
    PauseFx,
    ScoutFx,
    SetPerspective { value: bool },
    SetStepMode { value: bool },
    SaveReplay,
    /// Keep a copy of the running level to warp back to.
    SetWarp,
    /// Go back to the copy, counting the attempt; `wait` holds the clock
    /// until the player moves.
    UseWarp { attempts: i32, wait: bool },
    /// Move the camera over the level while scouting.
    Scout { dir: Compass },
    /// Drop the rest of this frame's events.
    EndSync,
}

/// The flow's state: the level sets, the save data of the current one, the
/// events for the host, and what runs.
pub struct PlayState {
    pub lvsets: LevelSets,
    pub save_data: SaveData,
    pub events: Vec<PlayEvent>,
    pub fx: Option<FxInfo>,
    pub warp: Option<FxInfo>,
}

/// The music for the current situation: none with music off, the menu
/// music over menus and previews, the game music while a level runs.
pub open spec fn music_for(background_music: bool, fx: Option<FxInfo>) -> Option<MusicId> {
    if !background_music {
        None
    } else {
        match fx {
            Some(f) => if f.is_preview { Some(MusicId::MenuMusic) } else { Some(MusicId::GameMusic) },
            None => Some(MusicId::MenuMusic),
        }
    }
}

/// The levels of the current level set.
pub open spec fn current_levels(ls: LevelSets) -> Seq<crate::play::lvsets::LevelEntry> {
    ls.collection@[ls.selected as int].levels@
}

/// Level `n` is in the current level set.
pub open spec fn level_exists(ls: LevelSets, n: int) -> bool {
    1 <= n <= current_levels(ls).len()
}

/// The attempt counter of the current level can be counted up once more.
pub open spec fn attempts_room(sd: SaveData) -> bool {
    match level_slot(sd.current_level as int, sd.high_scores.attempts@.len()) {
        Some(i) => sd.high_scores.attempts@[i] < i32::MAX,
        None => true,
    }
}

/// The attempt counter of level `n` can be counted up once more.
pub open spec fn attempts_room_for(sd: SaveData, n: int) -> bool {
    match level_slot(n, sd.high_scores.attempts@.len()) {
        Some(i) => sd.high_scores.attempts@[i] < i32::MAX,
        None => true,
    }
}

/// The attempt number of the current level after counting one more
/// attempt (0 for a level without a counter).
pub open spec fn next_attempt(sd: SaveData) -> i32 {
    match level_slot(sd.current_level as int, sd.high_scores.attempts@.len()) {
        Some(i) => (sd.high_scores.attempts@[i] + 1) as i32,
        None => 0,
    }
}

/// The save data after counting an attempt at the current level: only the
/// counter changes.
pub open spec fn counted(sd0: SaveData, sd1: SaveData) -> bool {
    &&& sd1.current_level == sd0.current_level
    &&& sd1.unlocked_levels@ == sd0.unlocked_levels@
    &&& sd1.completed_levels@ == sd0.completed_levels@
    &&& sd1.high_scores.ticks@ == sd0.high_scores.ticks@
    &&& sd1.high_scores.steps@ == sd0.high_scores.steps@
    &&& sd1.high_scores.attempts@ == match level_slot(sd0.current_level as int, sd0.high_scores.attempts@.len()) {
        Some(i) => sd0.high_scores.attempts@.update(i, next_attempt(sd0)),
        None => sd0.high_scores.attempts@,
    }
    &&& sd1.show_hidden_levels == sd0.show_hidden_levels
    &&& sd1.segmented_speedrun == sd0.segmented_speedrun
    &&& sd1.options == sd0.options
}

/// The state after starting level `n`: the attempt is counted and the save
/// written, the level runs (with the inputs of the run left behind replayed
/// when a segmented speedrun goes on with the same level), the warp point is
/// gone, the menus are closed, the title is set and the game music plays.
pub open spec fn play_level_post(s0: PlayState, s1: PlayState, n: int, actions: Seq<PlayAction>) -> bool {
    if !level_exists(s0.lvsets, n) {
        &&& s1 == s0
        &&& actions == Seq::<PlayAction>::empty()
    } else {
        let sd_at = SaveData { current_level: n as i32, ..s0.save_data };
        let attempts = next_attempt(sd_at);
        let fx = FxInfo {
            level_number: n as i32,
            is_preview: false,
            attempts,
            time: 0,
            steps: 0,
            bonks: 0,
            game_over: None,
        };
        &&& s1.lvsets == s0.lvsets
        &&& counted(sd_at, s1.save_data)
        &&& s1.fx == Some(fx)
        &&& s1.warp is None
        &&& s1.events@ == s0.events@.push(PlayEvent::SetTitle).push(
            PlayEvent::PlayMusic { music: music_for(s0.save_data.options.background_music, Some(fx)) },
        )
        &&& actions == seq![
            PlayAction::WriteSaveFile,
            PlayAction::StartLevel {
                level_number: n as i32,
                attempts,
                segmented_replay: s0.save_data.segmented_speedrun && (s0.fx matches Some(f) && f.level_number
                    == n),
            },
            PlayAction::CloseAllMenus,
        ]
    }
}

/// The state after showing level `n` behind the menus: a preview of it if
/// it exists, else nothing; the warp point is gone either way.
pub open spec fn preview_level_post(s0: PlayState, s1: PlayState, n: int, actions: Seq<PlayAction>) -> bool {
    &&& s1.lvsets == s0.lvsets
    &&& s1.save_data == s0.save_data
    &&& s1.events@ == s0.events@
    &&& s1.warp is None
    &&& if level_exists(s0.lvsets, n) {
        &&& s1.fx == Some(
            FxInfo {
                level_number: n as i32,
                is_preview: true,
                attempts: 0,
                time: 0,
                steps: 0,
                bonks: 0,
                game_over: None,
            },
        )
        &&& actions == seq![PlayAction::PreviewLevel { level_number: n as i32 }]
    } else {
        &&& s1.fx is None
        &&& actions == seq![PlayAction::DropFx]
    }
}

impl PlayState {
    /// The selected level set exists.
    pub open spec fn has_current(&self) -> bool {
        self.lvsets.has_current()
    }

    /// Level `n` is in the current level set.
    fn level_exists(&self, n: i32) -> (r: bool)
        requires
            self.has_current(),
        ensures
            r == level_exists(self.lvsets, n as int),
    {
        let levels = &self.lvsets.current().levels;
        1 <= n && ((n - 1) as usize) < levels.len()
    }

    /// Asks for the music that fits the situation.
    fn play_music(&mut self)
        ensures
            final(self).lvsets == old(self).lvsets,
            final(self).save_data == old(self).save_data,
            final(self).fx == old(self).fx,
            final(self).warp == old(self).warp,
            final(self).events@ == old(self).events@.push(
                PlayEvent::PlayMusic { music: music_for(old(self).save_data.options.background_music, old(self).fx) },
            ),
    {
        let music = if !self.save_data.options.background_music {
            None
        } else if let Some(fx) = &self.fx {
            if fx.is_preview {
                Some(MusicId::MenuMusic)
            } else {
                Some(MusicId::GameMusic)
            }
        } else {
            Some(MusicId::MenuMusic)
        };
        self.events.push(PlayEvent::PlayMusic { music });
    }

    /// Starts level `n` of the current level set; a level that does not
    /// exist changes nothing.
    pub fn play_level(&mut self, n: i32) -> (actions: Vec<PlayAction>)
        requires
            n > i32::MIN,
            old(self).has_current(),
            attempts_room_for(old(self).save_data, n as int),
        ensures
            play_level_post(*old(self), *final(self), n as int, actions@),
    {
        // If loading a level fails just... do nothing
        if !self.level_exists(n) {
            return Vec::new();
        }
        let mut actions: Vec<PlayAction> = Vec::new();

        // Update save data
        let ghost s0 = *self;
        self.save_data.current_level = n;
        assert(self.save_data == SaveData { current_level: n as i32, ..s0.save_data });
        let attempts = self.save_data.increase_level_attempts();
        assert(counted(SaveData { current_level: n as i32, ..s0.save_data }, self.save_data));
        actions.push(PlayAction::WriteSaveFile);

        // Load the segmented replay if available
        let segmented_replay = match &self.fx {
            Some(fx) => self.save_data.segmented_speedrun && fx.level_number == n,
            None => false,
        };

        // Create the level
        actions.push(PlayAction::StartLevel { level_number: n, attempts, segmented_replay });
        self.fx = Some(
            FxInfo { level_number: n, is_preview: false, attempts, time: 0, steps: 0, bonks: 0, game_over: None },
        );
        self.warp = None;

        actions.push(PlayAction::CloseAllMenus);
        self.events.push(PlayEvent::SetTitle);
        self.play_music();
        assert(actions@ =~= seq![
            PlayAction::WriteSaveFile,
            PlayAction::StartLevel { level_number: n, attempts, segmented_replay },
            PlayAction::CloseAllMenus,
        ]);
        assert(attempts == next_attempt(SaveData { current_level: n as i32, ..s0.save_data }));
        assert(segmented_replay == (s0.save_data.segmented_speedrun && (s0.fx matches Some(f) && f.level_number == n)));
        assert(actions@ == seq![
            PlayAction::WriteSaveFile,
            PlayAction::StartLevel {
                level_number: n as i32,
                attempts: next_attempt(SaveData { current_level: n as i32, ..s0.save_data }),
                segmented_replay: s0.save_data.segmented_speedrun && (s0.fx matches Some(f) && f.level_number
                    == n),
            },
            PlayAction::CloseAllMenus,
        ]);
        actions
    }

    /// Shows level `n` behind the menus.
    fn preview_level(&mut self, n: i32) -> (actions: Vec<PlayAction>)
        requires
            old(self).has_current(),
        ensures
            preview_level_post(*old(self), *final(self), n as int, actions@),
    {
        let mut actions: Vec<PlayAction> = Vec::new();
        if self.level_exists(n) {
            self.fx = Some(
                FxInfo { level_number: n, is_preview: true, attempts: 0, time: 0, steps: 0, bonks: 0, game_over: None },
            );
            actions.push(PlayAction::PreviewLevel { level_number: n });
        } else {
            self.fx = None;
            actions.push(PlayAction::DropFx);
        }
        self.warp = None;
        assert(actions@.len() == 1);
        actions
    }

    /// Switches the background music on or off, keeps the choice and plays
    /// the music that fits; without a level set chosen nothing changes.
    pub fn toggle_music(&mut self) -> (actions: Vec<PlayAction>)
        ensures
            if old(self).lvsets.selected < 0 {
                &&& *final(self) == *old(self)
                &&& actions@ == Seq::<PlayAction>::empty()
            } else {
                let on = !old(self).save_data.options.background_music;
                &&& final(self).lvsets == old(self).lvsets
                &&& final(self).save_data == (SaveData {
                    options: OptionsDto { background_music: on, ..old(self).save_data.options },
                    ..old(self).save_data
                })
                &&& final(self).fx == old(self).fx
                &&& final(self).warp == old(self).warp
                &&& final(self).events@ == old(self).events@.push(
                    PlayEvent::PlayMusic { music: music_for(on, old(self).fx) },
                )
                &&& actions@ == seq![PlayAction::WriteSaveFile]
            },
    {
        let mut actions: Vec<PlayAction> = Vec::new();
        // Music can't be toggled while choosing a level set
        if self.lvsets.selected < 0 {
            return actions;
        }
        self.save_data.options.background_music = !self.save_data.options.background_music;
        actions.push(PlayAction::WriteSaveFile);
        self.play_music();
        assert(actions@ =~= seq![PlayAction::WriteSaveFile]);
        actions
    }
}

/// The password the level's password spells, as bytes, is `code`.
pub open spec fn password_is(l: crate::play::lvsets::LevelEntry, code: [u8; 4]) -> bool {
    l.password matches Some(p) && encode_utf8(p@) == code@
}

/// The secret code that shows or hides the hidden levels.
pub open spec fn is_secret_code(code: [u8; 4]) -> bool {
    code@ == seq![67u8, 72u8, 73u8, 80u8]
}

/// The unlocked flags and the current level after entering `code`: each
/// level whose password it is gets unlocked, in order, as
/// `SaveData::unlock_level` does.
pub open spec fn password_unlocks(
    flags: Seq<bool>,
    current: int,
    levels: Seq<crate::play::lvsets::LevelEntry>,
    code: [u8; 4],
) -> (Seq<bool>, int)
    decreases levels.len(),
{
    if levels.len() == 0 {
        (flags, current)
    } else {
        let before = password_unlocks(flags, current, levels.drop_last(), code);
        if password_is(levels.last(), code) {
            (set_flag(before.0, levels.len() as int), unlock_current(before.1, levels.len() as int, before.0.len()))
        } else {
            before
        }
    }
}

/// Unlocking keeps the number of flags.
proof fn lemma_password_unlocks_len(
    flags: Seq<bool>,
    current: int,
    levels: Seq<crate::play::lvsets::LevelEntry>,
    code: [u8; 4],
)
    ensures
        password_unlocks(flags, current, levels, code).0.len() == flags.len(),
    decreases levels.len(),
{
    if levels.len() > 0 {
        lemma_password_unlocks_len(flags, current, levels.drop_last(), code);
    }
}

/// The password's bytes are `code`.
fn code_matches(p: &String, code: &[u8; 4]) -> (r: bool)
    ensures
        r == (encode_utf8(p@) == code@),
{
    let b = p.as_str().as_bytes();
    let r = b.len() == 4 && b[0] == code[0] && b[1] == code[1] && b[2] == code[2] && b[3] == code[3];
    proof {
        if r {
            assert(b@ =~= code@);
        }
    }
    r
}

/// Some level's password is `code`.
pub open spec fn some_password_is(levels: Seq<crate::play::lvsets::LevelEntry>, code: [u8; 4]) -> bool {
    exists|i: int| 0 <= i < levels.len() && password_is(levels[i], code)
}

/// The state after entering a level password.
pub open spec fn enter_password_post(s0: PlayState, s1: PlayState, code: [u8; 4], actions: Seq<PlayAction>) -> bool {
    &&& s1.lvsets == s0.lvsets
    &&& s1.fx == s0.fx
    &&& s1.warp == s0.warp
    &&& s1.events@ == s0.events@
    &&& if is_secret_code(code) {
        &&& s1.save_data == (SaveData {
            show_hidden_levels: !s0.save_data.show_hidden_levels,
            ..s0.save_data
        })
        &&& actions == seq![PlayAction::OpenMainMenu { is_continue: true }, PlayAction::EndSync]
    } else {
        let levels = current_levels(s0.lvsets);
        let r = password_unlocks(
            s0.save_data.unlocked_levels@,
            s0.save_data.current_level as int,
            levels,
            code,
        );
        &&& s1.save_data.unlocked_levels@ == r.0
        &&& s1.save_data.current_level == r.1
        &&& s1.save_data.completed_levels@ == s0.save_data.completed_levels@
        &&& s1.save_data.high_scores.ticks@ == s0.save_data.high_scores.ticks@
        &&& s1.save_data.high_scores.steps@ == s0.save_data.high_scores.steps@
        &&& s1.save_data.high_scores.attempts@ == s0.save_data.high_scores.attempts@
        &&& s1.save_data.show_hidden_levels == s0.save_data.show_hidden_levels
        &&& s1.save_data.segmented_speedrun == s0.save_data.segmented_speedrun
        &&& s1.save_data.options == s0.save_data.options
        &&& actions == if some_password_is(levels, code) {
            seq![PlayAction::OpenMainMenu { is_continue: true }]
        } else {
            Seq::<PlayAction>::empty()
        }
    }
}

impl PlayState {
    /// Enters a level password. The secret code shows or hides the hidden
    /// levels and ends the frame's events; otherwise every level with this
    /// password is unlocked, and if there was one the main menu opens.
    fn enter_password(&mut self, code: [u8; 4]) -> (actions: Vec<PlayAction>)
        requires
            old(self).has_current(),
            current_levels(old(self).lvsets).len() < i32::MAX,
        ensures
            enter_password_post(*old(self), *final(self), code, actions@),
    {
        let mut actions: Vec<PlayAction> = Vec::new();
        // Secret code to soft-unlock all levels
        if code[0] == 67 && code[1] == 72 && code[2] == 73 && code[3] == 80 {
            assert(code@ =~= seq![67u8, 72u8, 73u8, 80u8]);
            self.save_data.show_hidden_levels = !self.save_data.show_hidden_levels;
            actions.push(PlayAction::OpenMainMenu { is_continue: true });
            actions.push(PlayAction::EndSync);
            assert(actions@ =~= seq![PlayAction::OpenMainMenu { is_continue: true }, PlayAction::EndSync]);
            return actions;
        }
        let ghost sd0 = self.save_data;
        let levels = &self.lvsets.current().levels;
        let ghost lv = levels@;
        let mut success = false;
        let mut index: usize = 0;
        while index < levels.len()
            invariant
                index <= lv.len(),
                lv == levels@,
                lv.len() < i32::MAX,
                (self.save_data.unlocked_levels@, self.save_data.current_level as int) == password_unlocks(
                    sd0.unlocked_levels@,
                    sd0.current_level as int,
                    lv.take(index as int),
                    code,
                ),
                success == exists|j: int| 0 <= j < index && password_is(lv[j], code),
                self.save_data.completed_levels@ == sd0.completed_levels@,
                self.save_data.high_scores.ticks@ == sd0.high_scores.ticks@,
                self.save_data.high_scores.steps@ == sd0.high_scores.steps@,
                self.save_data.high_scores.attempts@ == sd0.high_scores.attempts@,
                self.save_data.show_hidden_levels == sd0.show_hidden_levels,
                self.save_data.segmented_speedrun == sd0.segmented_speedrun,
                self.save_data.options == sd0.options,
                self.lvsets == old(self).lvsets,
                self.fx == old(self).fx,
                self.warp == old(self).warp,
                self.events@ == old(self).events@,
            decreases lv.len() - index,
        {
            assert(lv.take(index + 1).drop_last() =~= lv.take(index as int));
            assert(lv.take(index + 1).last() == lv[index as int]);
            proof {
                lemma_password_unlocks_len(sd0.unlocked_levels@, sd0.current_level as int, lv.take(index as int), code);
            }
            if let Some(level_password) = &levels[index].password {
                if code_matches(level_password, &code) {
                    let level_number = index as i32 + 1;
                    self.save_data.unlock_level(level_number);
                    success = true;
                }
            }
            index += 1;
        }
        assert(lv.take(lv.len() as int) =~= lv);
        if success {
            actions.push(PlayAction::OpenMainMenu { is_continue: true });
        }
        assert(actions@ =~= if some_password_is(lv, code) {
            seq![PlayAction::OpenMainMenu { is_continue: true }]
        } else {
            Seq::<PlayAction>::empty()
        });
        actions
    }
}

/// Level `n` can be shown: it was completed or unlocked, or hidden levels
/// are shown.
pub open spec fn has_progress(sd: SaveData, n: int) -> bool {
    ||| (level_slot(n, sd.completed_levels@.len()) matches Some(i) && sd.completed_levels@[i])
    ||| (level_slot(n, sd.unlocked_levels@.len()) matches Some(i) && sd.unlocked_levels@[i])
    ||| sd.show_hidden_levels
}

/// The level a menu choice plays: the next one, the same one again, or the
/// current level of the save data (at least the first).
pub open spec fn next_level_number(fx: Option<FxInfo>) -> int {
    match fx {
        Some(f) => f.level_number + 1,
        None => 1,
    }
}

/// The level a retry plays.
pub open spec fn retry_level_number(fx: Option<FxInfo>) -> int {
    match fx {
        Some(f) => f.level_number as int,
        None => 1,
    }
}

/// The level continuing plays.
pub open spec fn continue_level_number(sd: SaveData) -> int {
    if sd.current_level < 1 { 1 } else { sd.current_level as int }
}

/// Only the options of the save data changed, to `o`.
pub open spec fn options_set(s0: PlayState, s1: PlayState, o: OptionsDto) -> bool {
    &&& s1.lvsets == s0.lvsets
    &&& s1.save_data == (SaveData { options: o, ..s0.save_data })
    &&& s1.fx == s0.fx
    &&& s1.warp == s0.warp
}

/// Setting an option: a change is kept and written (with `extra` actions
/// after it); setting an option to its value changes nothing.
pub open spec fn option_post(
    s0: PlayState,
    s1: PlayState,
    actions: Seq<PlayAction>,
    o: OptionsDto,
    extra: Seq<PlayAction>,
) -> bool {
    if o == s0.save_data.options {
        &&& s1 == s0
        &&& actions == Seq::<PlayAction>::empty()
    } else {
        &&& options_set(s0, s1, o)
        &&& s1.events@ == s0.events@
        &&& actions == seq![PlayAction::WriteSaveFile] + extra
    }
}

/// The actions that need a running level, if one runs.
pub open spec fn with_fx(fx: Option<FxInfo>, a: Seq<PlayAction>) -> Seq<PlayAction> {
    if fx is Some {
        a
    } else {
        Seq::empty()
    }
}

/// What a menu event needs of the state for its handling not to fail.
pub open spec fn menu_event_ok(s: PlayState, evt: MenuEvent) -> bool {
    let sd = s.save_data;
    match evt {
        MenuEvent::LoadLevelSet { index } => index < s.lvsets.collection@.len() && index < i32::MAX,
        MenuEvent::NewGame => s.has_current() && attempts_room_for(sd, 1),
        MenuEvent::PlayLevel { level_number } => s.has_current() && level_number > i32::MIN
            && attempts_room_for(sd, level_number as int),
        MenuEvent::PlayNextLevel => s.has_current() && (s.fx matches Some(f) ==> f.level_number < i32::MAX)
            && attempts_room_for(sd, next_level_number(s.fx)),
        MenuEvent::RetryLevel | MenuEvent::RestartLevel => s.has_current() && retry_level_number(s.fx) > i32::MIN
            && attempts_room_for(sd, retry_level_number(s.fx)),
        MenuEvent::Continue => s.has_current() && attempts_room_for(sd, continue_level_number(sd)),
        MenuEvent::OpenGoToLevel => s.has_current() && sd.current_level > i32::MIN,
        MenuEvent::PreviewLevel { .. } => s.has_current(),
        MenuEvent::EnterPassword { .. } => s.has_current() && current_levels(s.lvsets).len() < i32::MAX,
        MenuEvent::OpenAbout => s.has_current(),
        MenuEvent::LoadState => s.warp is Some ==> sd.current_level > i32::MIN && attempts_room(sd),
        _ => true,
    }
}

/// The state after a menu event, and what the caller is to do.
pub open spec fn menu_event_post(s0: PlayState, s1: PlayState, evt: MenuEvent, actions: Seq<PlayAction>) -> bool {
    let sd = s0.save_data;
    let o = sd.options;
    match evt {
        MenuEvent::LoadLevelSet { index } => {
            &&& s1.lvsets == LevelSets { selected: index as i32, ..s0.lvsets }
            &&& s1.save_data == sd
            &&& s1.fx == s0.fx
            &&& s1.warp == s0.warp
            &&& s1.events@ == s0.events@.push(PlayEvent::SetTitle)
            &&& actions == seq![PlayAction::ReadSaveFile]
        },
        MenuEvent::NewGame => play_level_post(s0, s1, 1, actions),
        MenuEvent::OpenMainMenu => {
            &&& s1.lvsets == s0.lvsets
            &&& s1.save_data == sd
            &&& s1.fx is None
            &&& s1.warp == s0.warp
            &&& s1.events@ == s0.events@.push(PlayEvent::SetTitle).push(
                PlayEvent::PlayMusic { music: music_for(o.background_music, None) },
            )
            &&& actions == seq![PlayAction::DropFx, PlayAction::OpenMainMenu { is_continue: sd.current_level > 0 }]
        },
        MenuEvent::SwitchLevelSet => {
            &&& s1.lvsets == LevelSets { selected: -1i32, ..s0.lvsets }
            &&& s1.save_data == sd
            &&& s1.fx is None
            &&& s1.warp == s0.warp
            &&& s1.events@ == s0.events@.push(PlayEvent::Restart).push(PlayEvent::SetTitle)
            &&& actions == seq![PlayAction::DropFx, PlayAction::CloseAllMenus]
        },
        MenuEvent::PreviewLevel { level_number } => {
            &&& preview_level_post(s0, s1, level_number as int, actions)
        },
        MenuEvent::OpenGoToLevel => if has_progress(sd, sd.current_level as int) {
            exists|a: Seq<PlayAction>| {
                &&& preview_level_post(s0, s1, sd.current_level as int, a)
                &&& actions == a.push(PlayAction::OpenGoToLevel)
            }
        } else {
            &&& s1 == s0
            &&& actions == seq![PlayAction::OpenGoToLevel]
        },
        MenuEvent::OpenUnlockLevel => {
            &&& s1 == s0
            &&& actions == seq![PlayAction::OpenUnlockLevel]
        },
        MenuEvent::EnterPassword { code } => enter_password_post(s0, s1, code, actions),
        MenuEvent::PlayLevel { level_number } => play_level_post(s0, s1, level_number as int, actions),
        MenuEvent::PlayNextLevel => play_level_post(s0, s1, next_level_number(s0.fx), actions),
        MenuEvent::RetryLevel | MenuEvent::RestartLevel => play_level_post(
            s0,
            s1,
            retry_level_number(s0.fx),
            actions,
        ),
        MenuEvent::Continue => play_level_post(s0, s1, continue_level_number(sd), actions),
        MenuEvent::ResumePlay => {
            &&& s1 == s0
            &&& actions == with_fx(s0.fx, seq![PlayAction::CloseAllMenus, PlayAction::ResumeFx])
        },
        MenuEvent::SaveReplay => {
            &&& s1 == s0
            &&& actions == with_fx(s0.fx, seq![PlayAction::SaveReplay])
        },
        MenuEvent::OpenAbout => {
            &&& s1 == s0
            &&& actions == if s0.lvsets.collection@[s0.lvsets.selected as int].about is Some {
                seq![PlayAction::OpenAbout]
            } else {
                Seq::<PlayAction>::empty()
            }
        },
        MenuEvent::ExitGame => {
            &&& s1.lvsets == s0.lvsets
            &&& s1.save_data == sd
            &&& s1.fx is None
            &&& s1.warp == s0.warp
            &&& s1.events@ == s0.events@.push(PlayEvent::Quit)
            &&& actions == seq![PlayAction::CloseAllMenus, PlayAction::DropFx]
        },
        MenuEvent::OpenOptions => {
            &&& s1 == s0
            &&& actions == seq![PlayAction::OpenOptions { options: o }]
        },
        MenuEvent::OpenPauseMenu => {
            &&& s1 == s0
            &&& actions == with_fx(s0.fx, seq![PlayAction::PauseFx])
        },
        MenuEvent::OpenScoutMode => {
            &&& s1 == s0
            &&& actions == with_fx(s0.fx, seq![PlayAction::ScoutFx])
        },
        MenuEvent::SetBackgroundMusic { value } => if o.background_music == value {
            &&& s1 == s0
            &&& actions == Seq::<PlayAction>::empty()
        } else {
            &&& options_set(s0, s1, OptionsDto { background_music: value, ..o })
            &&& s1.events@ == s0.events@.push(PlayEvent::PlayMusic { music: music_for(value, s0.fx) })
            &&& actions == seq![PlayAction::WriteSaveFile]
        },
        MenuEvent::SetSoundEffects { value } => option_post(
            s0,
            s1,
            actions,
            OptionsDto { sound_effects: value, ..o },
            Seq::empty(),
        ),
        MenuEvent::SetDeveloperMode { value } => option_post(
            s0,
            s1,
            actions,
            OptionsDto { developer_mode: value, ..o },
            Seq::empty(),
        ),
        MenuEvent::SetPerspective { value } => option_post(
            s0,
            s1,
            actions,
            OptionsDto { perspective: value, ..o },
            with_fx(s0.fx, seq![PlayAction::SetPerspective { value }]),
        ),
        MenuEvent::SetAssistMode { value } => option_post(
            s0,
            s1,
            actions,
            OptionsDto { assist_mode: value, ..o },
            Seq::empty(),
        ),
        MenuEvent::SetStepMode { value } => option_post(
            s0,
            s1,
            actions,
            OptionsDto { step_mode: value, ..o },
            with_fx(s0.fx, seq![PlayAction::SetStepMode { value }]),
        ),
        MenuEvent::SetAutoSaveReplay { value } => option_post(
            s0,
            s1,
            actions,
            OptionsDto { auto_save_replay: value, ..o },
            Seq::empty(),
        ),
        MenuEvent::SetSpeedrunMode { value } => option_post(
            s0,
            s1,
            actions,
            OptionsDto { speedrun_mode: value, ..o },
            Seq::empty(),
        ),
        MenuEvent::CursorMove => {
            &&& s1.lvsets == s0.lvsets
            &&& s1.save_data == sd
            &&& s1.fx == s0.fx
            &&& s1.warp == s0.warp
            &&& s1.events@ == s0.events@.push(PlayEvent::PlaySound { sound: SoundFx::CursorMove })
            &&& actions == Seq::<PlayAction>::empty()
        },
        MenuEvent::CursorSelect => {
            &&& s1.lvsets == s0.lvsets
            &&& s1.save_data == sd
            &&& s1.fx == s0.fx
            &&& s1.warp == s0.warp
            &&& s1.events@ == s0.events@.push(PlayEvent::PlaySound { sound: SoundFx::CursorSelect })
            &&& actions == Seq::<PlayAction>::empty()
        },
        MenuEvent::CloseMenu => {
            &&& s1 == s0
            &&& actions == seq![PlayAction::CloseMenu { has_fx: s0.fx is Some }]
        },
        MenuEvent::PreviewExit => {
            &&& s1.lvsets == s0.lvsets
            &&& s1.save_data == sd
            &&& s1.fx is None
            &&& s1.warp == s0.warp
            &&& s1.events@ == s0.events@
            &&& actions == seq![PlayAction::DropFx]
        },
        MenuEvent::SaveState => match s0.fx {
            Some(f) => {
                &&& s1.lvsets == s0.lvsets
                &&& s1.save_data == sd
                &&& s1.fx == s0.fx
                &&& s1.warp == Some(f)
                &&& s1.events@ == s0.events@
                &&& actions == seq![PlayAction::SetWarp]
            },
            None => {
                &&& s1 == s0
                &&& actions == Seq::<PlayAction>::empty()
            },
        },
        MenuEvent::LoadState => match s0.warp {
            Some(w) => {
                let attempts = next_attempt(sd);
                &&& s1.lvsets == s0.lvsets
                &&& counted(sd, s1.save_data)
                &&& s1.warp == Some(FxInfo { attempts, ..w })
                &&& s1.fx == Some(FxInfo { attempts, ..w })
                &&& s1.events@ == s0.events@
                &&& actions == seq![PlayAction::UseWarp { attempts, wait: !o.step_mode }]
            },
            None => {
                &&& s1 == s0
                &&& actions == Seq::<PlayAction>::empty()
            },
        },
        MenuEvent::ScoutN => {
            &&& s1 == s0
            &&& actions == with_fx(s0.fx, seq![PlayAction::Scout { dir: Compass::Up }])
        },
        MenuEvent::ScoutE => {
            &&& s1 == s0
            &&& actions == with_fx(s0.fx, seq![PlayAction::Scout { dir: Compass::Right }])
        },
        MenuEvent::ScoutS => {
            &&& s1 == s0
            &&& actions == with_fx(s0.fx, seq![PlayAction::Scout { dir: Compass::Down }])
        },
        MenuEvent::ScoutW => {
            &&& s1 == s0
            &&& actions == with_fx(s0.fx, seq![PlayAction::Scout { dir: Compass::Left }])
        },
    }
}

impl PlayState {
    /// Keeps changed options and writes them; an unchanged option does
    /// nothing.
    fn set_options(&mut self, o: OptionsDto) -> (actions: Vec<PlayAction>)
        ensures
            option_post(*old(self), *final(self), actions@, o, Seq::empty()),
    {
        let mut actions: Vec<PlayAction> = Vec::new();
        if o != self.save_data.options {
            self.save_data.options = o;
            actions.push(PlayAction::WriteSaveFile);
        }
        assert(actions@ =~= if o == old(self).save_data.options {
            Seq::<PlayAction>::empty()
        } else {
            seq![PlayAction::WriteSaveFile] + Seq::<PlayAction>::empty()
        });
        actions
    }

    /// Handles one menu event.
    #[verifier::rlimit(60)]
    pub fn handle_menu_event(&mut self, evt: MenuEvent) -> (actions: Vec<PlayAction>)
        requires
            menu_event_ok(*old(self), evt),
        ensures
            menu_event_post(*old(self), *final(self), evt, actions@),
    {
        let mut actions: Vec<PlayAction> = Vec::new();
        match evt {
            MenuEvent::LoadLevelSet { index } => {
                self.events.push(PlayEvent::SetTitle);
                self.lvsets.selected = index as i32;
                actions.push(PlayAction::ReadSaveFile);
            },
            MenuEvent::NewGame => {
                actions = self.play_level(1);
            },
            MenuEvent::OpenMainMenu => {
                self.fx = None;
                actions.push(PlayAction::DropFx);
                self.events.push(PlayEvent::SetTitle);
                actions.push(PlayAction::OpenMainMenu { is_continue: self.save_data.current_level > 0 });
                self.play_music();
                assert(actions@ =~= seq![
                    PlayAction::DropFx,
                    PlayAction::OpenMainMenu { is_continue: old(self).save_data.current_level > 0 },
                ]);
            },
            MenuEvent::SwitchLevelSet => {
                self.fx = None;
                actions.push(PlayAction::DropFx);
                self.lvsets.selected = -1;
                actions.push(PlayAction::CloseAllMenus);
                self.events.push(PlayEvent::Restart);
                self.events.push(PlayEvent::SetTitle);
                assert(actions@ =~= seq![PlayAction::DropFx, PlayAction::CloseAllMenus]);
            },
            MenuEvent::PreviewLevel { level_number } => {
                actions = self.preview_level(level_number);
            },
            MenuEvent::OpenGoToLevel => {
                // Start previewing at the current level
                if self.save_data.get_level_progress(self.save_data.current_level).is_some() {
                    let current = self.save_data.current_level;
                    actions = self.preview_level(current);
                }
                actions.push(PlayAction::OpenGoToLevel);
            },
            MenuEvent::OpenUnlockLevel => {
                actions.push(PlayAction::OpenUnlockLevel);
            },
            MenuEvent::EnterPassword { code } => {
                actions = self.enter_password(code);
            },
            MenuEvent::PlayLevel { level_number } => {
                actions = self.play_level(level_number);
            },
            MenuEvent::PlayNextLevel => {
                let level_number = match &self.fx {
                    Some(fx) => fx.level_number + 1,
                    None => 1,
                };
                actions = self.play_level(level_number);
            },
            MenuEvent::RetryLevel | MenuEvent::RestartLevel => {
                let level_number = match &self.fx {
                    Some(fx) => fx.level_number,
                    None => 1,
                };
                actions = self.play_level(level_number);
            },
            MenuEvent::Continue => {
                let level_number = if self.save_data.current_level < 1 { 1 } else { self.save_data.current_level };
                actions = self.play_level(level_number);
            },
            MenuEvent::ResumePlay => {
                if self.fx.is_some() {
                    actions.push(PlayAction::CloseAllMenus);
                    actions.push(PlayAction::ResumeFx);
                }
                assert(actions@ =~= with_fx(old(self).fx, seq![PlayAction::CloseAllMenus, PlayAction::ResumeFx]));
            },
            MenuEvent::SaveReplay => {
                if self.fx.is_some() {
                    actions.push(PlayAction::SaveReplay);
                }
            },
            MenuEvent::OpenAbout => {
                if self.lvsets.current().about.is_some() {
                    actions.push(PlayAction::OpenAbout);
                }
            },
            MenuEvent::ExitGame => {
                actions.push(PlayAction::CloseAllMenus);
                self.fx = None;
                actions.push(PlayAction::DropFx);
                self.events.push(PlayEvent::Quit);
                assert(actions@ =~= seq![PlayAction::CloseAllMenus, PlayAction::DropFx]);
            },
            MenuEvent::OpenOptions => {
                actions.push(PlayAction::OpenOptions { options: self.save_data.options });
            },
            MenuEvent::OpenPauseMenu => {
                if self.fx.is_some() {
                    actions.push(PlayAction::PauseFx);
                }
            },
            MenuEvent::OpenScoutMode => {
                if self.fx.is_some() {
                    actions.push(PlayAction::ScoutFx);
                }
            },
            MenuEvent::SetBackgroundMusic { value } => {
                if self.save_data.options.background_music != value {
                    self.save_data.options.background_music = value;
                    actions.push(PlayAction::WriteSaveFile);
                    self.play_music();
                }
                assert(actions@ =~= if old(self).save_data.options.background_music == value {
                    Seq::<PlayAction>::empty()
                } else {
                    seq![PlayAction::WriteSaveFile]
                });
            },
            MenuEvent::SetSoundEffects { value } => {
                actions = self.set_options(OptionsDto { sound_effects: value, ..self.save_data.options });
            },
            MenuEvent::SetDeveloperMode { value } => {
                actions = self.set_options(OptionsDto { developer_mode: value, ..self.save_data.options });
            },
            MenuEvent::SetPerspective { value } => {
                actions = self.set_options(OptionsDto { perspective: value, ..self.save_data.options });
                if actions.len() > 0 && self.fx.is_some() {
                    actions.push(PlayAction::SetPerspective { value });
                }
                assert(actions@ =~= if (OptionsDto { perspective: value, ..old(self).save_data.options }) == old(self).save_data.options {
                    Seq::<PlayAction>::empty()
                } else {
                    seq![PlayAction::WriteSaveFile] + with_fx(old(self).fx, seq![PlayAction::SetPerspective { value }])
                });
            },
            MenuEvent::SetAssistMode { value } => {
                actions = self.set_options(OptionsDto { assist_mode: value, ..self.save_data.options });
            },
            MenuEvent::SetStepMode { value } => {
                actions = self.set_options(OptionsDto { step_mode: value, ..self.save_data.options });
                if actions.len() > 0 && self.fx.is_some() {
                    actions.push(PlayAction::SetStepMode { value });
                }
                assert(actions@ =~= if (OptionsDto { step_mode: value, ..old(self).save_data.options }) == old(self).save_data.options {
                    Seq::<PlayAction>::empty()
                } else {
                    seq![PlayAction::WriteSaveFile] + with_fx(old(self).fx, seq![PlayAction::SetStepMode { value }])
                });
            },
            MenuEvent::SetAutoSaveReplay { value } => {
                actions = self.set_options(OptionsDto { auto_save_replay: value, ..self.save_data.options });
            },
            MenuEvent::SetSpeedrunMode { value } => {
                actions = self.set_options(OptionsDto { speedrun_mode: value, ..self.save_data.options });
            },
            MenuEvent::CursorMove => {
                self.events.push(PlayEvent::PlaySound { sound: SoundFx::CursorMove });
            },
            MenuEvent::CursorSelect => {
                self.events.push(PlayEvent::PlaySound { sound: SoundFx::CursorSelect });
            },
            MenuEvent::CloseMenu => {
                actions.push(PlayAction::CloseMenu { has_fx: self.fx.is_some() });
            },
            MenuEvent::PreviewExit => {
                self.fx = None;
                actions.push(PlayAction::DropFx);
            },
            MenuEvent::SaveState => {
                if let Some(fx) = self.fx {
                    self.warp = Some(fx);
                    actions.push(PlayAction::SetWarp);
                }
            },
            MenuEvent::LoadState => {
                if let Some(warp) = self.warp {
                    // Update progression state
                    let attempts = self.save_data.increase_level_attempts();
                    let restored = FxInfo { attempts, ..warp };
                    self.warp = Some(restored);
                    self.fx = Some(restored);
                    // Step mode already waits for user input
                    actions.push(PlayAction::UseWarp { attempts, wait: !self.save_data.options.step_mode });
                }
            },
            MenuEvent::ScoutN => {
                if self.fx.is_some() {
                    actions.push(PlayAction::Scout { dir: Compass::Up });
                }
            },
            MenuEvent::ScoutE => {
                if self.fx.is_some() {
                    actions.push(PlayAction::Scout { dir: Compass::Right });
                }
            },
            MenuEvent::ScoutS => {
                if self.fx.is_some() {
                    actions.push(PlayAction::Scout { dir: Compass::Down });
                }
            },
            MenuEvent::ScoutW => {
                if self.fx.is_some() {
                    actions.push(PlayAction::Scout { dir: Compass::Left });
                }
            },
        }
        actions
    }
}

/// The record of `v` for a level, or -1 without one.
pub open spec fn record_of(v: Seq<i32>, level_number: int) -> i32 {
    match level_slot(level_number, v.len()) {
        Some(i) => v[i],
        None => -1i32,
    }
}

/// A run sets a new record: it beats the time record or the steps record,
/// or there was none.
pub open spec fn is_high_score(time_record: i32, steps_record: i32, scores: Scores) -> bool {
    (time_record < 0 || scores.ticks < time_record) || (steps_record < 0 || scores.steps < steps_record)
}

/// What an event of the running level needs of the state.
pub open spec fn fx_event_ok(s: PlayState, evt: FxEvent) -> bool {
    evt is LevelComplete ==> (s.fx matches Some(f) ==> i32::MIN < f.level_number <= i32::MAX - 2)
}

/// The state after an event of the running level, and what the caller is
/// to do.
pub open spec fn fx_event_post(s0: PlayState, s1: PlayState, evt: FxEvent, actions: Seq<PlayAction>) -> bool {
    let sd = s0.save_data;
    match evt {
        FxEvent::PlaySound(sound) => {
            &&& s1.lvsets == s0.lvsets
            &&& s1.save_data == sd
            &&& s1.fx == s0.fx
            &&& s1.warp == s0.warp
            &&& s1.events@ == if sd.options.sound_effects {
                s0.events@.push(PlayEvent::PlaySound { sound })
            } else {
                s0.events@
            }
            &&& actions == Seq::<PlayAction>::empty()
        },
        FxEvent::ScoutMode => {
            &&& s1 == s0
            &&& actions == with_fx(s0.fx, seq![PlayAction::OpenScoutMode])
        },
        FxEvent::PauseGame => {
            &&& s1 == s0
            &&& actions == match s0.fx {
                Some(f) => seq![PlayAction::OpenPauseMenu { has_warp: s0.warp is Some, level_number: f.level_number }],
                None => Seq::<PlayAction>::empty(),
            }
        },
        FxEvent::ResumePlay => {
            &&& s1 == s0
            &&& actions == seq![PlayAction::CloseAllMenus]
        },
        FxEvent::LevelComplete => match s0.fx {
            Some(f) => {
                let n = f.level_number as int;
                let scores = Scores { ticks: f.time, steps: f.steps };
                let th = record_of(sd.high_scores.ticks@, n);
                let sh = record_of(sd.high_scores.steps@, n);
                let high = is_high_score(th, sh, scores);
                &&& s1.lvsets == s0.lvsets
                &&& s1.fx == s0.fx
                &&& s1.warp == s0.warp
                &&& s1.save_data.completed_levels@ == set_flag(sd.completed_levels@, n)
                &&& s1.save_data.unlocked_levels@ == set_flag(set_flag(sd.unlocked_levels@, n + 2), n + 1)
                &&& s1.save_data.current_level == unlock_current(
                    unlock_current(sd.current_level as int, n + 2, sd.unlocked_levels@.len()),
                    n + 1,
                    sd.unlocked_levels@.len(),
                )
                &&& s1.save_data.high_scores.ticks@ == record_score(sd.high_scores.ticks@, n, scores.ticks)
                &&& s1.save_data.high_scores.steps@ == record_score(sd.high_scores.steps@, n, scores.steps)
                &&& s1.save_data.high_scores.attempts@ == sd.high_scores.attempts@
                &&& s1.save_data.show_hidden_levels == sd.show_hidden_levels
                &&& s1.save_data.segmented_speedrun == sd.segmented_speedrun
                &&& s1.save_data.options == sd.options
                &&& s1.events@ == if high {
                    s0.events@.push(PlayEvent::PlaySound { sound: SoundFx::GameWin })
                } else {
                    s0.events@
                }
                &&& actions == seq![PlayAction::WriteSaveFile] + (if sd.options.auto_save_replay || high {
                    seq![PlayAction::SaveReplay]
                } else {
                    Seq::<PlayAction>::empty()
                }) + seq![
                    PlayAction::OpenGameWin {
                        level_number: f.level_number,
                        attempts: f.attempts,
                        time: f.time,
                        steps: f.steps,
                        bonks: f.bonks,
                        time_high_score: th,
                        steps_high_score: sh,
                    },
                ]
            },
            None => {
                &&& s1 == s0
                &&& actions == Seq::<PlayAction>::empty()
            },
        },
        FxEvent::GameOver => {
            &&& s1 == s0
            &&& actions == match s0.fx {
                Some(f) => seq![
                    PlayAction::OpenGameOver {
                        reason: f.game_over,
                        has_warp: s0.warp is Some,
                        level_number: f.level_number,
                        attempts: f.attempts,
                        time: f.time,
                        steps: f.steps,
                        bonks: f.bonks,
                    },
                ],
                None => Seq::<PlayAction>::empty(),
            }
        },
    }
}

impl PlayState {
    /// Goes on with loading the chosen level set once its save file was read
    /// (`None`: there is none): the save data is taken from it and written
    /// back, the main menu opens (offering to continue once a level was
    /// reached) and the menu music plays.
    pub fn load_level_set(&mut self, dto: Option<&SaveFileDto>) -> (actions: Vec<PlayAction>)
        requires
            old(self).has_current(),
            1 <= current_levels(old(self).lvsets).len() < i32::MAX,
        ensures
            final(self).lvsets == old(self).lvsets,
            loaded_from(&old(self).lvsets.collection@[old(self).lvsets.selected as int], dto, final(self).save_data),
            final(self).fx == old(self).fx,
            final(self).warp == old(self).warp,
            final(self).events@ == old(self).events@.push(
                PlayEvent::PlayMusic {
                    music: music_for(final(self).save_data.options.background_music, old(self).fx),
                },
            ),
            actions@ == seq![
                PlayAction::WriteSaveFile,
                PlayAction::OpenMainMenu { is_continue: final(self).save_data.current_level > 0 },
            ],
    {
        let mut actions: Vec<PlayAction> = Vec::new();
        self.save_data = SaveData::load_refactored(self.lvsets.current(), dto);
        actions.push(PlayAction::WriteSaveFile);
        actions.push(PlayAction::OpenMainMenu { is_continue: self.save_data.current_level > 0 });
        self.play_music();
        assert(actions@ =~= seq![
            PlayAction::WriteSaveFile,
            PlayAction::OpenMainMenu { is_continue: self.save_data.current_level > 0 },
        ]);
        actions
    }

    /// Handles one event of the running level.
    pub fn handle_fx_event(&mut self, evt: FxEvent) -> (actions: Vec<PlayAction>)
        requires
            fx_event_ok(*old(self), evt),
        ensures
            fx_event_post(*old(self), *final(self), evt, actions@),
    {
        let mut actions: Vec<PlayAction> = Vec::new();
        match evt {
            FxEvent::PlaySound(sound) => {
                if self.save_data.options.sound_effects {
                    self.events.push(PlayEvent::PlaySound { sound });
                }
            },
            FxEvent::ScoutMode => {
                if self.fx.is_some() {
                    actions.push(PlayAction::OpenScoutMode);
                }
            },
            FxEvent::PauseGame => {
                if let Some(fx) = &self.fx {
                    actions.push(PlayAction::OpenPauseMenu { has_warp: self.warp.is_some(), level_number: fx.level_number });
                }
            },
            FxEvent::ResumePlay => {
                actions.push(PlayAction::CloseAllMenus);
            },
            FxEvent::LevelComplete => {
                actions = self.level_complete();
            },
            FxEvent::GameOver => {
                if let Some(fx) = &self.fx {
                    actions.push(PlayAction::OpenGameOver {
                        reason: fx.game_over,
                        has_warp: self.warp.is_some(),
                        level_number: fx.level_number,
                        attempts: fx.attempts,
                        time: fx.time,
                        steps: fx.steps,
                        bonks: fx.bonks,
                    });
                }
            },
        }
        actions
    }

    /// The running level was won: records and progress are kept and
    /// written, a new record is cheered and its replay saved (as is every
    /// replay with auto saving on), and the win menu opens.
    fn level_complete(&mut self) -> (actions: Vec<PlayAction>)
        requires
            fx_event_ok(*old(self), FxEvent::LevelComplete),
        ensures
            fx_event_post(*old(self), *final(self), FxEvent::LevelComplete, actions@),
    {
        let mut actions: Vec<PlayAction> = Vec::new();
        let fx = match self.fx {
            Some(fx) => fx,
            None => {
                return actions;
            },
        };

        // Check for high scores
        let scores = Scores { ticks: fx.time, steps: fx.steps };
        let time_high_score = self.save_data.get_time_high_score(fx.level_number);
        let steps_high_score = self.save_data.get_steps_high_score(fx.level_number);
        let high_score = (time_high_score < 0 || scores.ticks < time_high_score) || (steps_high_score < 0
            || scores.steps < steps_high_score);
        if high_score {
            self.events.push(PlayEvent::PlaySound { sound: SoundFx::GameWin });
        }

        // Update save data
        self.save_data.complete_level(fx.level_number, Some(scores));
        actions.push(PlayAction::WriteSaveFile);

        // Auto-save replay if enabled or if a new high score was achieved
        if self.save_data.options.auto_save_replay || high_score {
            actions.push(PlayAction::SaveReplay);
        }

        // Show game win menu
        actions.push(PlayAction::OpenGameWin {
            level_number: fx.level_number,
            attempts: fx.attempts,
            time: fx.time,
            steps: fx.steps,
            bonks: fx.bonks,
            time_high_score,
            steps_high_score,
        });
        assert(actions@ =~= seq![PlayAction::WriteSaveFile] + (if old(self).save_data.options.auto_save_replay
            || high_score {
            seq![PlayAction::SaveReplay]
        } else {
            Seq::<PlayAction>::empty()
        }) + seq![
            PlayAction::OpenGameWin {
                level_number: fx.level_number,
                attempts: fx.attempts,
                time: fx.time,
                steps: fx.steps,
                bonks: fx.bonks,
                time_high_score,
                steps_high_score,
            },
        ]);
        actions
    }
}

/// The attempt counter of level `n` can be counted up once more.
fn room_for(sd: &SaveData, n: i32) -> (r: bool)
    ensures
        r == attempts_room_for(*sd, n as int),
{
    if 1 <= n && ((n - 1) as usize) < sd.high_scores.attempts.len() {
        sd.high_scores.attempts[(n - 1) as usize] < i32::MAX
    } else {
        true
    }
}

/// The number of levels of the current level set.
pub fn current_levels_len(s: &PlayState) -> (r: usize)
    requires
        s.has_current(),
    ensures
        r == current_levels(s.lvsets).len(),
{
    s.lvsets.current().levels.len()
}

/// Whether a menu event can be handled in this state.
pub fn menu_event_allowed(s: &PlayState, evt: MenuEvent) -> (r: bool)
    ensures
        r == menu_event_ok(*s, evt),
{
    let has_current = 0 <= s.lvsets.selected && (s.lvsets.selected as usize) < s.lvsets.collection.len();
    let sd = &s.save_data;
    match evt {
        MenuEvent::LoadLevelSet { index } => index < s.lvsets.collection.len() && index < i32::MAX as usize,
        MenuEvent::NewGame => has_current && room_for(sd, 1),
        MenuEvent::PlayLevel { level_number } => has_current && level_number > i32::MIN && room_for(sd, level_number),
        MenuEvent::PlayNextLevel => {
            if !has_current {
                return false;
            }
            match s.fx {
                Some(f) => f.level_number < i32::MAX && room_for(sd, f.level_number + 1),
                None => room_for(sd, 1),
            }
        },
        MenuEvent::RetryLevel | MenuEvent::RestartLevel => {
            let n = match s.fx {
                Some(f) => f.level_number,
                None => 1,
            };
            has_current && n > i32::MIN && room_for(sd, n)
        },
        MenuEvent::Continue => {
            let n = if sd.current_level < 1 { 1 } else { sd.current_level };
            has_current && room_for(sd, n)
        },
        MenuEvent::OpenGoToLevel => has_current && sd.current_level > i32::MIN,
        MenuEvent::PreviewLevel { .. } => has_current,
        MenuEvent::EnterPassword { .. } => has_current && s.lvsets.current().levels.len() < i32::MAX as usize,
        MenuEvent::OpenAbout => has_current,
        MenuEvent::LoadState => s.warp.is_none() || (sd.current_level > i32::MIN && room_for(sd, sd.current_level)),
        _ => true,
    }
}

/// Whether an event of the running level can be handled in this state.
pub fn fx_event_allowed(s: &PlayState, evt: FxEvent) -> (r: bool)
    ensures
        r == fx_event_ok(*s, evt),
{
    match (evt, s.fx) {
        (FxEvent::LevelComplete, Some(f)) => i32::MIN < f.level_number && f.level_number <= i32::MAX - 2,
        _ => true,
    }
}

/// The options a settings event asks for, if it is one.
pub open spec fn requested_options(o: OptionsDto, evt: MenuEvent) -> Option<OptionsDto> {
    match evt {
        MenuEvent::SetBackgroundMusic { value } => Some(OptionsDto { background_music: value, ..o }),
        MenuEvent::SetSoundEffects { value } => Some(OptionsDto { sound_effects: value, ..o }),
        MenuEvent::SetDeveloperMode { value } => Some(OptionsDto { developer_mode: value, ..o }),
        MenuEvent::SetPerspective { value } => Some(OptionsDto { perspective: value, ..o }),
        MenuEvent::SetAssistMode { value } => Some(OptionsDto { assist_mode: value, ..o }),
        MenuEvent::SetStepMode { value } => Some(OptionsDto { step_mode: value, ..o }),
        MenuEvent::SetAutoSaveReplay { value } => Some(OptionsDto { auto_save_replay: value, ..o }),
        MenuEvent::SetSpeedrunMode { value } => Some(OptionsDto { speedrun_mode: value, ..o }),
        _ => None,
    }
}

/// Choosing an option's current value changes nothing and writes nothing;
/// choosing another value keeps exactly that change, with the save file
/// written first.
pub proof fn law_options_are_kept(s0: PlayState, s1: PlayState, evt: MenuEvent, actions: Seq<PlayAction>)
    requires
        menu_event_post(s0, s1, evt, actions),
        requested_options(s0.save_data.options, evt) is Some,
    ensures
        ({
            let o = requested_options(s0.save_data.options, evt)->0;
            if o == s0.save_data.options {
                &&& s1 == s0
                &&& actions == Seq::<PlayAction>::empty()
            } else {
                &&& s1.save_data == (SaveData { options: o, ..s0.save_data })
                &&& s1.fx == s0.fx
                &&& s1.lvsets == s0.lvsets
                &&& actions.len() >= 1
                &&& actions[0] == PlayAction::WriteSaveFile
            }
        }),
{
    let o = requested_options(s0.save_data.options, evt)->0;
    match evt {
        MenuEvent::SetBackgroundMusic { value } => {
            if o != s0.save_data.options {
                assert(s0.save_data.options.background_music != value);
            }
        },
        _ => {},
    }
}

/// Entering the secret code twice leaves the save data as it was.
pub proof fn law_secret_code_twice(
    s0: PlayState,
    s1: PlayState,
    s2: PlayState,
    code: [u8; 4],
    a1: Seq<PlayAction>,
    a2: Seq<PlayAction>,
)
    requires
        is_secret_code(code),
        enter_password_post(s0, s1, code, a1),
        enter_password_post(s1, s2, code, a2),
    ensures
        s2.save_data == s0.save_data,
        a1 == a2,
        a1.last() == PlayAction::EndSync,
{
}

/// Starting a level that exists counts exactly one attempt at it, makes it
/// the current level and runs it from the start; a level that does not
/// exist changes nothing.
pub proof fn law_play_level_counts_one_attempt(s0: PlayState, s1: PlayState, n: i32, actions: Seq<PlayAction>)
    requires
        play_level_post(s0, s1, n as int, actions),
        level_exists(s0.lvsets, n as int),
        level_slot(n as int, s0.save_data.high_scores.attempts@.len()) is Some,
        attempts_room_for(s0.save_data, n as int),
    ensures
        ({
            let i = n as int - 1;
            &&& s1.save_data.high_scores.attempts@.len() == s0.save_data.high_scores.attempts@.len()
            &&& s1.save_data.high_scores.attempts@[i] == s0.save_data.high_scores.attempts@[i] + 1
            &&& s1.save_data.current_level == n
            &&& s1.fx matches Some(f) && f.level_number == n && !f.is_preview && f.time == 0
                && f.attempts == s1.save_data.high_scores.attempts@[i]
            &&& s1.warp is None
        }),
{
    let sd_at = SaveData { current_level: n, ..s0.save_data };
    assert(sd_at.high_scores.attempts@ == s0.save_data.high_scores.attempts@);
    assert(level_slot(sd_at.current_level as int, sd_at.high_scores.attempts@.len()) == Some(n as int - 1));
}

/// Music plays only when it is switched on; the game music plays exactly
/// while a level runs that is not a preview.
pub proof fn law_music_choice(background_music: bool, fx: Option<FxInfo>)
    ensures
        music_for(background_music, fx) is None <==> !background_music,
        music_for(background_music, fx) == Some(MusicId::GameMusic) <==> background_music && (fx matches Some(
            f,
        ) && !f.is_preview),
{
}

} // verus!
