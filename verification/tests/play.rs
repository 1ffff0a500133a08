use chipgame::fx::handlers::GameOverReason;
use chipgame::menu::event::MenuEvent;
use chipgame::play::lvsets::{LevelEntry, LevelSet, LevelSets, join_lines, name_lt, sort_by_name};
use chipgame::play::savedata::{HighScoresDto, LevelProgress, OptionsDto, SaveData, SaveFileDto, Scores};
use chipgame::play::state::{FxEvent, FxInfo, MusicId, PlayAction, PlayEvent, PlayState, SoundFx};

fn level(name: &str, password: Option<&str>) -> LevelEntry {
    LevelEntry { name: name.to_string(), password: password.map(|p| p.to_string()), trophies: None }
}

fn level_set() -> LevelSet {
    LevelSet {
        name: String::from("set"),
        title: String::from("The Set"),
        about: Some(String::from("About")),
        splash: None,
        levels: vec![level("One", Some("AAAA")), level("Two", Some("BBBB")), level("Three", Some("BBBB"))],
    }
}

fn state() -> PlayState {
    let set = level_set();
    let save_data = SaveData::load_refactored(&set, None);
    PlayState {
        lvsets: LevelSets { selected: 0, collection: vec![set] },
        save_data,
        events: Vec::new(),
        fx: None,
        warp: None,
    }
}

#[test]
fn fresh_save_data() {
    let s = state();
    assert_eq!(s.save_data.current_level, 0);
    assert_eq!(s.save_data.unlocked_levels, vec![true, false, false]);
    assert_eq!(s.save_data.get_level_progress(1), Some(LevelProgress::Unlocked));
    assert_eq!(s.save_data.get_level_progress(2), None);
    assert_eq!(s.save_data.get_time_high_score(1), -1);
}

#[test]
fn new_game_starts_level_one() {
    let mut s = state();
    s.save_data.options.background_music = true;
    let actions = s.handle_menu_event(MenuEvent::NewGame);
    assert_eq!(actions, vec![
        PlayAction::WriteSaveFile,
        PlayAction::StartLevel { level_number: 1, attempts: 1, segmented_replay: false },
        PlayAction::CloseAllMenus,
    ]);
    assert_eq!(s.save_data.current_level, 1);
    assert_eq!(s.save_data.get_attempts(1), 1);
    assert_eq!(s.events, vec![PlayEvent::SetTitle, PlayEvent::PlayMusic { music: Some(MusicId::GameMusic) }]);
    assert_eq!(s.fx.map(|f| (f.level_number, f.is_preview)), Some((1, false)));
}

#[test]
fn playing_a_missing_level_does_nothing() {
    let mut s = state();
    assert!(s.play_level(4).is_empty());
    assert!(s.play_level(0).is_empty());
    assert!(s.fx.is_none() && s.events.is_empty());
}

#[test]
fn passwords_unlock_levels() {
    let mut s = state();
    let actions = s.handle_menu_event(MenuEvent::EnterPassword { code: *b"BBBB" });
    assert_eq!(actions, vec![PlayAction::OpenMainMenu { is_continue: true }]);
    assert_eq!(s.save_data.unlocked_levels, vec![true, true, true]);
    assert_eq!(s.save_data.current_level, 3);
    let wrong = s.handle_menu_event(MenuEvent::EnterPassword { code: *b"ZZZZ" });
    assert!(wrong.is_empty());
}

#[test]
fn secret_code_toggles_hidden_levels() {
    let mut s = state();
    let actions = s.handle_menu_event(MenuEvent::EnterPassword { code: *b"CHIP" });
    assert_eq!(actions, vec![PlayAction::OpenMainMenu { is_continue: true }, PlayAction::EndSync]);
    assert!(s.save_data.show_hidden_levels);
    s.handle_menu_event(MenuEvent::EnterPassword { code: *b"CHIP" });
    assert!(!s.save_data.show_hidden_levels);
}

#[test]
fn options_change_only_when_different() {
    let mut s = state();
    assert!(s.handle_menu_event(MenuEvent::SetSoundEffects { value: false }).is_empty());
    assert_eq!(s.handle_menu_event(MenuEvent::SetSoundEffects { value: true }), vec![PlayAction::WriteSaveFile]);
    assert!(s.save_data.options.sound_effects);
    // Perspective also reaches a running level.
    s.fx = Some(FxInfo { level_number: 1, is_preview: false, attempts: 1, time: 0, steps: 0, bonks: 0, game_over: None });
    assert_eq!(
        s.handle_menu_event(MenuEvent::SetPerspective { value: true }),
        vec![PlayAction::WriteSaveFile, PlayAction::SetPerspective { value: true }],
    );
    assert_eq!(s.handle_menu_event(MenuEvent::SetBackgroundMusic { value: true }), vec![PlayAction::WriteSaveFile]);
    assert_eq!(s.events, vec![PlayEvent::PlayMusic { music: Some(MusicId::GameMusic) }]);
}

#[test]
fn cursor_sounds_and_menus() {
    let mut s = state();
    assert!(s.handle_menu_event(MenuEvent::CursorMove).is_empty());
    assert_eq!(s.events, vec![PlayEvent::PlaySound { sound: SoundFx::CursorMove }]);
    assert_eq!(s.handle_menu_event(MenuEvent::CloseMenu), vec![PlayAction::CloseMenu { has_fx: false }]);
    assert_eq!(s.handle_menu_event(MenuEvent::OpenAbout), vec![PlayAction::OpenAbout]);
    assert!(s.handle_menu_event(MenuEvent::ResumePlay).is_empty());
    assert_eq!(s.handle_menu_event(MenuEvent::ExitGame), vec![PlayAction::CloseAllMenus, PlayAction::DropFx]);
    assert_eq!(s.events.last(), Some(&PlayEvent::Quit));
}

#[test]
fn go_to_level_previews_current_level() {
    let mut s = state();
    s.save_data.current_level = 1;
    let actions = s.handle_menu_event(MenuEvent::OpenGoToLevel);
    assert_eq!(actions, vec![PlayAction::PreviewLevel { level_number: 1 }, PlayAction::OpenGoToLevel]);
    assert_eq!(s.fx.map(|f| f.is_preview), Some(true));
    s.save_data.current_level = 2;
    let actions = s.handle_menu_event(MenuEvent::OpenGoToLevel);
    assert_eq!(actions, vec![PlayAction::OpenGoToLevel]);
}

#[test]
fn warp_points() {
    let mut s = state();
    s.play_level(1);
    assert_eq!(s.handle_menu_event(MenuEvent::SaveState), vec![PlayAction::SetWarp]);
    let actions = s.handle_menu_event(MenuEvent::LoadState);
    assert_eq!(actions, vec![PlayAction::UseWarp { attempts: 2, wait: true }]);
    assert_eq!(s.save_data.get_attempts(1), 2);
    assert_eq!(s.fx.map(|f| f.attempts), Some(2));
}

#[test]
fn level_complete_records_and_opens_win_menu() {
    let mut s = state();
    s.play_level(1);
    s.events.clear();
    s.fx = Some(FxInfo { level_number: 1, is_preview: false, attempts: 1, time: 600, steps: 40, bonks: 2, game_over: None });
    let actions = s.handle_fx_event(FxEvent::LevelComplete);
    assert_eq!(actions, vec![
        PlayAction::WriteSaveFile,
        PlayAction::SaveReplay,
        PlayAction::OpenGameWin {
            level_number: 1,
            attempts: 1,
            time: 600,
            steps: 40,
            bonks: 2,
            time_high_score: -1,
            steps_high_score: -1,
        },
    ]);
    assert_eq!(s.events, vec![PlayEvent::PlaySound { sound: SoundFx::GameWin }]);
    assert_eq!(s.save_data.get_time_high_score(1), 600);
    assert_eq!(s.save_data.get_steps_high_score(1), 40);
    assert_eq!(s.save_data.unlocked_levels, vec![true, true, true]);
    assert_eq!(s.save_data.get_level_progress(1), Some(LevelProgress::Completed));
    // A slower run is no record and saves no replay.
    s.events.clear();
    s.fx = Some(FxInfo { level_number: 1, is_preview: false, attempts: 2, time: 900, steps: 50, bonks: 0, game_over: None });
    let actions = s.handle_fx_event(FxEvent::LevelComplete);
    assert_eq!(actions.len(), 2);
    assert!(s.events.is_empty());
    assert_eq!(s.save_data.get_time_high_score(1), 600);
}

#[test]
fn fx_events() {
    let mut s = state();
    assert!(s.handle_fx_event(FxEvent::PauseGame).is_empty());
    s.fx = Some(FxInfo { level_number: 2, is_preview: false, attempts: 3, time: 1, steps: 2, bonks: 3, game_over: Some(GameOverReason::Burned) });
    assert_eq!(s.handle_fx_event(FxEvent::PauseGame), vec![PlayAction::OpenPauseMenu { has_warp: false, level_number: 2 }]);
    assert_eq!(s.handle_fx_event(FxEvent::GameOver), vec![PlayAction::OpenGameOver {
        reason: Some(GameOverReason::Burned),
        has_warp: false,
        level_number: 2,
        attempts: 3,
        time: 1,
        steps: 2,
        bonks: 3,
    }]);
    s.handle_fx_event(FxEvent::PlaySound(SoundFx::Game(7)));
    assert!(s.events.is_empty());
    s.save_data.options.sound_effects = true;
    s.handle_fx_event(FxEvent::PlaySound(SoundFx::Game(7)));
    assert_eq!(s.events, vec![PlayEvent::PlaySound { sound: SoundFx::Game(7) }]);
    assert_eq!(s.handle_fx_event(FxEvent::ResumePlay), vec![PlayAction::CloseAllMenus]);
}

#[test]
fn loading_a_level_set() {
    let mut s = state();
    s.lvsets.selected = -1;
    assert_eq!(s.handle_menu_event(MenuEvent::LoadLevelSet { index: 0 }), vec![PlayAction::ReadSaveFile]);
    let dto = SaveFileDto {
        current_level: Some(String::from("Two")),
        unlocked_levels: vec![String::from("One"), String::from("Two")],
        completed_levels: vec![String::from("One")],
        high_scores: HighScoresDto { ticks: vec![(String::from("One"), 100)], steps: Vec::new(), attempts: Vec::new() },
        options: OptionsDto::default(),
    };
    let actions = s.load_level_set(Some(&dto));
    assert_eq!(actions, vec![PlayAction::WriteSaveFile, PlayAction::OpenMainMenu { is_continue: true }]);
    assert_eq!(s.save_data.current_level, 2);
    assert_eq!(s.save_data.get_time_high_score(1), 100);
    assert_eq!(s.events, vec![PlayEvent::SetTitle, PlayEvent::PlayMusic { music: None }]);
}

#[test]
fn toggling_music() {
    let mut s = state();
    assert_eq!(s.toggle_music(), vec![PlayAction::WriteSaveFile]);
    assert_eq!(s.events, vec![PlayEvent::PlayMusic { music: Some(MusicId::MenuMusic) }]);
    s.lvsets.selected = -1;
    assert!(s.toggle_music().is_empty());
}

#[test]
fn save_round_trip() {
    let set = level_set();
    let mut sd = SaveData::load_refactored(&set, None);
    sd.complete_level(1, Some(Scores { ticks: 10, steps: 5 }));
    let dto = sd.save_dto(&set);
    let back = SaveData::load_refactored(&set, Some(&dto));
    assert_eq!(back.unlocked_levels, sd.unlocked_levels);
    assert_eq!(back.completed_levels, sd.completed_levels);
    assert_eq!(back.current_level, sd.current_level);
    assert_eq!(back.high_scores.ticks, sd.high_scores.ticks);
    assert_eq!(back.high_scores.steps, sd.high_scores.steps);
}

fn named_set(name: &str, title: &str) -> LevelSet {
    LevelSet { name: name.to_string(), title: title.to_string(), about: None, splash: None, levels: Vec::new() }
}

#[test]
fn names_compare_in_byte_order() {
    let s = |x: &str| x.to_string();
    assert!(name_lt(&s("Alpha"), &s("Beta")));
    assert!(!name_lt(&s("Beta"), &s("Alpha")));
    assert!(name_lt(&s("CC"), &s("CCLP1")));
    assert!(!name_lt(&s("CCLP1"), &s("CC")));
    assert!(name_lt(&s("Zeta"), &s("alpha")));
    assert!(!name_lt(&s("same"), &s("same")));
    assert!(name_lt(&s(""), &s("a")));
    assert!(name_lt(&s("z"), &s("\u{e9}")));
}

#[test]
fn level_sets_sort_by_name() {
    let mut sets = vec![
        named_set("cclp2", "first"),
        named_set("CCLP1", "a"),
        named_set("cclp2", "second"),
        named_set("Beginner", "b"),
    ];
    sort_by_name(&mut sets);
    let names: Vec<&str> = sets.iter().map(|s| s.name.as_str()).collect();
    assert_eq!(names, vec!["Beginner", "CCLP1", "cclp2", "cclp2"]);
    assert_eq!(sets[2].title, "first");
    assert_eq!(sets[3].title, "second");
    let mut empty: Vec<LevelSet> = Vec::new();
    sort_by_name(&mut empty);
    assert!(empty.is_empty());
}

#[test]
fn about_lines_are_joined() {
    let lines = vec![String::from("Welcome"), String::from(""), String::from("Have fun")];
    assert_eq!(join_lines(&lines), "Welcome\n\nHave fun");
    assert_eq!(join_lines(&vec![String::from("One")]), "One");
    assert_eq!(join_lines(&Vec::new()), "");
}
