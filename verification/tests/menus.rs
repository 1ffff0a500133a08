use chipgame::fx::handlers::GameOverReason;
use chipgame::menu::about::AboutMenu;
use chipgame::menu::event::MenuEvent;
use chipgame::menu::gameover::GameOverMenu;
use chipgame::menu::gamewin::GameWinMenu;
use chipgame::menu::input::{Input, KeyState};
use chipgame::menu::levelselect::{LevelSelectMenu, clip_offset};
use chipgame::menu::levelset::LevelSetMenu;
use chipgame::menu::main::MainMenu;
use chipgame::menu::options::OptionsMenu;
use chipgame::menu::pause::PauseMenu;
use chipgame::menu::scorecard::{DrawMenuItems, DrawPlayTitle, DrawScoreCard, DrawTrophyValues, Trophy};
use chipgame::menu::scout::ScoutMode;
use chipgame::menu::unlocklevel::{UnlockLevelMenu, lookup};
use chipgame::menu::text::push_decimal;
use chipgame::play::lvsets::{LevelEntry, LevelSet, LevelSets, TrophyValues};
use chipgame::play::savedata::SaveData;
use chipgame::play::savedata::OptionsDto;

fn idle() -> Input {
    Input {
        a: KeyState::Up,
        b: KeyState::Up,
        up: KeyState::Up,
        down: KeyState::Up,
        left: KeyState::Up,
        right: KeyState::Up,
        start: KeyState::Up,
        select: KeyState::Up,
    }
}

#[test]
fn key_states() {
    assert_eq!(KeyState::w(false, true), KeyState::Pressed);
    assert_eq!(KeyState::w(true, true), KeyState::Down);
    assert_eq!(KeyState::w(true, false), KeyState::Released);
    assert_eq!(KeyState::w(false, false), KeyState::Up);
    assert!(KeyState::Pressed.is_pressed() && KeyState::Pressed.is_held());
    assert!(!KeyState::Down.is_pressed() && KeyState::Down.is_held());
    assert!(!KeyState::Released.is_held());
}

#[test]
fn main_menu_moves_and_chooses() {
    let mut m = MainMenu { title: String::from("Set"), selected: 0 };
    let mut events = Vec::new();
    m.think(&Input { up: KeyState::Pressed, ..idle() }, &mut events);
    assert_eq!(m.selected, 0);
    assert!(events.is_empty());
    m.think(&Input { down: KeyState::Pressed, ..idle() }, &mut events);
    m.think(&Input { down: KeyState::Pressed, a: KeyState::Pressed, ..idle() }, &mut events);
    assert_eq!(m.selected, 2);
    assert_eq!(events, vec![MenuEvent::CursorMove, MenuEvent::CursorMove, MenuEvent::OpenGoToLevel, MenuEvent::CursorSelect]);
    m.selected = 5;
    events.clear();
    m.think(&Input { down: KeyState::Pressed, start: KeyState::Pressed, ..idle() }, &mut events);
    assert_eq!(events, vec![MenuEvent::ExitGame, MenuEvent::CursorSelect]);
}

#[test]
fn pause_menu_entries_depend_on_warp() {
    let mut with = PauseMenu { selected: 2, has_warp: true, level_number: 3, level_name: String::new() };
    let mut events = Vec::new();
    with.think(&Input { a: KeyState::Pressed, ..idle() }, &mut events);
    assert_eq!(events, vec![MenuEvent::LoadState, MenuEvent::CursorSelect]);
    let mut without = PauseMenu { selected: 2, has_warp: false, level_number: 3, level_name: String::new() };
    events.clear();
    without.think(&Input { a: KeyState::Pressed, ..idle() }, &mut events);
    assert_eq!(events, vec![MenuEvent::RestartLevel, MenuEvent::CursorSelect]);
    events.clear();
    without.selected = 4;
    without.think(&Input { down: KeyState::Pressed, b: KeyState::Pressed, select: KeyState::Pressed, ..idle() }, &mut events);
    assert_eq!(without.selected, 4);
    assert_eq!(events, vec![MenuEvent::ResumePlay, MenuEvent::CloseMenu, MenuEvent::OpenScoutMode]);
}

#[test]
fn game_over_and_win_menus() {
    let mut over = GameOverMenu {
        selected: 0,
        reason: None,
        has_warp: false,
        level_number: 1,
        level_name: String::new(),
        attempts: 1,
        time: 0,
        steps: 0,
        bonks: 0,
    };
    let mut events = Vec::new();
    over.think(&Input { start: KeyState::Pressed, ..idle() }, &mut events);
    assert_eq!(events, vec![MenuEvent::RetryLevel, MenuEvent::CursorSelect]);
    let mut win = GameWinMenu {
        selected: 1,
        level_number: 1,
        level_name: String::new(),
        attempts: 1,
        time: 0,
        steps: 0,
        bonks: 0,
        time_high_score: -1,
        steps_high_score: -1,
    };
    events.clear();
    win.think(&Input { down: KeyState::Pressed, a: KeyState::Pressed, ..idle() }, &mut events);
    assert_eq!(events, vec![MenuEvent::CursorMove, MenuEvent::SaveReplay, MenuEvent::CursorSelect]);
    events.clear();
    win.think(&Input { start: KeyState::Pressed, ..idle() }, &mut events);
    assert!(events.is_empty());
}

#[test]
fn about_closes() {
    let mut about = AboutMenu { text: String::from("hi") };
    let mut events = Vec::new();
    about.think(&idle(), &mut events);
    assert!(events.is_empty());
    about.think(&Input { a: KeyState::Pressed, b: KeyState::Pressed, ..idle() }, &mut events);
    assert_eq!(events, vec![MenuEvent::CloseMenu]);
}

#[test]
fn scout_reports_held_directions() {
    let mut scout = ScoutMode::default();
    let mut events = Vec::new();
    scout.think(&Input { up: KeyState::Down, right: KeyState::Pressed, start: KeyState::Pressed, ..idle() }, &mut events);
    assert!(scout.up && scout.right && !scout.down && !scout.left);
    assert_eq!(events, vec![MenuEvent::CloseMenu, MenuEvent::OpenPauseMenu, MenuEvent::ScoutN, MenuEvent::ScoutE]);
}

#[test]
fn level_set_menu() {
    let mut m = LevelSetMenu { selected: 1, items: vec![String::from("A"), String::from("B")] };
    let mut events = Vec::new();
    m.think(&Input { down: KeyState::Pressed, a: KeyState::Pressed, ..idle() }, &mut events);
    assert_eq!(events, vec![MenuEvent::LoadLevelSet { index: 1 }, MenuEvent::CursorSelect]);
}

#[test]
fn options_flip_switches() {
    let mut m = OptionsMenu { selected: 1, options: OptionsDto::default() };
    let mut events = Vec::new();
    m.think(&Input { a: KeyState::Pressed, ..idle() }, &mut events);
    assert!(m.options.sound_effects);
    assert_eq!(events, vec![MenuEvent::SetSoundEffects { value: true }, MenuEvent::CursorSelect]);
    events.clear();
    m.selected = 8;
    m.think(&Input { down: KeyState::Pressed, a: KeyState::Pressed, ..idle() }, &mut events);
    assert_eq!(events, vec![MenuEvent::CloseMenu, MenuEvent::CursorSelect]);
    events.clear();
    m.think(&Input { start: KeyState::Pressed, b: KeyState::Pressed, ..idle() }, &mut events);
    assert_eq!(events, vec![MenuEvent::ResumePlay, MenuEvent::CloseMenu]);
}

#[test]
fn unlock_level_keyboard() {
    assert_eq!(lookup(b'Q'), 0);
    assert_eq!(lookup(b'A'), 10);
    assert_eq!(lookup(b'M'), 25);
    let mut m = UnlockLevelMenu { selected: 0, password: [None; 4] };
    let mut events = Vec::new();
    // Q -> down A -> right S -> ... type C H I P
    m.selected = lookup(b'C') as i8;
    m.think(&Input { a: KeyState::Pressed, ..idle() }, &mut events);
    m.selected = lookup(b'H') as i8;
    m.think(&Input { a: KeyState::Pressed, ..idle() }, &mut events);
    m.selected = lookup(b'I') as i8;
    m.think(&Input { a: KeyState::Pressed, ..idle() }, &mut events);
    m.selected = lookup(b'O') as i8;
    m.think(&Input { right: KeyState::Pressed, a: KeyState::Pressed, start: KeyState::Pressed, ..idle() }, &mut events);
    assert_eq!(m.selected, lookup(b'P') as i8);
    assert_eq!(m.password, [Some('C'), Some('H'), Some('I'), Some('P')]);
    assert_eq!(events, vec![MenuEvent::EnterPassword { code: *b"CHIP" }]);
    events.clear();
    m.think(&Input { b: KeyState::Pressed, ..idle() }, &mut events);
    assert_eq!(m.password, [Some('C'), Some('H'), Some('I'), None]);
    let mut empty = UnlockLevelMenu { selected: 0, password: [None; 4] };
    empty.think(&Input { b: KeyState::Pressed, ..idle() }, &mut events);
    assert_eq!(events, vec![MenuEvent::CloseMenu]);
}

#[test]
fn unlock_level_cursor_moves() {
    let mut m = UnlockLevelMenu { selected: lookup(b'P') as i8, password: [None; 4] };
    let mut events = Vec::new();
    m.think(&Input { down: KeyState::Pressed, ..idle() }, &mut events);
    assert_eq!(m.selected, lookup(b'L') as i8);
    m.think(&Input { up: KeyState::Pressed, ..idle() }, &mut events);
    assert_eq!(m.selected, lookup(b'O') as i8);
    m.selected = lookup(b'Q') as i8;
    m.think(&Input { up: KeyState::Pressed, left: KeyState::Pressed, ..idle() }, &mut events);
    assert_eq!(m.selected, lookup(b'P') as i8);
    m.selected = lookup(b'M') as i8;
    m.think(&Input { right: KeyState::Pressed, ..idle() }, &mut events);
    assert_eq!(m.selected, lookup(b'Z') as i8);
    assert!(events.is_empty());
}

#[test]
fn level_list_scrolls() {
    assert_eq!(clip_offset(-3, 20), 0);
    assert_eq!(clip_offset(10, 20), 6);
    assert_eq!(clip_offset(3, 20), 3);
    assert_eq!(clip_offset(3, 5), 0);
    let items: Vec<(i32, String)> = (0..30).map(|i| (i, format!("Level {}", i))).collect();
    let mut m = LevelSelectMenu { selected: 0, offset: 0, items };
    let mut events = Vec::new();
    m.think(&Input { right: KeyState::Pressed, ..idle() }, &mut events);
    assert_eq!(m.selected, 10);
    assert_eq!(m.offset, 0);
    assert_eq!(events, vec![MenuEvent::CursorMove, MenuEvent::PreviewLevel { level_number: 10 }]);
    events.clear();
    m.think(&Input { right: KeyState::Pressed, ..idle() }, &mut events);
    assert_eq!(m.selected, 20);
    assert_eq!(m.offset, 8);
    m.think(&Input { right: KeyState::Pressed, ..idle() }, &mut events);
    assert_eq!(m.selected, 29);
    assert_eq!(m.offset, 16);
    events.clear();
    m.think(&Input { a: KeyState::Pressed, ..idle() }, &mut events);
    assert_eq!(events, vec![MenuEvent::PlayLevel { level_number: 29 }, MenuEvent::CursorSelect]);
    m.selected = 0;
    events.clear();
    m.think(&Input { up: KeyState::Pressed, start: KeyState::Pressed, ..idle() }, &mut events);
    assert_eq!(events, vec![MenuEvent::OpenUnlockLevel, MenuEvent::CursorSelect]);
}

#[test]
fn score_card_time() {
    let card = DrawScoreCard { attempts: 1, time: 3 * 3600 + 25 * 60 + 7, steps: 0, bonks: 0 };
    assert_eq!(card.time_parts(), (3, 25, 7));
    let short = DrawScoreCard { attempts: 1, time: 59, steps: 0, bonks: 0 };
    assert_eq!(short.time_parts(), (0, 0, 59));
}

#[test]
fn trophies() {
    let v = TrophyValues { author: 100, gold: 200, silver: 300, bronze: 400 };
    let t = DrawTrophyValues::new(250, Some(&v));
    assert_eq!(t.trophy, Some(Trophy::Silver));
    assert_eq!(t.next, Some((Trophy::Gold, 200)));
    let best = DrawTrophyValues::new(90, Some(&v));
    assert_eq!(best.trophy, Some(Trophy::Author));
    assert_eq!(best.next, None);
    let slow = DrawTrophyValues::new(500, Some(&v));
    assert_eq!(slow.trophy, None);
    assert_eq!(slow.next, Some((Trophy::Bronze, 400)));
    let none = DrawTrophyValues::new(-1, Some(&v));
    assert_eq!(none.trophy, None);
    let no_values = DrawTrophyValues::new(10, None);
    assert_eq!((no_values.trophy, no_values.next), (None, None));
    let skip_gold = TrophyValues { author: 100, gold: -1, silver: 300, bronze: 400 };
    assert_eq!(DrawTrophyValues::new(150, Some(&skip_gold)).trophy, Some(Trophy::Silver));
}

#[test]
fn menu_item_brightness() {
    let items = DrawMenuItems { items_text: vec![String::from("a"), String::from("b")], selected_index: 1 };
    assert_eq!(items.item_brightness(1), 255);
    assert_eq!(items.item_brightness(0), 128);
}

#[test]
fn decimal_numbers() {
    let mut s = String::from("n=");
    push_decimal(&mut s, 0);
    assert_eq!(s, "n=0");
    let mut s = String::new();
    push_decimal(&mut s, 1207);
    assert_eq!(s, "1207");
    let mut s = String::new();
    push_decimal(&mut s, u32::MAX);
    assert_eq!(s, "4294967295");
}

#[test]
fn level_select_lists_unlocked_levels() {
    let names = ["LESSON 1", "LESSON 2", "NUTS AND BOLTS", "BRUSHFIRE"];
    let set = LevelSet {
        name: String::from("cc1"),
        title: String::from("Chip's Challenge"),
        about: None,
        splash: None,
        levels: names.iter().map(|n| LevelEntry { name: n.to_string(), password: None, trophies: None }).collect(),
    };
    let mut sd = SaveData::load_refactored(&set, None);
    sd.unlocked_levels = vec![true, false, true, true];
    sd.current_level = 3;
    let mut m = LevelSelectMenu { selected: 0, offset: 0, items: Vec::new() };
    m.load_items(&set, &sd);
    let items: Vec<(i32, &str)> = m.items.iter().map(|(n, s)| (*n, s.as_str())).collect();
    assert_eq!(items, vec![
        (0, "Unlock level"),
        (1, "Level 1: LESSON 1"),
        (3, "Level 3: NUTS AND BOLTS"),
        (4, "Level 4: BRUSHFIRE"),
    ]);
    assert_eq!(m.selected, 2);
    assert_eq!(m.offset, 0);
    sd.current_level = 2;
    let mut m = LevelSelectMenu { selected: 0, offset: 0, items: Vec::new() };
    m.load_items(&set, &sd);
    assert_eq!(m.selected, 0);
}

#[test]
fn launch_menu_lists_level_set_titles() {
    let set = |name: &str, title: &str| LevelSet {
        name: name.to_string(),
        title: title.to_string(),
        about: None,
        splash: None,
        levels: Vec::new(),
    };
    let mut sets = LevelSets { selected: -1, collection: Vec::new() };
    assert!(LevelSetMenu::launch_menu(&sets).is_none());
    sets.collection.push(set("cc1", "Chip's Challenge"));
    sets.collection.push(set("cclp1", "Chip's Challenge Level Pack 1"));
    let m = LevelSetMenu::launch_menu(&sets).unwrap();
    assert_eq!(m.selected, 0);
    assert_eq!(m.items, vec![String::from("Chip's Challenge"), String::from("Chip's Challenge Level Pack 1")]);
    sets.selected = 1;
    assert_eq!(LevelSetMenu::launch_menu(&sets).unwrap().selected, 1);
}

#[test]
fn score_card_time_parts_round_toward_zero() {
    let card = |time: i32| DrawScoreCard { attempts: 1, time, steps: 0, bonks: 0 };
    assert_eq!(card(3725).time_parts(), (1, 2, 5));
    assert_eq!(card(-61).time_parts(), (0, -1, -1));
    assert_eq!(card(-3725).time_parts(), (-1, -2, -5));
    assert_eq!(card(i32::MIN).time_parts(), (i32::MIN / 3600, (i32::MIN / 60) % 60, i32::MIN % 60));
}

#[test]
fn options_menu_labels() {
    let mut options = OptionsDto::default();
    options.sound_effects = true;
    options.developer_mode = true;
    let menu = OptionsMenu { selected: 0, options };
    let labels = menu.item_labels();
    assert_eq!(labels.len(), 9);
    assert_eq!(labels[0], "Background music: \x1b[color=#f00]OFF");
    assert_eq!(labels[1], "Sound effects: \x1b[color=#0f0]ON");
    assert_eq!(labels[5], "Auto save replays: \x1b[color=#f00]OFF");
    assert_eq!(labels[7], "Developer mode: \x1b[color=#0f0]ON");
    assert_eq!(labels[8], "Back");
}

#[test]
fn score_card_text_lines() {
    let card = DrawScoreCard { attempts: 3, time: 3725, steps: 120, bonks: 2 };
    assert_eq!(card.text(), "3\n1:02.05\n120\n2");
    let card = DrawScoreCard { attempts: 1, time: 725, steps: 9, bonks: 0 };
    assert_eq!(card.text(), "1\n12.05\n9\n0");
    let card = DrawScoreCard { attempts: 12, time: 59, steps: -1, bonks: 10 };
    assert_eq!(card.text(), "12\n0.59\n-1\n10");
    let card = DrawScoreCard { attempts: 1, time: -61, steps: 0, bonks: 0 };
    assert_eq!(card.text(), "1\n-1.-1\n0\n0");
    assert_eq!(card.text(), format!("{}\n{}.{:02}\n{}\n{}", 1, -61 / 60 % 60, -61 % 60, 0, 0));
}

#[test]
fn game_over_messages() {
    let menu = |reason| GameOverMenu {
        selected: 0,
        reason,
        has_warp: false,
        level_number: 1,
        level_name: String::new(),
        attempts: 1,
        time: 0,
        steps: 0,
        bonks: 0,
    };
    assert_eq!(menu(Some(GameOverReason::Drowned)).message(), "Ooops! Chip can't swim without flippers!");
    assert_eq!(menu(Some(GameOverReason::TimeOut)).message(), "Ooops! Out of time!");
    assert_eq!(menu(Some(GameOverReason::Eaten)).message(), "Ooops! Look out for creatures!");
    assert_eq!(menu(None).message(), "Game Over!");
    assert_eq!(menu(Some(GameOverReason::LevelComplete)).message(), "Game Over!");
}

#[test]
fn pause_menu_labels_follow_the_warp_point() {
    let mut p = PauseMenu { selected: 0, has_warp: false, level_number: 3, level_name: String::from("x") };
    assert_eq!(p.labels(), vec!["Resume", "Set Warp Point", "Restart", "Options", "Main Menu"]);
    p.has_warp = true;
    assert_eq!(p.labels(), vec!["Resume", "Set Warp Point", "Warp Back", "Restart", "Options", "Main Menu"]);
}

#[test]
fn play_title_lines() {
    let t = DrawPlayTitle { level_number: 7, level_name: String::from("LESSON 7"), subtitle: None };
    assert_eq!(t.lines(), vec![String::from("~ Level 7 ~"), String::from("\x1b[color=#ff0]LESSON 7")]);
    let t = DrawPlayTitle {
        level_number: 12,
        level_name: String::from("CASTLE"),
        subtitle: Some(String::from("\x1b[color=#f08]Level Complete!")),
    };
    assert_eq!(t.lines()[0], "~ Level 12 ~");
    assert_eq!(t.lines()[2], "\x1b[color=#f08]Level Complete!");
}
