use vstd::prelude::*;
use crate::menu::event::MenuEvent;
use crate::menu::input::{Input, cursor_after, cursor_events, move_cursor};

verus! {

/// The menu shown when a level is won, with the run's scores and the
/// records they are compared to (-1 where there was none).
pub struct GameWinMenu {
    pub selected: u8,
    pub level_number: i32,
    pub level_name: String,
    pub attempts: i32,
    pub time: i32,
    pub steps: i32,
    pub bonks: i32,
    pub time_high_score: i32,
    pub steps_high_score: i32,
}

/// Number of entries: onward, retry, save replay, main menu.
pub const GAME_WIN_ITEMS: u8 = 4;

/// What choosing an entry of the game win menu asks for.
pub open spec fn game_win_event(selected: int) -> MenuEvent {
    if selected == 0 {
        MenuEvent::PlayNextLevel
    } else if selected == 1 {
        MenuEvent::RetryLevel
    } else if selected == 2 {
        MenuEvent::SaveReplay
    } else {
        MenuEvent::OpenMainMenu
    }
}

/// A frame of the game win menu: the entry chosen with A, if any, after the
/// cursor moved.
pub open spec fn game_win_events(selected: int, input: Input) -> Seq<MenuEvent> {
    let sel = cursor_after(selected, GAME_WIN_ITEMS as int, input);
    cursor_events(selected, GAME_WIN_ITEMS as int, input) + if input.a.spec_is_pressed() {
        seq![game_win_event(sel), MenuEvent::CursorSelect]
    } else {
        Seq::empty()
    }
}

impl GameWinMenu {
    /// Moves the cursor and chooses an entry.
    pub fn think(&mut self, input: &Input, events: &mut Vec<MenuEvent>)
        ensures
            final(self).selected == cursor_after(old(self).selected as int, GAME_WIN_ITEMS as int, *input),
            final(self).level_name == old(self).level_name,
            final(events)@ == old(events)@ + game_win_events(old(self).selected as int, *input),
    {
        let ghost e0 = events@;
        move_cursor(&mut self.selected, GAME_WIN_ITEMS, input, events);
        if input.a.is_pressed() {
            let evt = match self.selected {
                0 => MenuEvent::PlayNextLevel,
                1 => MenuEvent::RetryLevel,
                2 => MenuEvent::SaveReplay,
                _ => MenuEvent::OpenMainMenu,
            };
            events.push(evt);
            events.push(MenuEvent::CursorSelect);
        }
        assert(events@ =~= e0 + game_win_events(old(self).selected as int, *input));
    }
}

} // verus!
