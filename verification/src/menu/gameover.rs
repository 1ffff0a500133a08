use vstd::prelude::*;
use crate::fx::handlers::GameOverReason;
use crate::menu::event::MenuEvent;
use crate::menu::input::{Input, cursor_after, cursor_events, move_cursor};

verus! {

/// The menu shown when a level is lost.
pub struct GameOverMenu {
    pub selected: u8,
    pub reason: Option<GameOverReason>,
    pub has_warp: bool,
    pub level_number: i32,
    pub level_name: String,
    pub attempts: i32,
    pub time: i32,
    pub steps: i32,
    pub bonks: i32,
}

/// Number of entries: retry, main menu.
pub const GAME_OVER_ITEMS: u8 = 2;

/// A frame of the game over menu: retry or go to the main menu, with A or
/// start, after the cursor moved.
pub open spec fn game_over_events(selected: int, input: Input) -> Seq<MenuEvent> {
    let sel = cursor_after(selected, GAME_OVER_ITEMS as int, input);
    cursor_events(selected, GAME_OVER_ITEMS as int, input) + if input.a.spec_is_pressed()
        || input.start.spec_is_pressed() {
        seq![if sel == 0 { MenuEvent::RetryLevel } else { MenuEvent::OpenMainMenu }, MenuEvent::CursorSelect]
    } else {
        Seq::empty()
    }
}

impl GameOverMenu {
    /// Moves the cursor and chooses an entry.
    pub fn think(&mut self, input: &Input, events: &mut Vec<MenuEvent>)
        ensures
            final(self).selected == cursor_after(old(self).selected as int, GAME_OVER_ITEMS as int, *input),
            final(self).level_name == old(self).level_name,
            final(events)@ == old(events)@ + game_over_events(old(self).selected as int, *input),
    {
        let ghost e0 = events@;
        move_cursor(&mut self.selected, GAME_OVER_ITEMS, input, events);
        if input.a.is_pressed() || input.start.is_pressed() {
            let evt = match self.selected {
                0 => MenuEvent::RetryLevel,
                _ => MenuEvent::OpenMainMenu,
            };
            events.push(evt);
            events.push(MenuEvent::CursorSelect);
        }
        assert(events@ =~= e0 + game_over_events(old(self).selected as int, *input));
    }
}

/// The line under the title telling why the level was lost.
pub open spec fn game_over_message(reason: Option<GameOverReason>) -> Seq<char> {
    match reason {
        Some(GameOverReason::Drowned) => "Ooops! Chip can't swim without flippers!"@,
        Some(GameOverReason::Burned) => "Ooops! Don't step in the fire without fire boots!"@,
        Some(GameOverReason::Bombed) => "Ooops! Don't touch the bombs!"@,
        Some(GameOverReason::TimeOut) => "Ooops! Out of time!"@,
        Some(GameOverReason::Collided) => "Ooops! Watch out for moving blocks!"@,
        Some(GameOverReason::Eaten) => "Ooops! Look out for creatures!"@,
        Some(GameOverReason::NotOkay) => "Ooops! You're not okay!"@,
        _ => "Game Over!"@,
    }
}

impl GameOverMenu {
    /// The line under the title telling why the level was lost.
    pub fn message(&self) -> (r: &'static str)
        ensures
            r@ == game_over_message(self.reason),
    {
        match self.reason {
            Some(GameOverReason::Drowned) => "Ooops! Chip can't swim without flippers!",
            Some(GameOverReason::Burned) => "Ooops! Don't step in the fire without fire boots!",
            Some(GameOverReason::Bombed) => "Ooops! Don't touch the bombs!",
            Some(GameOverReason::TimeOut) => "Ooops! Out of time!",
            Some(GameOverReason::Collided) => "Ooops! Watch out for moving blocks!",
            Some(GameOverReason::Eaten) => "Ooops! Look out for creatures!",
            Some(GameOverReason::NotOkay) => "Ooops! You're not okay!",
            _ => "Game Over!",
        }
    }
}

} // verus!
