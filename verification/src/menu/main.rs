use vstd::prelude::*;
use crate::menu::event::MenuEvent;
use crate::menu::input::{Input, cursor_after, cursor_events, move_cursor};

verus! {

/// The main menu of a level set.
pub struct MainMenu {
    pub title: String,
    pub selected: u8,
}

/// Number of entries of the main menu: new game, continue, go to level,
/// options, about, exit.
pub const MAIN_MENU_ITEMS: u8 = 6;

/// What choosing an entry of the main menu asks for.
pub open spec fn main_menu_event(selected: int) -> MenuEvent {
    if selected == 0 {
        MenuEvent::NewGame
    } else if selected == 1 {
        MenuEvent::Continue
    } else if selected == 2 {
        MenuEvent::OpenGoToLevel
    } else if selected == 3 {
        MenuEvent::OpenOptions
    } else if selected == 4 {
        MenuEvent::OpenAbout
    } else {
        MenuEvent::ExitGame
    }
}

/// A frame of the main menu: the entry chosen with A or start, if any,
/// after the cursor moved.
pub open spec fn main_menu_events(selected: int, input: Input) -> Seq<MenuEvent> {
    let sel = cursor_after(selected, MAIN_MENU_ITEMS as int, input);
    cursor_events(selected, MAIN_MENU_ITEMS as int, input) + if input.a.spec_is_pressed()
        || input.start.spec_is_pressed() {
        seq![main_menu_event(sel), MenuEvent::CursorSelect]
    } else {
        Seq::empty()
    }
}

impl MainMenu {
    /// Moves the cursor and chooses an entry.
    pub fn think(&mut self, input: &Input, events: &mut Vec<MenuEvent>)
        ensures
            final(self).title == old(self).title,
            final(self).selected == cursor_after(old(self).selected as int, MAIN_MENU_ITEMS as int, *input),
            final(events)@ == old(events)@ + main_menu_events(old(self).selected as int, *input),
    {
        let ghost e0 = events@;
        move_cursor(&mut self.selected, MAIN_MENU_ITEMS, input, events);
        if input.a.is_pressed() || input.start.is_pressed() {
            let evt = match self.selected {
                0 => MenuEvent::NewGame,
                1 => MenuEvent::Continue,
                2 => MenuEvent::OpenGoToLevel,
                3 => MenuEvent::OpenOptions,
                4 => MenuEvent::OpenAbout,
                _ => MenuEvent::ExitGame,
            };
            events.push(evt);
            events.push(MenuEvent::CursorSelect);
        }
        assert(events@ =~= e0 + main_menu_events(old(self).selected as int, *input));
    }
}

} // verus!
