use vstd::prelude::*;
use crate::menu::event::MenuEvent;
use crate::menu::input::{Input, cursor_after, cursor_events, move_cursor, emit_if};

verus! {

/// The menu shown while a level is paused; warping back is offered only
/// once a warp point was set.
pub struct PauseMenu {
    pub selected: u8,
    pub has_warp: bool,
    pub level_number: i32,
    pub level_name: String,
}

/// Number of entries of the pause menu.
pub open spec fn pause_count(has_warp: bool) -> int {
    if has_warp { 6 } else { 5 }
}

/// The event entry `i` of the pause menu sends: resume, set warp point,
/// warp back (only with a warp point), restart, options, main menu.
pub open spec fn pause_entry(has_warp: bool, i: int) -> Option<MenuEvent> {
    if i == 0 {
        Some(MenuEvent::ResumePlay)
    } else if i == 1 {
        Some(MenuEvent::SaveState)
    } else if has_warp && i == 2 {
        Some(MenuEvent::LoadState)
    } else {
        let j = if has_warp { i - 1 } else { i };
        if j == 2 {
            Some(MenuEvent::RestartLevel)
        } else if j == 3 {
            Some(MenuEvent::OpenOptions)
        } else if j == 4 {
            Some(MenuEvent::OpenMainMenu)
        } else {
            None
        }
    }
}

/// The entry A chooses: the one under the cursor, if the cursor is on one.
pub open spec fn pause_choice(sel: int, has_warp: bool, input: Input) -> Seq<MenuEvent> {
    emit_if(
        input.a.spec_is_pressed(),
        match pause_entry(has_warp, sel) {
            Some(e) => seq![e, MenuEvent::CursorSelect],
            None => seq![MenuEvent::CursorSelect],
        },
    )
}

/// The event of entry `i` of the pause menu, if there is one.
fn pause_item(has_warp: bool, i: u8) -> (r: Option<MenuEvent>)
    ensures
        r == pause_entry(has_warp, i as int),
{
    if has_warp {
        match i {
            0 => Some(MenuEvent::ResumePlay),
            1 => Some(MenuEvent::SaveState),
            2 => Some(MenuEvent::LoadState),
            3 => Some(MenuEvent::RestartLevel),
            4 => Some(MenuEvent::OpenOptions),
            5 => Some(MenuEvent::OpenMainMenu),
            _ => None,
        }
    } else {
        match i {
            0 => Some(MenuEvent::ResumePlay),
            1 => Some(MenuEvent::SaveState),
            2 => Some(MenuEvent::RestartLevel),
            3 => Some(MenuEvent::OpenOptions),
            4 => Some(MenuEvent::OpenMainMenu),
            _ => None,
        }
    }
}

impl PauseMenu {
    /// Moves the cursor, chooses an entry, resumes or starts scouting.
    #[verifier::rlimit(40)]
    pub fn think(&mut self, input: &Input, events: &mut Vec<MenuEvent>)
        ensures
            final(self).selected == cursor_after(
                old(self).selected as int,
                pause_count(old(self).has_warp),
                *input,
            ),
            final(self).has_warp == old(self).has_warp,
            final(self).level_number == old(self).level_number,
            final(self).level_name == old(self).level_name,
            ({
                let sel0 = old(self).selected as int;
                let count = pause_count(old(self).has_warp);
                final(events)@ == old(events)@ + cursor_events(sel0, count, *input) + pause_choice(
                    cursor_after(sel0, count, *input),
                    old(self).has_warp,
                    *input,
                ) + emit_if(input.b.spec_is_pressed() || input.start.spec_is_pressed(), seq![MenuEvent::ResumePlay])
                    + emit_if(input.select.spec_is_pressed(), seq![MenuEvent::CloseMenu, MenuEvent::OpenScoutMode])
            }),
    {
        let ghost e0 = events@;
        let count: u8 = if self.has_warp { 6 } else { 5 };
        move_cursor(&mut self.selected, count, input, events);
        let ghost e1 = events@;
        if input.a.is_pressed() {
            if let Some(event) = pause_item(self.has_warp, self.selected) {
                events.push(event);
            }
            events.push(MenuEvent::CursorSelect);
        }
        assert(events@ =~= e1 + pause_choice(self.selected as int, self.has_warp, *input));
        let ghost e2 = events@;
        if input.b.is_pressed() || input.start.is_pressed() {
            events.push(MenuEvent::ResumePlay);
        }
        assert(events@ =~= e2 + emit_if(input.b.spec_is_pressed() || input.start.spec_is_pressed(), seq![MenuEvent::ResumePlay]));
        let ghost e3 = events@;
        if input.select.is_pressed() {
            events.push(MenuEvent::CloseMenu);
            events.push(MenuEvent::OpenScoutMode);
        }
        assert(events@ =~= e3 + emit_if(input.select.spec_is_pressed(), seq![MenuEvent::CloseMenu, MenuEvent::OpenScoutMode]));
    }
}

/// The labels of the pause menu's entries, in order; "Warp Back" only
/// with a warp point.
pub open spec fn pause_labels(has_warp: bool) -> Seq<Seq<char>> {
    if has_warp {
        seq!["Resume"@, "Set Warp Point"@, "Warp Back"@, "Restart"@, "Options"@, "Main Menu"@]
    } else {
        seq!["Resume"@, "Set Warp Point"@, "Restart"@, "Options"@, "Main Menu"@]
    }
}

impl PauseMenu {
    /// The labels of the entries, in order.
    pub fn labels(&self) -> (r: Vec<&'static str>)
        ensures
            r@.map_values(|l: &str| l@) == pause_labels(self.has_warp),
            r@.len() == pause_count(self.has_warp),
    {
        let r = if self.has_warp {
            vec!["Resume", "Set Warp Point", "Warp Back", "Restart", "Options", "Main Menu"]
        } else {
            vec!["Resume", "Set Warp Point", "Restart", "Options", "Main Menu"]
        };
        assert(r@.map_values(|l: &str| l@) =~= pause_labels(self.has_warp));
        r
    }
}

} // verus!
