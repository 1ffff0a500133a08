use vstd::prelude::*;
use crate::menu::event::MenuEvent;
use crate::menu::input::{Input, emit_if};

verus! {

/// Scouting the level: which directions are held.
#[derive(Copy, Clone, Debug, PartialEq, Eq, Structural)]
pub struct ScoutMode {
    pub up: bool,
    pub down: bool,
    pub left: bool,
    pub right: bool,
}

impl ScoutMode {
    /// Nothing held.
    pub fn default() -> (r: ScoutMode)
        ensures
            !r.up && !r.down && !r.left && !r.right,
    {
        ScoutMode { up: false, down: false, left: false, right: false }
    }
}

impl ScoutMode {
    /// A frame of scouting: select resumes play, start goes to the pause
    /// menu, and the camera moves for each held direction, north, south,
    /// west, east.
    pub fn think(&mut self, input: &Input, events: &mut Vec<MenuEvent>)
        ensures
            *final(self) == (ScoutMode {
                up: input.up.spec_is_held(),
                down: input.down.spec_is_held(),
                left: input.left.spec_is_held(),
                right: input.right.spec_is_held(),
            }),
            final(events)@ == old(events)@
                + emit_if(input.select.spec_is_pressed(), seq![MenuEvent::ResumePlay])
                + emit_if(input.start.spec_is_pressed(), seq![MenuEvent::CloseMenu, MenuEvent::OpenPauseMenu])
                + emit_if(input.up.spec_is_held(), seq![MenuEvent::ScoutN])
                + emit_if(input.down.spec_is_held(), seq![MenuEvent::ScoutS])
                + emit_if(input.left.spec_is_held(), seq![MenuEvent::ScoutW])
                + emit_if(input.right.spec_is_held(), seq![MenuEvent::ScoutE]),
    {
        let ghost e0 = events@;
        if input.select.is_pressed() {
            events.push(MenuEvent::ResumePlay);
        }
        assert(events@ =~= e0 + emit_if(input.select.spec_is_pressed(), seq![MenuEvent::ResumePlay]));
        let ghost e1 = events@;
        if input.start.is_pressed() {
            events.push(MenuEvent::CloseMenu);
            events.push(MenuEvent::OpenPauseMenu);
        }
        assert(events@ =~= e1 + emit_if(input.start.spec_is_pressed(), seq![MenuEvent::CloseMenu, MenuEvent::OpenPauseMenu]));
        let ghost e2 = events@;

        self.up = input.up.is_held();
        self.down = input.down.is_held();
        self.left = input.left.is_held();
        self.right = input.right.is_held();

        if self.up {
            events.push(MenuEvent::ScoutN);
        }
        assert(events@ =~= e2 + emit_if(input.up.spec_is_held(), seq![MenuEvent::ScoutN]));
        let ghost e3 = events@;
        if self.down {
            events.push(MenuEvent::ScoutS);
        }
        assert(events@ =~= e3 + emit_if(input.down.spec_is_held(), seq![MenuEvent::ScoutS]));
        let ghost e4 = events@;
        if self.left {
            events.push(MenuEvent::ScoutW);
        }
        assert(events@ =~= e4 + emit_if(input.left.spec_is_held(), seq![MenuEvent::ScoutW]));
        let ghost e5 = events@;
        if self.right {
            events.push(MenuEvent::ScoutE);
        }
        assert(events@ =~= e5 + emit_if(input.right.spec_is_held(), seq![MenuEvent::ScoutE]));
    }
}

} // verus!
