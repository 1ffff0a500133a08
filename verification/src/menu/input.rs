use vstd::prelude::*;
use crate::menu::event::MenuEvent;

verus! {

/// A button's state in one frame, from whether it was held in the last
/// frame and whether it is held now.
#[derive(Copy, Clone, Debug, PartialEq, Eq, Structural)]
pub enum KeyState {
    /// Not held.
    Up,
    /// Held from this frame on.
    Pressed,
    /// Held since an earlier frame.
    Down,
    /// Let go in this frame.
    Released,
}

impl KeyState {
    /// The state of a button held `prev` in the last frame and `cur` now.
    pub fn w(prev: bool, cur: bool) -> (r: KeyState)
        ensures
            r == match (prev, cur) {
                (false, false) => KeyState::Up,
                (false, true) => KeyState::Pressed,
                (true, true) => KeyState::Down,
                (true, false) => KeyState::Released,
            },
    {
        match (prev, cur) {
            (false, false) => KeyState::Up,
            (false, true) => KeyState::Pressed,
            (true, true) => KeyState::Down,
            (true, false) => KeyState::Released,
        }
    }

    /// The button went down in this frame.
    pub open spec fn spec_is_pressed(self) -> bool {
        self == KeyState::Pressed
    }

    /// The button is held.
    pub open spec fn spec_is_held(self) -> bool {
        self == KeyState::Pressed || self == KeyState::Down
    }

    /// The button went down in this frame.
    #[verifier::when_used_as_spec(spec_is_pressed)]
    pub fn is_pressed(self) -> (r: bool)
        ensures
            r == self.spec_is_pressed(),
    {
        matches!(self, KeyState::Pressed)
    }

    /// The button is held.
    #[verifier::when_used_as_spec(spec_is_held)]
    pub fn is_held(self) -> (r: bool)
        ensures
            r == self.spec_is_held(),
    {
        matches!(self, KeyState::Pressed | KeyState::Down)
    }
}

/// A button is held in a frame exactly when it was pressed in that frame or
/// held before and not let go; pressing needs it up the frame before.
pub proof fn law_key_state(prev: bool, cur: bool)
    ensures
        ({
            let k = match (prev, cur) {
                (false, false) => KeyState::Up,
                (false, true) => KeyState::Pressed,
                (true, true) => KeyState::Down,
                (true, false) => KeyState::Released,
            };
            &&& k.spec_is_held() == cur
            &&& k.spec_is_pressed() == (cur && !prev)
        }),
{
}

/// The menu buttons in one frame.
#[derive(Copy, Clone, Debug, PartialEq, Eq, Structural)]
pub struct Input {
    pub a: KeyState,
    pub b: KeyState,
    pub up: KeyState,
    pub down: KeyState,
    pub left: KeyState,
    pub right: KeyState,
    pub start: KeyState,
    pub select: KeyState,
}

/// The events `s` if `c` holds, else none.
pub open spec fn emit_if(c: bool, s: Seq<MenuEvent>) -> Seq<MenuEvent> {
    if c {
        s
    } else {
        Seq::empty()
    }
}

/// The cursor of a list of `count` entries after a frame: up moves it one
/// entry up unless it is at the first, then down one entry down unless it
/// is at the last.
pub open spec fn cursor_after(sel: int, count: int, input: Input) -> int {
    let s1 = if input.up.spec_is_pressed() && sel > 0 { sel - 1 } else { sel };
    if input.down.spec_is_pressed() && s1 < count - 1 { s1 + 1 } else { s1 }
}

/// The sounds the cursor makes in a frame: one move for each step it took.
pub open spec fn cursor_events(sel: int, count: int, input: Input) -> Seq<MenuEvent> {
    let up = input.up.spec_is_pressed() && sel > 0;
    let s1 = if up { sel - 1 } else { sel };
    let down = input.down.spec_is_pressed() && s1 < count - 1;
    (if up { seq![MenuEvent::CursorMove] } else { Seq::empty() })
        + (if down { seq![MenuEvent::CursorMove] } else { Seq::empty() })
}

/// Moves the cursor of a list of `count` entries for the frame.
pub fn move_cursor(selected: &mut u8, count: u8, input: &Input, events: &mut Vec<MenuEvent>)
    requires
        count >= 1,
    ensures
        *final(selected) == cursor_after(*old(selected) as int, count as int, *input),
        final(events)@ == old(events)@ + cursor_events(*old(selected) as int, count as int, *input),
{
    let ghost e0 = events@;
    if input.up.is_pressed() {
        if *selected > 0 {
            *selected = *selected - 1;
            events.push(MenuEvent::CursorMove);
        }
    }
    if input.down.is_pressed() {
        if *selected < count - 1 {
            *selected = *selected + 1;
            events.push(MenuEvent::CursorMove);
        }
    }
    assert(events@ =~= e0 + cursor_events(*old(selected) as int, count as int, *input));
}

} // verus!
