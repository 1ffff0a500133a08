use vstd::prelude::*;
use crate::menu::event::MenuEvent;
use crate::menu::input::{Input, emit_if};

verus! {

/// Entering a level password on an on-screen keyboard: the key under the
/// cursor and the letters entered so far.
pub struct UnlockLevelMenu {
    pub selected: i8,
    pub password: [Option<char>; 4],
}

/// The on-screen keyboard's keys in reading order, as on a QWERTY keyboard:
/// a row of ten, a row of nine and a row of seven.
pub open spec fn letters() -> Seq<u8> {
    seq![
        'Q' as u8, 'W' as u8, 'E' as u8, 'R' as u8, 'T' as u8, 'Y' as u8, 'U' as u8, 'I' as u8, 'O' as u8, 'P' as u8,
        'A' as u8, 'S' as u8, 'D' as u8, 'F' as u8, 'G' as u8, 'H' as u8, 'J' as u8, 'K' as u8, 'L' as u8,
        'Z' as u8, 'X' as u8, 'C' as u8, 'V' as u8, 'B' as u8, 'N' as u8, 'M' as u8,
    ]
}

/// The key at index `i` of the keyboard.
fn letter_at(i: usize) -> (r: u8)
    requires
        i < 26,
    ensures
        r == letters()[i as int],
{
    match i {
        0 => 'Q' as u8, 1 => 'W' as u8, 2 => 'E' as u8, 3 => 'R' as u8, 4 => 'T' as u8,
        5 => 'Y' as u8, 6 => 'U' as u8, 7 => 'I' as u8, 8 => 'O' as u8, 9 => 'P' as u8,
        10 => 'A' as u8, 11 => 'S' as u8, 12 => 'D' as u8, 13 => 'F' as u8, 14 => 'G' as u8,
        15 => 'H' as u8, 16 => 'J' as u8, 17 => 'K' as u8, 18 => 'L' as u8,
        19 => 'Z' as u8, 20 => 'X' as u8, 21 => 'C' as u8, 22 => 'V' as u8, 23 => 'B' as u8,
        24 => 'N' as u8, _ => 'M' as u8,
    }
}

/// The index of a key of the keyboard.
pub fn lookup(letter: u8) -> (r: usize)
    requires
        letters().contains(letter),
    ensures
        r < 26,
        letters()[r as int] == letter,
{
    let mut i: usize = 0;
    while i < 26
        invariant
            i <= 26,
            letters().len() == 26,
            letters().contains(letter),
            forall|j: int| 0 <= j < i ==> letters()[j] != letter,
        decreases 26 - i,
    {
        if letter_at(i) == letter {
            return i;
        }
        i += 1;
    }
    proof {
        let k = choose|k: int| 0 <= k < letters().len() && letters()[k] == letter;
        assert(letters()[k] != letter);
    }
    0
}

/// First index of the keyboard row holding key `i`.
pub open spec fn row_start(i: int) -> int {
    if i < 10 { 0 } else if i < 19 { 10 } else { 19 }
}

/// One past the last index of the keyboard row holding key `i`.
pub open spec fn row_end(i: int) -> int {
    if i < 10 { 10 } else if i < 19 { 19 } else { 26 }
}

/// The key left of key `i`; from the first key of a row to its last.
pub open spec fn press_left(i: int) -> int {
    if i == row_start(i) { row_end(i) - 1 } else { i - 1 }
}

/// The key right of key `i`; from the last key of a row to its first.
pub open spec fn press_right(i: int) -> int {
    if i == row_end(i) - 1 { row_start(i) } else { i + 1 }
}

/// The key below key `i`, or -1 on the bottom row.
pub open spec fn press_down(i: int) -> int {
    if 0 <= i <= 8 {
        i + 10
    } else if i == 9 {
        18
    } else if i == 10 || i == 11 {
        19
    } else if 12 <= i <= 17 {
        i + 8
    } else if i == 18 {
        25
    } else {
        -1
    }
}

/// The key above key `i`, or -1 on the top row.
pub open spec fn press_up(i: int) -> int {
    if 10 <= i <= 18 {
        i - 10
    } else if i == 19 {
        11
    } else if 20 <= i <= 25 {
        i - 8
    } else {
        -1
    }
}

fn left_of(i: i8) -> (r: i8)
    requires
        0 <= i < 26,
    ensures
        r == press_left(i as int),
{
    match i {
        0 => 9, 10 => 18, 19 => 25,
        _ => i - 1,
    }
}

fn right_of(i: i8) -> (r: i8)
    requires
        0 <= i < 26,
    ensures
        r == press_right(i as int),
{
    match i {
        9 => 0, 18 => 10, 25 => 19,
        _ => i + 1,
    }
}

fn below(i: i8) -> (r: i8)
    requires
        0 <= i < 26,
    ensures
        r == press_down(i as int),
{
    match i {
        0 => 10, 1 => 11, 2 => 12, 3 => 13, 4 => 14, 5 => 15, 6 => 16, 7 => 17, 8 => 18, 9 => 18,
        10 => 19, 11 => 19, 12 => 20, 13 => 21, 14 => 22, 15 => 23, 16 => 24, 17 => 25, 18 => 25,
        _ => -1,
    }
}

fn above(i: i8) -> (r: i8)
    requires
        0 <= i < 26,
    ensures
        r == press_up(i as int),
{
    match i {
        10 => 0, 11 => 1, 12 => 2, 13 => 3, 14 => 4, 15 => 5, 16 => 6, 17 => 7, 18 => 8,
        19 => 11, 20 => 12, 21 => 13, 22 => 14, 23 => 15, 24 => 16, 25 => 17,
        _ => -1,
    }
}

/// Left and right undo each other, and every move stays on the keyboard
/// (or, for up and down, reports that there is no key that way).
pub proof fn law_keyboard_moves(i: int)
    requires
        0 <= i < 26,
    ensures
        press_right(press_left(i)) == i,
        press_left(press_right(i)) == i,
        0 <= press_left(i) < 26,
        0 <= press_right(i) < 26,
        -1 <= press_up(i) < 26,
        -1 <= press_down(i) < 26,
        press_up(i) == -1 <==> i < 10,
        press_down(i) == -1 <==> i >= 19,
{
}

/// The key under the cursor after the frame's arrow presses, applied up,
/// down, left, right in turn; a move with no key that way is ignored.
pub open spec fn keyboard_cursor(sel: int, input: Input) -> int {
    let s1 = if input.up.spec_is_pressed() && press_up(sel) >= 0 { press_up(sel) } else { sel };
    let s2 = if input.down.spec_is_pressed() && press_down(s1) >= 0 { press_down(s1) } else { s1 };
    let s3 = if input.left.spec_is_pressed() { press_left(s2) } else { s2 };
    if input.right.spec_is_pressed() { press_right(s3) } else { s3 }
}

/// Index of the first empty slot of the password, if any.
pub open spec fn first_empty(p: [Option<char>; 4]) -> Option<int> {
    if p[0] is None {
        Some(0)
    } else if p[1] is None {
        Some(1)
    } else if p[2] is None {
        Some(2)
    } else if p[3] is None {
        Some(3)
    } else {
        None
    }
}

/// Index of the last filled slot of the password, if any.
pub open spec fn last_filled(p: [Option<char>; 4]) -> Option<int> {
    if p[3] is Some {
        Some(3)
    } else if p[2] is Some {
        Some(2)
    } else if p[1] is Some {
        Some(1)
    } else if p[0] is Some {
        Some(0)
    } else {
        None
    }
}

/// The password with slot `i` set to `c`.
pub open spec fn set_slot(p: [Option<char>; 4], i: int, c: Option<char>) -> [Option<char>; 4] {
    [
        if i == 0 { c } else { p[0] },
        if i == 1 { c } else { p[1] },
        if i == 2 { c } else { p[2] },
        if i == 3 { c } else { p[3] },
    ]
}

/// The password after the frame: A types the key under the cursor into the
/// first empty slot, then B clears the last filled slot.
pub open spec fn password_after(p: [Option<char>; 4], sel: int, input: Input) -> [Option<char>; 4] {
    let p1 = if input.a.spec_is_pressed() && first_empty(p) is Some {
        set_slot(p, first_empty(p)->0, Some(letters()[sel] as char))
    } else {
        p
    };
    if input.b.spec_is_pressed() && last_filled(p1) is Some {
        set_slot(p1, last_filled(p1)->0, None)
    } else {
        p1
    }
}

/// The frame's events: B with nothing typed closes the menu; start with all
/// four letters typed enters the password.
pub open spec fn unlock_events(p: [Option<char>; 4], sel: int, input: Input) -> Seq<MenuEvent> {
    let p1 = if input.a.spec_is_pressed() && first_empty(p) is Some {
        set_slot(p, first_empty(p)->0, Some(letters()[sel] as char))
    } else {
        p
    };
    let p2 = password_after(p, sel, input);
    emit_if(input.b.spec_is_pressed() && last_filled(p1) is None, seq![MenuEvent::CloseMenu]) + emit_if(
        input.start.spec_is_pressed() && first_empty(p2) is None,
        seq![MenuEvent::EnterPassword { code: [p2[0]->0 as u8, p2[1]->0 as u8, p2[2]->0 as u8, p2[3]->0 as u8] }],
    )
}

/// Types `letter` into the first empty slot, if there is one.
fn type_letter(p: &mut [Option<char>; 4], letter: char)
    ensures
        *final(p) == if first_empty(*old(p)) is Some {
            set_slot(*old(p), first_empty(*old(p))->0, Some(letter))
        } else {
            *old(p)
        },
{
    let q = *p;
    if q[0].is_none() {
        *p = [Some(letter), q[1], q[2], q[3]];
    } else if q[1].is_none() {
        *p = [q[0], Some(letter), q[2], q[3]];
    } else if q[2].is_none() {
        *p = [q[0], q[1], Some(letter), q[3]];
    } else if q[3].is_none() {
        *p = [q[0], q[1], q[2], Some(letter)];
    }
}

/// Clears the last filled slot; false if nothing was typed.
fn erase_letter(p: &mut [Option<char>; 4]) -> (erased: bool)
    ensures
        erased == last_filled(*old(p)) is Some,
        *final(p) == if erased { set_slot(*old(p), last_filled(*old(p))->0, None) } else { *old(p) },
{
    let q = *p;
    if q[3].is_some() {
        *p = [q[0], q[1], q[2], None];
    } else if q[2].is_some() {
        *p = [q[0], q[1], None, q[3]];
    } else if q[1].is_some() {
        *p = [q[0], None, q[2], q[3]];
    } else if q[0].is_some() {
        *p = [None, q[1], q[2], q[3]];
    } else {
        return false;
    }
    true
}

/// The typed password as bytes, once all four letters are typed.
fn full_code(p: &[Option<char>; 4]) -> (r: Option<[u8; 4]>)
    ensures
        r == if first_empty(*p) is None {
            Some([p[0]->0 as u8, p[1]->0 as u8, p[2]->0 as u8, p[3]->0 as u8])
        } else {
            None
        },
{
    let q = *p;
    match (q[0], q[1], q[2], q[3]) {
        (Some(c1), Some(c2), Some(c3), Some(c4)) => Some([c1 as u8, c2 as u8, c3 as u8, c4 as u8]),
        _ => None,
    }
}

impl UnlockLevelMenu {
    /// The cursor is on a key of the keyboard.
    pub open spec fn wf(&self) -> bool {
        0 <= self.selected < 26
    }

    /// Moves the cursor over the keyboard, types or erases letters, closes
    /// the menu or enters the password.
    pub fn think(&mut self, input: &Input, events: &mut Vec<MenuEvent>)
        requires
            old(self).wf(),
        ensures
            final(self).wf(),
            final(self).selected == keyboard_cursor(old(self).selected as int, *input),
            final(self).password == password_after(old(self).password, final(self).selected as int, *input),
            final(events)@ == old(events)@ + unlock_events(old(self).password, final(self).selected as int, *input),
    {
        if input.up.is_pressed() {
            let new_index = above(self.selected);
            if new_index >= 0 {
                self.selected = new_index;
            }
        }
        if input.down.is_pressed() {
            let new_index = below(self.selected);
            if new_index >= 0 {
                self.selected = new_index;
            }
        }
        if input.left.is_pressed() {
            self.selected = left_of(self.selected);
        }
        if input.right.is_pressed() {
            self.selected = right_of(self.selected);
        }
        let ghost p0 = self.password;
        let ghost e0 = events@;
        if input.a.is_pressed() {
            let letter = letter_at(self.selected as usize) as char;
            type_letter(&mut self.password, letter);
        }
        if input.b.is_pressed() {
            if !erase_letter(&mut self.password) {
                events.push(MenuEvent::CloseMenu);
            }
        }
        if input.start.is_pressed() {
            if let Some(code) = full_code(&self.password) {
                events.push(MenuEvent::EnterPassword { code });
            }
        }
        assert(events@ =~= e0 + unlock_events(p0, self.selected as int, *input));
    }
}

} // verus!
