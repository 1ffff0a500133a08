use vstd::prelude::*;
use crate::menu::event::MenuEvent;
use crate::menu::input::{Input, emit_if};
use crate::menu::text::{decimal, push_decimal};
use crate::play::lvsets::LevelSet;
use crate::play::savedata::SaveData;

verus! {

/// Number of levels the list shows at once.
pub const LEVELS_PER_PAGE: i32 = 14;

/// The scroll offset `offset` kept within a list of `len` entries: not
/// below zero, and not past where the last page starts.
pub open spec fn spec_clip_offset(offset: int, len: int) -> int {
    let m = if len - LEVELS_PER_PAGE < offset { len - LEVELS_PER_PAGE } else { offset };
    if 0 < m { m } else { 0 }
}

/// The scroll offset `offset` kept within a list of `len` entries.
pub fn clip_offset(offset: i32, len: i32) -> (r: i32)
    requires
        len >= i32::MIN + LEVELS_PER_PAGE,
    ensures
        r == spec_clip_offset(offset as int, len as int),
{
    let m = if len - LEVELS_PER_PAGE < offset { len - LEVELS_PER_PAGE } else { offset };
    if 0 < m { m } else { 0 }
}

/// Scrolling never leaves the list: the offset is at least zero and, when
/// the list is longer than a page, the last page still ends on its last
/// entry.
pub proof fn law_clip_offset(offset: int, len: int)
    ensures
        spec_clip_offset(offset, len) >= 0,
        len >= LEVELS_PER_PAGE ==> spec_clip_offset(offset, len) <= len - LEVELS_PER_PAGE,
        0 <= offset && offset + LEVELS_PER_PAGE <= len ==> spec_clip_offset(offset, len) == offset,
{
}

/// Going to a level: the unlock entry followed by the levels that can be
/// played, each as its level number and label; the entry under the cursor
/// and the first entry shown.
pub struct LevelSelectMenu {
    pub selected: i32,
    pub offset: i32,
    pub items: Vec<(i32, String)>,
}

/// The cursor after jumping `jump` entries, kept on the list.
pub open spec fn jump_target(sel: int, len: int, jump: int) -> int {
    let t = if len - 1 < sel + jump { len - 1 } else { sel + jump };
    if 0 < t { t } else { 0 }
}

/// The offset after the cursor moved to `target`: scrolled so the cursor
/// keeps one entry of room at the top and at the bottom of the page.
pub open spec fn jump_offset(off: int, len: int, target: int) -> int {
    if target <= off {
        spec_clip_offset(target - 1, len)
    } else if target >= off + LEVELS_PER_PAGE - 1 {
        spec_clip_offset(target - LEVELS_PER_PAGE + 2, len)
    } else {
        off
    }
}

/// The list's state after a jump, if the jump is asked for.
#[verifier::opaque]
pub open spec fn jump_state(st: (int, int), len: int, jump: int, pressed: bool) -> (int, int) {
    let target = jump_target(st.0, len, jump);
    if pressed && target != st.0 {
        (target, jump_offset(st.1, len, target))
    } else {
        st
    }
}

/// The events of a jump, if it is asked for and moves the cursor: a cursor
/// sound and a preview of the level now under the cursor.
#[verifier::opaque]
pub open spec fn jump_events(st: (int, int), items: Seq<(i32, String)>, jump: int, pressed: bool) -> Seq<MenuEvent> {
    let target = jump_target(st.0, items.len() as int, jump);
    emit_if(
        pressed && target != st.0,
        seq![MenuEvent::CursorMove, MenuEvent::PreviewLevel { level_number: items[target].0 }],
    )
}

/// A or start chooses the entry under the cursor: unlocking a level from
/// the first entry, playing the level of another.
pub open spec fn level_select_choice(sel: int, items: Seq<(i32, String)>, input: Input) -> Seq<MenuEvent> {
    emit_if(
        input.a.spec_is_pressed() || input.start.spec_is_pressed(),
        seq![
            if sel == 0 {
                MenuEvent::OpenUnlockLevel
            } else {
                MenuEvent::PlayLevel { level_number: items[sel].0 }
            },
            MenuEvent::CursorSelect,
        ],
    )
}

/// A jump that is not asked for changes nothing.
proof fn lemma_no_jump(st: (int, int), items: Seq<(i32, String)>, jump: int)
    ensures
        jump_state(st, items.len() as int, jump, false) == st,
        jump_events(st, items, jump, false) == Seq::<MenuEvent>::empty(),
{
    reveal(jump_state);
    reveal(jump_events);
}

impl LevelSelectMenu {
    /// The list is not empty, fits the cursor's type, and the cursor is on
    /// an entry.
    pub open spec fn wf(&self) -> bool {
        &&& 1 <= self.items@.len() <= i32::MAX
        &&& 0 <= self.selected < self.items@.len()
    }

    fn jump(&mut self, jump: i32, events: &mut Vec<MenuEvent>)
        requires
            old(self).wf(),
            -10 <= jump <= 10,
        ensures
            final(self).wf(),
            final(self).items@ == old(self).items@,
            (final(self).selected as int, final(self).offset as int) == jump_state(
                (old(self).selected as int, old(self).offset as int),
                old(self).items@.len() as int,
                jump as int,
                true,
            ),
            final(events)@ == old(events)@ + jump_events(
                (old(self).selected as int, old(self).offset as int),
                old(self).items@,
                jump as int,
                true,
            ),
    {
        reveal(jump_state);
        reveal(jump_events);
        let ghost e0 = events@;
        let len = self.items.len() as i32;
        let sum: i64 = self.selected as i64 + jump as i64;
        let t: i64 = if (len as i64) - 1 < sum { (len as i64) - 1 } else { sum };
        let selected: i32 = if 0 < t { t as i32 } else { 0 };
        if self.selected != selected {
            events.push(MenuEvent::CursorMove);
            self.selected = selected;
            if self.selected <= self.offset {
                self.offset = clip_offset(selected - 1, len);
            } else if self.selected as i64 >= self.offset as i64 + LEVELS_PER_PAGE as i64 - 1 {
                self.offset = clip_offset(selected - LEVELS_PER_PAGE + 2, len);
            }
            // Request the level preview
            let level_number = self.items[selected as usize].0;
            events.push(MenuEvent::PreviewLevel { level_number });
        }
        assert(events@ =~= e0 + jump_events(
            (old(self).selected as int, old(self).offset as int),
            old(self).items@,
            jump as int,
            true,
        ));
    }

    /// The frame's jumps: up one, left ten back, down one, right ten on.
    fn jumps(&mut self, input: &Input, events: &mut Vec<MenuEvent>)
        requires
            old(self).wf(),
        ensures
            final(self).wf(),
            final(self).items@ == old(self).items@,
            ({
                let items = old(self).items@;
                let len = items.len() as int;
                let s0 = (old(self).selected as int, old(self).offset as int);
                let s1 = jump_state(s0, len, -1, input.up.spec_is_pressed());
                let s2 = jump_state(s1, len, -10, input.left.spec_is_pressed());
                let s3 = jump_state(s2, len, 1, input.down.spec_is_pressed());
                let s4 = jump_state(s3, len, 10, input.right.spec_is_pressed());
                &&& (final(self).selected as int, final(self).offset as int) == s4
                &&& final(events)@ == old(events)@ + jump_events(s0, items, -1, input.up.spec_is_pressed())
                    + jump_events(s1, items, -10, input.left.spec_is_pressed())
                    + jump_events(s2, items, 1, input.down.spec_is_pressed())
                    + jump_events(s3, items, 10, input.right.spec_is_pressed())
            }),
    {
        let ghost e0 = events@;
        let ghost st0 = (self.selected as int, self.offset as int);
        proof {
            lemma_no_jump(st0, self.items@, -1);
        }
        if input.up.is_pressed() {
            self.jump(-1, events);
        }
        let ghost e1 = events@;
        let ghost st1 = (self.selected as int, self.offset as int);
        proof {
            lemma_no_jump(st1, self.items@, -10);
        }
        if input.left.is_pressed() {
            self.jump(-10, events);
        }
        let ghost e2 = events@;
        let ghost st2 = (self.selected as int, self.offset as int);
        proof {
            lemma_no_jump(st2, self.items@, 1);
        }
        if input.down.is_pressed() {
            self.jump(1, events);
        }
        let ghost st3 = (self.selected as int, self.offset as int);
        proof {
            lemma_no_jump(st3, self.items@, 10);
        }
        if input.right.is_pressed() {
            self.jump(10, events);
        }
    }

    /// Jumps through the list (up one, left ten back, down one, right ten
    /// on, in that order), chooses an entry or closes the menu.
    pub fn think(&mut self, input: &Input, events: &mut Vec<MenuEvent>)
        requires
            old(self).wf(),
        ensures
            final(self).wf(),
            final(self).items@ == old(self).items@,
            ({
                let items = old(self).items@;
                let len = items.len() as int;
                let s0 = (old(self).selected as int, old(self).offset as int);
                let s1 = jump_state(s0, len, -1, input.up.spec_is_pressed());
                let s2 = jump_state(s1, len, -10, input.left.spec_is_pressed());
                let s3 = jump_state(s2, len, 1, input.down.spec_is_pressed());
                let s4 = jump_state(s3, len, 10, input.right.spec_is_pressed());
                &&& (final(self).selected as int, final(self).offset as int) == s4
                &&& final(events)@ == old(events)@ + jump_events(s0, items, -1, input.up.spec_is_pressed())
                    + jump_events(s1, items, -10, input.left.spec_is_pressed())
                    + jump_events(s2, items, 1, input.down.spec_is_pressed())
                    + jump_events(s3, items, 10, input.right.spec_is_pressed())
                    + level_select_choice(s4.0, items, *input)
                    + emit_if(input.b.spec_is_pressed(), seq![MenuEvent::CloseMenu])
            }),
    {
        self.jumps(input, events);
        let ghost e4 = events@;
        if input.a.is_pressed() || input.start.is_pressed() {
            let evt = if self.selected == 0 {
                MenuEvent::OpenUnlockLevel
            } else {
                MenuEvent::PlayLevel { level_number: self.items[self.selected as usize].0 }
            };
            events.push(evt);
            events.push(MenuEvent::CursorSelect);
        }
        let ghost e5 = events@;
        assert(e5 =~= e4 + level_select_choice(self.selected as int, self.items@, *input));
        if input.b.is_pressed() {
            events.push(MenuEvent::CloseMenu);
        }
        assert(events@ =~= e5 + emit_if(input.b.spec_is_pressed(), seq![MenuEvent::CloseMenu]));
    }
}

/// The label of level `number` named `name` in the list.
pub open spec fn level_label(number: nat, name: Seq<char>) -> Seq<char> {
    "Level "@ + decimal(number) + ": "@ + name
}

/// The list's entries for the first `n` levels: the unlock entry, then
/// each unlocked level that the set has, as its number and label.
pub open spec fn level_items_upto(unlocked: Seq<bool>, names: Seq<Seq<char>>, n: int) -> Seq<(i32, Seq<char>)>
    decreases n,
{
    if n <= 0 {
        seq![(0i32, "Unlock level"@)]
    } else {
        let prev = level_items_upto(unlocked, names, n - 1);
        let i = n - 1;
        if unlocked[i] && i < names.len() {
            prev.push(((i + 1) as i32, level_label((i + 1) as nat, names[i])))
        } else {
            prev
        }
    }
}

/// The last level entry (after the unlock entry) numbered `current`, or
/// `selected` when there is none.
pub open spec fn current_index(items: Seq<(i32, Seq<char>)>, current: i32, selected: int) -> int
    decreases items.len(),
{
    if items.len() <= 1 {
        selected
    } else if items.last().0 == current {
        items.len() - 1
    } else {
        current_index(items.drop_last(), current, selected)
    }
}

/// The label of level `number` named `name`.
fn make_level_label(number: u32, name: &String) -> (r: String)
    ensures
        r@ == level_label(number as nat, name@),
{
    let mut label = String::new();
    label.append("Level ");
    push_decimal(&mut label, number);
    label.append(": ");
    label.append(name.as_str());
    label
}

impl LevelSelectMenu {
    /// The entries as numbers and label texts.
    pub open spec fn item_views(&self) -> Seq<(i32, Seq<char>)> {
        self.items@.map_values(|it: (i32, String)| (it.0, it.1@))
    }

    /// Fills the list: the unlock entry, then every unlocked level of the
    /// set as "Level <number>: <name>". The cursor goes to the current
    /// level when it is listed, and the list scrolls so the cursor sits in
    /// the middle of the page where it can.
    pub fn load_items(&mut self, lp: &LevelSet, sd: &SaveData)
        requires
            sd.unlocked_levels@.len() < i32::MAX,
            old(self).selected >= i32::MIN + LEVELS_PER_PAGE / 2,
        ensures
            ({
                let items = level_items_upto(sd.unlocked_levels@, lp.level_names(), sd.unlocked_levels@.len() as int);
                let sel = current_index(items, sd.current_level, old(self).selected as int);
                &&& final(self).item_views() == items
                &&& final(self).selected == sel
                &&& final(self).offset == spec_clip_offset(sel - LEVELS_PER_PAGE / 2 + 1, items.len() as int)
                &&& 0 <= old(self).selected < items.len() ==> final(self).wf()
            }),
    {
        let ghost names = lp.level_names();
        let ghost unlocked = sd.unlocked_levels@;
        let ghost sel0 = self.selected as int;
        let mut items: Vec<(i32, String)> = Vec::new();
        items.push((0, String::from_str("Unlock level")));
        let mut selected = self.selected;
        let mut i: usize = 0;
        proof {
            assert(items@.map_values(|it: (i32, String)| (it.0, it.1@)) =~= level_items_upto(unlocked, names, 0));
        }
        while i < sd.unlocked_levels.len()
            invariant
                i <= unlocked.len(),
                unlocked == sd.unlocked_levels@,
                unlocked.len() < i32::MAX,
                names == lp.level_names(),
                names.len() == lp.levels@.len(),
                items@.map_values(|it: (i32, String)| (it.0, it.1@)) == level_items_upto(unlocked, names, i as int),
                selected == current_index(level_items_upto(unlocked, names, i as int), sd.current_level, sel0),
                1 <= items@.len() <= i + 1,
                selected == sel0 || 1 <= selected < items@.len(),
                sel0 == old(self).selected,
            decreases unlocked.len() - i,
        {
            let ghost prev = level_items_upto(unlocked, names, i as int);
            if sd.unlocked_levels[i] && i < lp.levels.len() {
                let number = i as u32 + 1;
                let label = make_level_label(number, &lp.levels[i].name);
                assert(names[i as int] == lp.levels@[i as int].name@);
                if sd.current_level == number as i32 {
                    selected = items.len() as i32;
                }
                let ghost before = items@;
                items.push((number as i32, label));
                proof {
                    let now = level_items_upto(unlocked, names, i + 1);
                    assert(items@.map_values(|it: (i32, String)| (it.0, it.1@)) =~= now);
                    assert(now.drop_last() =~= prev);
                }
            } else {
                proof {
                    assert(level_items_upto(unlocked, names, i + 1) == prev);
                }
            }
            i += 1;
        }
        let len = items.len() as i32;
        self.items = items;
        self.selected = selected;
        self.offset = clip_offset(selected - LEVELS_PER_PAGE / 2 + 1, len);
    }
}

} // verus!
