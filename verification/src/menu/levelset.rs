use vstd::prelude::*;
use crate::menu::event::MenuEvent;
use crate::menu::input::Input;
use crate::play::lvsets::{LevelSet, LevelSets};

verus! {

/// Choosing a level set: the titles of the sets and the one under the
/// cursor.
pub struct LevelSetMenu {
    pub selected: usize,
    pub items: Vec<String>,
}

/// The cursor after a frame: up and down move it within the list.
pub open spec fn level_set_cursor(selected: int, len: int, input: Input) -> int {
    let s1 = if input.up.spec_is_pressed() && selected > 0 { selected - 1 } else { selected };
    if input.down.spec_is_pressed() && s1 + 1 < len { s1 + 1 } else { s1 }
}

/// A frame of the level set menu: cursor moves, then A loads the set under
/// the cursor, B closes the menu.
pub open spec fn level_set_events(selected: int, len: int, input: Input) -> Seq<MenuEvent> {
    let up = input.up.spec_is_pressed() && selected > 0;
    let s1 = if up { selected - 1 } else { selected };
    let down = input.down.spec_is_pressed() && s1 + 1 < len;
    let sel = level_set_cursor(selected, len, input);
    (if up { seq![MenuEvent::CursorMove] } else { Seq::empty() })
        + (if down { seq![MenuEvent::CursorMove] } else { Seq::empty() })
        + (if input.a.spec_is_pressed() {
        seq![MenuEvent::LoadLevelSet { index: sel as usize }, MenuEvent::CursorSelect]
    } else {
        Seq::empty()
    }) + (if input.b.spec_is_pressed() { seq![MenuEvent::CloseMenu] } else { Seq::empty() })
}

impl LevelSetMenu {
    /// Moves the cursor, loads the chosen set or closes the menu.
    pub fn think(&mut self, input: &Input, events: &mut Vec<MenuEvent>)
        requires
            old(self).selected < usize::MAX,
        ensures
            final(self).items@ == old(self).items@,
            final(self).selected == level_set_cursor(old(self).selected as int, old(self).items@.len() as int, *input),
            final(events)@ == old(events)@ + level_set_events(
                old(self).selected as int,
                old(self).items@.len() as int,
                *input,
            ),
    {
        let ghost e0 = events@;
        if input.up.is_pressed() {
            if self.selected > 0 {
                self.selected = self.selected - 1;
                events.push(MenuEvent::CursorMove);
            }
        }
        if input.down.is_pressed() {
            if self.selected + 1 < self.items.len() {
                self.selected = self.selected + 1;
                events.push(MenuEvent::CursorMove);
            }
        }
        if input.a.is_pressed() {
            events.push(MenuEvent::LoadLevelSet { index: self.selected });
            events.push(MenuEvent::CursorSelect);
        }
        if input.b.is_pressed() {
            events.push(MenuEvent::CloseMenu);
        }
        assert(events@ =~= e0 + level_set_events(old(self).selected as int, old(self).items@.len() as int, *input));
    }
}

impl LevelSetMenu {
    /// The menu the game opens with: the titles of all level sets, with the
    /// cursor on the selected set or on the first when none is selected;
    /// `None` when there are no level sets.
    pub fn launch_menu(lvsets: &LevelSets) -> (r: Option<LevelSetMenu>)
        ensures
            match r {
                None => lvsets.collection@.len() == 0,
                Some(m) => {
                    &&& lvsets.collection@.len() > 0
                    &&& m.selected == (if lvsets.selected > 0 { lvsets.selected as int } else { 0 })
                    &&& m.items@.map_values(|t: String| t@) == lvsets.collection@.map_values(|set: LevelSet| set.title@)
                },
            },
    {
        if lvsets.collection.len() == 0 {
            return None;
        }
        let mut items: Vec<String> = Vec::new();
        let mut i: usize = 0;
        while i < lvsets.collection.len()
            invariant
                i <= lvsets.collection@.len(),
                items@.len() == i,
                items@.map_values(|t: String| t@) == lvsets.collection@.take(i as int).map_values(|set: LevelSet| set.title@),
            decreases lvsets.collection@.len() - i,
        {
            let title = lvsets.collection[i].title.clone();
            let ghost before = items@;
            items.push(title);
            proof {
                let now = items@.map_values(|t: String| t@);
                let want = lvsets.collection@.take(i + 1).map_values(|set: LevelSet| set.title@);
                let was = before.map_values(|t: String| t@);
                let had = lvsets.collection@.take(i as int).map_values(|set: LevelSet| set.title@);
                assert forall|k: int| 0 <= k < i + 1 implies now[k] == want[k] by {
                    if k < i {
                        assert(items@[k] == before[k]);
                        assert(was[k] == had[k]);
                    }
                }
                assert(now =~= want);
            }
            i += 1;
        }
        proof {
            assert(lvsets.collection@.take(lvsets.collection@.len() as int) =~= lvsets.collection@);
        }
        let selected: usize = if lvsets.selected > 0 { lvsets.selected as usize } else { 0 };
        Some(LevelSetMenu { selected, items })
    }
}

} // verus!
