use vstd::prelude::*;
use crate::menu::event::MenuEvent;
use crate::menu::input::Input;

verus! {

/// The about text of a level set.
pub struct AboutMenu {
    pub text: String,
}

impl AboutMenu {
    /// B, A or start closes the text.
    pub fn think(&mut self, input: &Input, events: &mut Vec<MenuEvent>)
        ensures
            final(self).text == old(self).text,
            final(events)@ == old(events)@ + if input.b.spec_is_pressed() || input.a.spec_is_pressed()
                || input.start.spec_is_pressed() {
                seq![MenuEvent::CloseMenu]
            } else {
                Seq::empty()
            },
    {
        let ghost e0 = events@;
        if input.b.is_pressed() || input.a.is_pressed() || input.start.is_pressed() {
            events.push(MenuEvent::CloseMenu);
        }
        assert(events@ =~= e0 + if input.b.spec_is_pressed() || input.a.spec_is_pressed()
            || input.start.spec_is_pressed() {
            seq![MenuEvent::CloseMenu]
        } else {
            Seq::empty()
        });
    }
}

} // verus!
