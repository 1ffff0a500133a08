use vstd::prelude::*;
use crate::menu::event::MenuEvent;
use crate::menu::input::{Input, cursor_after, cursor_events, emit_if, move_cursor};
use crate::play::savedata::OptionsDto;

verus! {

/// The options menu and the options as shown in it.
pub struct OptionsMenu {
    pub selected: u8,
    pub options: OptionsDto,
}

/// Number of entries: eight switches and back.
pub const OPTIONS_ITEMS: u8 = 9;

/// The options after choosing entry `sel`: each of the first eight entries
/// flips one switch; back changes nothing.
pub open spec fn options_flip(o: OptionsDto, sel: int) -> OptionsDto {
    if sel == 0 {
        OptionsDto { background_music: !o.background_music, ..o }
    } else if sel == 1 {
        OptionsDto { sound_effects: !o.sound_effects, ..o }
    } else if sel == 2 {
        OptionsDto { perspective: !o.perspective, ..o }
    } else if sel == 3 {
        OptionsDto { assist_mode: !o.assist_mode, ..o }
    } else if sel == 4 {
        OptionsDto { step_mode: !o.step_mode, ..o }
    } else if sel == 5 {
        OptionsDto { auto_save_replay: !o.auto_save_replay, ..o }
    } else if sel == 6 {
        OptionsDto { speedrun_mode: !o.speedrun_mode, ..o }
    } else if sel == 7 {
        OptionsDto { developer_mode: !o.developer_mode, ..o }
    } else {
        o
    }
}

/// The event choosing entry `sel` sends, given the options after the flip:
/// the new value of the flipped switch, or closing the menu for back.
pub open spec fn options_event(o: OptionsDto, sel: int) -> MenuEvent {
    if sel == 0 {
        MenuEvent::SetBackgroundMusic { value: o.background_music }
    } else if sel == 1 {
        MenuEvent::SetSoundEffects { value: o.sound_effects }
    } else if sel == 2 {
        MenuEvent::SetPerspective { value: o.perspective }
    } else if sel == 3 {
        MenuEvent::SetAssistMode { value: o.assist_mode }
    } else if sel == 4 {
        MenuEvent::SetStepMode { value: o.step_mode }
    } else if sel == 5 {
        MenuEvent::SetAutoSaveReplay { value: o.auto_save_replay }
    } else if sel == 6 {
        MenuEvent::SetSpeedrunMode { value: o.speedrun_mode }
    } else if sel == 7 {
        MenuEvent::SetDeveloperMode { value: o.developer_mode }
    } else {
        MenuEvent::CloseMenu
    }
}

/// Flips the switch of entry `sel` and gives the event reporting it.
fn flip_option(o: &mut OptionsDto, sel: u8) -> (evt: MenuEvent)
    ensures
        *final(o) == options_flip(*old(o), sel as int),
        evt == options_event(*final(o), sel as int),
{
    match sel {
        0 => {
            o.background_music = !o.background_music;
            MenuEvent::SetBackgroundMusic { value: o.background_music }
        },
        1 => {
            o.sound_effects = !o.sound_effects;
            MenuEvent::SetSoundEffects { value: o.sound_effects }
        },
        2 => {
            o.perspective = !o.perspective;
            MenuEvent::SetPerspective { value: o.perspective }
        },
        3 => {
            o.assist_mode = !o.assist_mode;
            MenuEvent::SetAssistMode { value: o.assist_mode }
        },
        4 => {
            o.step_mode = !o.step_mode;
            MenuEvent::SetStepMode { value: o.step_mode }
        },
        5 => {
            o.auto_save_replay = !o.auto_save_replay;
            MenuEvent::SetAutoSaveReplay { value: o.auto_save_replay }
        },
        6 => {
            o.speedrun_mode = !o.speedrun_mode;
            MenuEvent::SetSpeedrunMode { value: o.speedrun_mode }
        },
        7 => {
            o.developer_mode = !o.developer_mode;
            MenuEvent::SetDeveloperMode { value: o.developer_mode }
        },
        _ => MenuEvent::CloseMenu,
    }
}

impl OptionsMenu {
    /// Moves the cursor; start resumes play; A flips the switch under the
    /// cursor and reports its new value (or closes the menu on back); B
    /// closes the menu.
    pub fn think(&mut self, input: &Input, events: &mut Vec<MenuEvent>)
        ensures
            ({
                let sel = cursor_after(old(self).selected as int, OPTIONS_ITEMS as int, *input);
                let flipped = options_flip(old(self).options, sel);
                &&& final(self).selected == sel
                &&& final(self).options == if input.a.spec_is_pressed() { flipped } else { old(self).options }
                &&& final(events)@ == old(events)@ + cursor_events(old(self).selected as int, OPTIONS_ITEMS as int, *input)
                    + emit_if(input.start.spec_is_pressed(), seq![MenuEvent::ResumePlay])
                    + emit_if(input.a.spec_is_pressed(), seq![options_event(flipped, sel), MenuEvent::CursorSelect])
                    + emit_if(input.b.spec_is_pressed(), seq![MenuEvent::CloseMenu])
            }),
    {
        move_cursor(&mut self.selected, OPTIONS_ITEMS, input, events);
        let ghost e1 = events@;
        if input.start.is_pressed() {
            events.push(MenuEvent::ResumePlay);
        }
        assert(events@ =~= e1 + emit_if(input.start.spec_is_pressed(), seq![MenuEvent::ResumePlay]));
        let ghost e2 = events@;
        if input.a.is_pressed() {
            let evt = flip_option(&mut self.options, self.selected);
            events.push(evt);
            events.push(MenuEvent::CursorSelect);
        }
        assert(events@ =~= e2 + emit_if(
            input.a.spec_is_pressed(),
            seq![options_event(self.options, self.selected as int), MenuEvent::CursorSelect],
        ));
        let ghost e3 = events@;
        if input.b.is_pressed() {
            events.push(MenuEvent::CloseMenu);
        }
        assert(events@ =~= e3 + emit_if(input.b.spec_is_pressed(), seq![MenuEvent::CloseMenu]));
    }
}

/// Choosing the same switch twice brings the options back.
pub proof fn law_options_flip_twice(o: OptionsDto, sel: int)
    ensures
        options_flip(options_flip(o, sel), sel) == o,
{
}

/// The shown state of a switch: a green ON or a red OFF.
pub open spec fn flag_text(on: bool) -> Seq<char> {
    if on { "\x1b[color=#0f0]ON"@ } else { "\x1b[color=#f00]OFF"@ }
}

/// The label of a switch: its name, a colon and its state.
pub open spec fn switch_label(name: Seq<char>, on: bool) -> Seq<char> {
    name + ": "@ + flag_text(on)
}

/// The labels of the menu's entries, in order.
pub open spec fn option_labels(o: OptionsDto) -> Seq<Seq<char>> {
    seq![
        switch_label("Background music"@, o.background_music),
        switch_label("Sound effects"@, o.sound_effects),
        switch_label("Perspective"@, o.perspective),
        switch_label("Assist mode"@, o.assist_mode),
        switch_label("Step mode"@, o.step_mode),
        switch_label("Auto save replays"@, o.auto_save_replay),
        switch_label("Speedrun mode"@, o.speedrun_mode),
        switch_label("Developer mode"@, o.developer_mode),
        "Back"@,
    ]
}

/// The label of a switch.
fn make_switch_label(name: &str, on: bool) -> (r: String)
    ensures
        r@ == switch_label(name@, on),
{
    let mut label = String::from_str(name);
    label.append(": ");
    if on {
        label.append("\x1b[color=#0f0]ON");
    } else {
        label.append("\x1b[color=#f00]OFF");
    }
    label
}

impl OptionsMenu {
    /// The labels of the entries: each switch with its state, then back.
    pub fn item_labels(&self) -> (r: Vec<String>)
        ensures
            r@.map_values(|l: String| l@) == option_labels(self.options),
    {
        let o = self.options;
        let mut items: Vec<String> = Vec::new();
        items.push(make_switch_label("Background music", o.background_music));
        items.push(make_switch_label("Sound effects", o.sound_effects));
        items.push(make_switch_label("Perspective", o.perspective));
        items.push(make_switch_label("Assist mode", o.assist_mode));
        items.push(make_switch_label("Step mode", o.step_mode));
        items.push(make_switch_label("Auto save replays", o.auto_save_replay));
        items.push(make_switch_label("Speedrun mode", o.speedrun_mode));
        items.push(make_switch_label("Developer mode", o.developer_mode));
        items.push(String::from_str("Back"));
        assert(items@.map_values(|l: String| l@) =~= option_labels(o));
        items
    }
}

} // verus!
