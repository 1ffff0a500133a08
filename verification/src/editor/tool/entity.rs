use vstd::prelude::*;
use crate::data::terrain::{Compass, Entity, EntityArgs, EntityHandle, INVALID_ENTITY, Vec2i};
use crate::editor::editstate::EditorEditState;
use crate::editor::field::{is_first_entity, has_handle, lemma_first_entity_unique, stands_on};

verus! {

/// The entity tool: the entity picked last and what it takes to place
/// another one like it.
#[derive(Copy, Clone)]
pub struct EntityToolState {
    pub selected_ent: EntityHandle,
    pub selected_args: Option<EntityArgs>,
}

impl EntityToolState {
    /// Nothing picked.
    pub fn default() -> (r: EntityToolState)
        ensures
            r.selected_ent == INVALID_ENTITY,
            r.selected_args is None,
    {
        EntityToolState { selected_ent: INVALID_ENTITY, selected_args: None }
    }
}

/// Facing after a turn of the entity tool: up, right, down, left, then no
/// facing, then up again.
pub open spec fn spec_next_face_dir(face_dir: Option<Compass>) -> Option<Compass> {
    match face_dir {
        Some(Compass::Up) => Some(Compass::Right),
        Some(Compass::Right) => Some(Compass::Down),
        Some(Compass::Down) => Some(Compass::Left),
        Some(Compass::Left) => None,
        None => Some(Compass::Up),
    }
}

/// Facing after a turn of the entity tool: up, right, down, left, then no
/// facing, then up again.
pub fn next_face_dir(face_dir: Option<Compass>) -> (r: Option<Compass>)
    ensures
        r == spec_next_face_dir(face_dir),
{
    match face_dir {
        Some(Compass::Up) => Some(Compass::Right),
        Some(Compass::Right) => Some(Compass::Down),
        Some(Compass::Down) => Some(Compass::Left),
        Some(Compass::Left) => None,
        None => Some(Compass::Up),
    }
}

/// Five turns bring an entity back to its facing, and no fewer do.
pub proof fn law_face_dir_cycle(face_dir: Option<Compass>)
    ensures
        spec_next_face_dir(spec_next_face_dir(spec_next_face_dir(spec_next_face_dir(spec_next_face_dir(face_dir)))))
            == face_dir,
        spec_next_face_dir(face_dir) != face_dir,
        spec_next_face_dir(spec_next_face_dir(face_dir)) != face_dir,
        spec_next_face_dir(spec_next_face_dir(spec_next_face_dir(face_dir))) != face_dir,
        spec_next_face_dir(spec_next_face_dir(spec_next_face_dir(spec_next_face_dir(face_dir)))) != face_dir,
{
}

/// The entity tool and the editor after a left button press or release.
pub open spec fn entity_left_click_post(
    t0: EntityToolState,
    t1: EntityToolState,
    s0: EditorEditState,
    s1: EditorEditState,
    pressed: bool,
) -> bool {
    &&& s1.cursor_pos == s0.cursor_pos
    &&& s1.input == s0.input
    &&& s1.tool == s0.tool
    &&& s1.conn_src == s0.conn_src
    &&& s1.forcepath_last_pos == s0.forcepath_last_pos
    &&& s1.tool_pos == s0.tool_pos
    &&& s1.level.field == s0.level.field
    &&& {
        let ents = s0.level.ents@;
        let c = s0.cursor_pos;
        let next = s0.level.next_handle;
        if pressed {
            if exists|i: int| is_first_entity(ents, stands_on(c), i) {
                let i = choose|i: int| is_first_entity(ents, stands_on(c), i);
                &&& s1.level.ents@ == ents
                &&& s1.level.next_handle == next
                &&& t1.selected_ent == ents[i].handle
                &&& t1.selected_args == Some(ents[i].to_args())
            } else {
                match t0.selected_args {
                    Some(args) => {
                        &&& s1.level.ents@ == ents.push(
                            Entity { handle: (next + 1) as u32, kind: args.kind, pos: c, face_dir: args.face_dir },
                        )
                        &&& s1.level.next_handle == next + 1
                        &&& t1.selected_ent == next + 1
                        &&& t1.selected_args == t0.selected_args
                    },
                    None => {
                        &&& s1.level.ents@ == ents
                        &&& s1.level.next_handle == next
                        &&& t1 == t0
                    },
                }
            }
        } else {
            &&& t1 == t0
            &&& if exists|k: int| is_first_entity(ents, has_handle(t0.selected_ent), k)
                && ents[k].pos != c {
                let k = choose|k: int| is_first_entity(ents, has_handle(t0.selected_ent), k);
                &&& s1.level.ents@ == ents.remove(k).push(
                    Entity { handle: (next + 1) as u32, kind: ents[k].kind, pos: c, face_dir: ents[k].face_dir },
                )
                &&& s1.level.next_handle == next + 1
            } else {
                &&& s1.level.ents@ == ents
                &&& s1.level.next_handle == next
            }
        }
    }
}

/// The entity tool and the editor after a right button press or release.
pub open spec fn entity_right_click_post(
    t0: EntityToolState,
    t1: EntityToolState,
    s0: EditorEditState,
    s1: EditorEditState,
    pressed: bool,
) -> bool {
    &&& s1.cursor_pos == s0.cursor_pos
    &&& s1.input == s0.input
    &&& s1.tool == s0.tool
    &&& s1.conn_src == s0.conn_src
    &&& s1.forcepath_last_pos == s0.forcepath_last_pos
    &&& s1.tool_pos == s0.tool_pos
    &&& s1.level.field == s0.level.field
    &&& {
        let ents = s0.level.ents@;
        let c = s0.cursor_pos;
        let next = s0.level.next_handle;
        if pressed && exists|i: int| is_first_entity(ents, stands_on(c), i) {
            let i = choose|i: int| is_first_entity(ents, stands_on(c), i);
            let e = ents[i];
            let args = EntityArgs { kind: e.kind, pos: e.pos, face_dir: spec_next_face_dir(e.face_dir) };
            &&& s1.level.ents@ == ents.remove(i).push(
                Entity { handle: (next + 1) as u32, kind: args.kind, pos: args.pos, face_dir: args.face_dir },
            )
            &&& s1.level.next_handle == next + 1
            &&& t1.selected_ent == next + 1
            &&& t1.selected_args == Some(args)
        } else {
            &&& s1.level.ents@ == ents
            &&& s1.level.next_handle == next
            &&& t1 == t0
        }
    }
}

/// The entity tool and the editor after the delete key is pressed or released.
pub open spec fn entity_delete_post(
    t0: EntityToolState,
    t1: EntityToolState,
    s0: EditorEditState,
    s1: EditorEditState,
    pressed: bool,
) -> bool {
    &&& s1.cursor_pos == s0.cursor_pos
    &&& s1.input == s0.input
    &&& s1.tool == s0.tool
    &&& s1.conn_src == s0.conn_src
    &&& s1.forcepath_last_pos == s0.forcepath_last_pos
    &&& s1.tool_pos == s0.tool_pos
    &&& s1.level.field == s0.level.field
    &&& s1.level.next_handle == s0.level.next_handle
    &&& t1.selected_args == t0.selected_args
    &&& {
        let ents = s0.level.ents@;
        let c = s0.cursor_pos;
        let h = delete_target(ents, t0.selected_ent, c);
        if pressed {
            &&& t1.selected_ent == INVALID_ENTITY
            &&& if exists|k: int| is_first_entity(ents, has_handle(h), k) {
                let k = choose|k: int| is_first_entity(ents, has_handle(h), k);
                s1.level.ents@ == ents.remove(k)
            } else {
                s1.level.ents@ == ents
            }
        } else {
            &&& s1.level.ents@ == ents
            &&& t1 == t0
        }
    }
}

impl EntityToolState {
    /// Pressing picks the entity under the cursor or, on an empty tile,
    /// places a copy of the picked kind there; releasing over another tile
    /// moves the picked entity there (it is placed anew, under a new handle).
    pub fn left_click(&mut self, s: &mut EditorEditState, pressed: bool)
        requires
            old(s).wf(),
            old(s).level.next_handle < u32::MAX,
        ensures
            final(s).wf(),
            entity_left_click_post(*old(self), *final(self), *old(s), *final(s), pressed),
    {
        let cursor_pos = s.cursor_pos;
        let ghost ents = s.level.ents@;
        if pressed {
            // Sample from the existing entities
            let ehandle = s.level.entity_at(cursor_pos);
            if let Some(ehandle) = ehandle {
                self.selected_ent = ehandle;
                self.selected_args = None;
                if let Some(ent) = s.level.get(ehandle) {
                    self.selected_args = Some(ent.to_entity_args());
                }
                proof {
                    let i = choose|i: int| is_first_entity(ents, stands_on(cursor_pos), i) && ents[i].handle == ehandle;
                    let i2 = choose|i: int| is_first_entity(ents, stands_on(cursor_pos), i);
                    assert(i == i2);
                    assert(is_first_entity(ents, has_handle(ehandle), i));
                }
            }
            // Otherwise create a new entity
            else {
                if let Some(args) = self.selected_args {
                    self.selected_ent = s.level.entity_create(&EntityArgs { kind: args.kind, pos: cursor_pos, face_dir: args.face_dir });
                }
                proof {
                    assert(!exists|i: int| is_first_entity(ents, stands_on(cursor_pos), i));
                }
            }
        } else {
            // If we have a selected entity and the cursor has moved, move the entity
            if let Some(ent) = s.level.get(self.selected_ent) {
                if ent.pos != cursor_pos {
                    if let Some(args) = s.level.entity_remove(self.selected_ent) {
                        s.level.entity_create(&EntityArgs { kind: args.kind, pos: cursor_pos, face_dir: args.face_dir });
                    }
                }
            }
        }
    }
}

/// The entity a delete acts on: the picked one, or with nothing picked the
/// first entity on the cursor's tile (no entity if there is none).
pub open spec fn delete_target(ents: Seq<Entity>, selected: EntityHandle, c: Vec2i) -> EntityHandle {
    if selected != INVALID_ENTITY {
        selected
    } else if exists|i: int| is_first_entity(ents, stands_on(c), i) {
        ents[choose|i: int| is_first_entity(ents, stands_on(c), i)].handle
    } else {
        INVALID_ENTITY
    }
}

impl EntityToolState {
    /// Does nothing.
    pub fn think(&mut self, s: &mut EditorEditState)
        ensures
            *final(s) == *old(s),
            *final(self) == *old(self),
    {
    }

    /// Pressing over an entity picks it and turns it to its next facing; the
    /// turned entity is placed anew, after the others and under a new handle,
    /// and becomes the picked one.
    pub fn right_click(&mut self, s: &mut EditorEditState, pressed: bool)
        requires
            old(s).wf(),
            old(s).level.next_handle < u32::MAX,
        ensures
            final(s).wf(),
            entity_right_click_post(*old(self), *final(self), *old(s), *final(s), pressed),
    {
        let cursor_pos = s.cursor_pos;
        let ghost ents = s.level.ents@;
        if pressed {
            // Sample from the existing entities
            let ehandle = s.level.entity_at(cursor_pos);
            if let Some(ehandle) = ehandle {
                proof {
                    let i = choose|i: int| is_first_entity(ents, stands_on(cursor_pos), i) && ents[i].handle == ehandle;
                    let i2 = choose|i: int| is_first_entity(ents, stands_on(cursor_pos), i);
                    assert(i == i2);
                    assert(is_first_entity(ents, has_handle(ehandle), i));
                }
                // First select the entity
                self.selected_ent = ehandle;
                self.selected_args = None;
                if let Some(ent) = s.level.get(ehandle) {
                    self.selected_args = Some(ent.to_entity_args());
                    // Then rotate the entity
                    let kind = ent.kind;
                    let pos = ent.pos;
                    if let Some(args) = s.level.entity_remove(self.selected_ent) {
                        let new_args = EntityArgs { kind, pos, face_dir: next_face_dir(args.face_dir) };
                        self.selected_args = Some(new_args);
                        self.selected_ent = s.level.entity_create(&new_args);
                    }
                }
            }
        }
    }

    /// Pressing deletes the picked entity, or with nothing picked the entity
    /// under the cursor; afterwards nothing is picked.
    pub fn delete(&mut self, s: &mut EditorEditState, pressed: bool)
        requires
            old(s).wf(),
        ensures
            final(s).wf(),
            entity_delete_post(*old(self), *final(self), *old(s), *final(s), pressed),
    {
        let ghost ents = s.level.ents@;
        if pressed {
            if self.selected_ent == INVALID_ENTITY {
                let cursor_pos = s.cursor_pos;
                self.selected_ent = match s.level.entity_at(cursor_pos) {
                    Some(h) => h,
                    None => INVALID_ENTITY,
                };
                proof {
                    if exists|i: int| is_first_entity(ents, stands_on(cursor_pos), i) {
                        let i = choose|i: int| is_first_entity(ents, stands_on(cursor_pos), i)
                            && ents[i].handle == self.selected_ent;
                        let i2 = choose|i: int| is_first_entity(ents, stands_on(cursor_pos), i);
                        assert(i == i2);
                    }
                }
            }
            let h = self.selected_ent;
            assert(h == delete_target(ents, old(self).selected_ent, old(s).cursor_pos));
            if let Some(ent) = s.level.get(h) {
                let removed = s.level.entity_remove(h);
                proof {
                    let i = choose|i: int| {
                        &&& is_first_entity(ents, has_handle(h), i)
                        &&& removed->0 == ents[i].to_args()
                        &&& s.level.ents@ == ents.remove(i)
                    };
                    let k = choose|k: int| is_first_entity(ents, has_handle(h), k);
                    lemma_first_entity_unique(ents, has_handle(h), i, k);
                    assert(s.level.ents@ == ents.remove(k));
                }
            } else {
                assert(!exists|k: int| is_first_entity(ents, has_handle(h), k));
                assert(s.level.ents@ == ents);
            }
            self.selected_ent = INVALID_ENTITY;
        }
    }
}

} // verus!
