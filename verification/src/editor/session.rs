use vstd::prelude::*;
use crate::editor::editstate::{EditorEditState, left_click_post, resize_fill, right_click_post, with_tool_back};
use crate::data::terrain::{Entity, Terrain};
use crate::editor::field::{EditLevel, Field, FieldConn};
use crate::editor::history::{History, HistoryModel, current_model, push_model, redo_model, undo_model};
use crate::editor::resize::{FieldLimits, resize_post};
use crate::editor::tool::{ToolState, tool_can_place, tool_delete_post, tool_think_post};

verus! {

/// Two levels hold the same field, connections, entities and handle count.
pub open spec fn same_level(a: EditLevel, b: EditLevel) -> bool {
    &&& a.field.width == b.field.width
    &&& a.field.height == b.field.height
    &&& a.field.terrain@ == b.field.terrain@
    &&& a.field.conns@ == b.field.conns@
    &&& a.ents@ == b.ents@
    &&& a.next_handle == b.next_handle
}

/// The editor with its undo history: every change the editor reports is
/// recorded, unless the level is the same as the history's current entry.
pub struct EditorSession {
    pub state: EditorEditState,
    pub history: History<EditLevel>,
}

/// The history after recording `level` when asked to (`record`): unchanged
/// when not asked or when the current entry is the same level, else pushed
/// with a copy of it.
pub open spec fn recorded(h0: HistoryModel<EditLevel>, h1: HistoryModel<EditLevel>, level: EditLevel, record: bool) -> bool {
    if !record || (current_model(h0) matches Some(cur) && same_level(cur, level)) {
        h1 == h0
    } else {
        exists|copy: EditLevel| same_level(copy, level) && h1 == push_model(h0, copy)
    }
}

/// A copy of a list of plain values.
fn copy_vec<T: Copy>(v: &Vec<T>) -> (r: Vec<T>)
    ensures
        r@ == v@,
{
    let mut out: Vec<T> = Vec::new();
    let mut i: usize = 0;
    while i < v.len()
        invariant
            i <= v@.len(),
            out@ == v@.take(i as int),
        decreases v@.len() - i,
    {
        out.push(v[i]);
        assert(out@ =~= v@.take(i + 1));
        i += 1;
    }
    assert(v@.take(v@.len() as int) =~= v@);
    out
}

impl EditLevel {
    /// A copy of the level.
    pub fn copy(&self) -> (r: EditLevel)
        ensures
            same_level(r, *self),
    {
        EditLevel {
            field: Field {
                width: self.field.width,
                height: self.field.height,
                terrain: copy_vec(&self.field.terrain),
                conns: copy_vec(&self.field.conns),
            },
            ents: copy_vec(&self.ents),
            next_handle: self.next_handle,
        }
    }

    /// Whether two levels are the same.
    pub fn same_as(&self, other: &EditLevel) -> (r: bool)
        ensures
            r == same_level(*self, *other),
    {
        if self.field.width != other.field.width || self.field.height != other.field.height
            || self.next_handle != other.next_handle {
            return false;
        }
        terrain_eq(&self.field.terrain, &other.field.terrain) && conns_eq(&self.field.conns, &other.field.conns)
            && ents_eq(&self.ents, &other.ents)
    }
}

/// Whether two lists of tiles are equal, element by element.
fn terrain_eq(a: &Vec<Terrain>, b: &Vec<Terrain>) -> (r: bool)
    ensures
        r == (a@ == b@),
{
    if a.len() != b.len() {
        return false;
    }
    let mut i: usize = 0;
    while i < a.len()
        invariant
            a@.len() == b@.len(),
            i <= a@.len(),
            forall|j: int| 0 <= j < i ==> a@[j] == b@[j],
        decreases a@.len() - i,
    {
        if a[i] != b[i] {
            return false;
        }
        i += 1;
    }
    assert(a@ =~= b@);
    true
}

/// Whether two lists of connections are equal, element by element.
fn conns_eq(a: &Vec<FieldConn>, b: &Vec<FieldConn>) -> (r: bool)
    ensures
        r == (a@ == b@),
{
    if a.len() != b.len() {
        return false;
    }
    let mut i: usize = 0;
    while i < a.len()
        invariant
            a@.len() == b@.len(),
            i <= a@.len(),
            forall|j: int| 0 <= j < i ==> a@[j] == b@[j],
        decreases a@.len() - i,
    {
        if a[i] != b[i] {
            return false;
        }
        i += 1;
    }
    assert(a@ =~= b@);
    true
}

/// Whether two lists of entities are equal, element by element.
fn ents_eq(a: &Vec<Entity>, b: &Vec<Entity>) -> (r: bool)
    ensures
        r == (a@ == b@),
{
    if a.len() != b.len() {
        return false;
    }
    let mut i: usize = 0;
    while i < a.len()
        invariant
            a@.len() == b@.len(),
            i <= a@.len(),
            forall|j: int| 0 <= j < i ==> a@[j] == b@[j],
        decreases a@.len() - i,
    {
        if a[i] != b[i] {
            return false;
        }
        i += 1;
    }
    assert(a@ =~= b@);
    true
}

impl EditorSession {
    /// The editor on a level, with a history holding only that level.
    pub fn new(state: EditorEditState) -> (r: EditorSession)
        ensures
            r.state == state,
            r.history@.entries.len() == 1,
            same_level(r.history@.entries[0], state.level),
            r.history@.cursor == 0,
    {
        let copy = state.level.copy();
        EditorSession { state, history: History::new(copy) }
    }

    /// Records the level in the history when asked to and when it differs
    /// from the current entry.
    fn record(&mut self, record: bool)
        ensures
            final(self).state == old(self).state,
            recorded(old(self).history@, final(self).history@, old(self).state.level, record),
    {
        if !record {
            return;
        }
        let same = match self.history.current() {
            Some(cur) => cur.same_as(&self.state.level),
            None => false,
        };
        if !same {
            let copy = self.state.level.copy();
            self.history.push(copy);
        }
    }

    /// A left button press or release, recorded after every release.
    pub fn left_click(&mut self, pressed: bool)
        requires
            old(self).state.wf(),
            old(self).state.tool matches Some(t) ==> tool_can_place(t, old(self).state),
        ensures
            final(self).state.wf(),
            left_click_post(old(self).state, final(self).state, pressed),
            recorded(old(self).history@, final(self).history@, final(self).state.level, !pressed),
    {
        let record = self.state.left_click(pressed);
        self.record(record);
    }

    /// A right button press or release, recorded after every release.
    pub fn right_click(&mut self, pressed: bool)
        requires
            old(self).state.wf(),
            old(self).state.tool matches Some(t) ==> tool_can_place(t, old(self).state),
        ensures
            final(self).state.wf(),
            right_click_post(old(self).state, final(self).state, pressed),
            recorded(old(self).history@, final(self).history@, final(self).state.level, !pressed),
    {
        let record = self.state.right_click(pressed);
        self.record(record);
    }

    /// The delete key, recorded after every release.
    pub fn delete(&mut self, pressed: bool)
        requires
            old(self).state.wf(),
        ensures
            final(self).state.wf(),
            match old(self).state.tool {
                None => final(self).state == old(self).state,
                Some(t0) => exists|t1: ToolState, mid: EditorEditState| {
                    &&& tool_delete_post(t0, t1, EditorEditState { tool: None, ..old(self).state }, mid, pressed)
                    &&& final(self).state == with_tool_back(mid, t1)
                },
            },
            recorded(old(self).history@, final(self).history@, final(self).state.level, !pressed),
    {
        let record = self.state.delete(pressed);
        self.record(record);
    }

    /// Lets the active tool act once per frame; nothing is recorded.
    pub fn think(&mut self)
        requires
            old(self).state.wf(),
        ensures
            final(self).state.wf(),
            final(self).history@ == old(self).history@,
            match old(self).state.tool {
                None => final(self).state == old(self).state,
                Some(t0) => exists|t1: ToolState, mid: EditorEditState| {
                    &&& tool_think_post(t0, t1, EditorEditState { tool: None, ..old(self).state }, mid)
                    &&& final(self).state == with_tool_back(mid, t1)
                },
            },
    {
        self.state.tool_think();
    }

    /// Resizes the field (positive expands, negative crops), recorded when
    /// it was resized.
    pub fn resize(&mut self, left: i32, top: i32, right: i32, bottom: i32, limits: FieldLimits)
        requires
            old(self).state.wf(),
            limits.min_width >= 0,
            limits.min_height >= 0,
        ensures
            final(self).state.wf(),
            final(self).state.tool == old(self).state.tool,
            final(self).state.cursor_pos == old(self).state.cursor_pos,
            exists|done: bool| {
                &&& resize_post(
                    old(self).state.level,
                    final(self).state.level,
                    left,
                    top,
                    right,
                    bottom,
                    resize_fill(old(self).state.tool),
                    limits,
                    done,
                )
                &&& recorded(old(self).history@, final(self).history@, final(self).state.level, done)
            },
    {
        let done = self.state.resize(left, top, right, bottom, limits);
        self.record(done);
    }

    /// Goes back to the previous entry of the history, if there is one, and
    /// puts a copy of it in the editor. Returns whether it went back.
    pub fn undo(&mut self) -> (done: bool)
        ensures
            final(self).history@ == undo_model(old(self).history@).0,
            done == (undo_model(old(self).history@).1 is Some),
            match undo_model(old(self).history@).1 {
                Some(prev) => same_level(final(self).state.level, prev)
                    && final(self).state == EditorEditState { level: final(self).state.level, ..old(self).state },
                None => final(self).state == old(self).state,
            },
    {
        match self.history.undo() {
            Some(prev) => {
                let copy = prev.copy();
                self.state.level = copy;
                true
            },
            None => false,
        }
    }

    /// Goes forward to the next entry of the history, if there is one, and
    /// puts a copy of it in the editor. Returns whether it went forward.
    pub fn redo(&mut self) -> (done: bool)
        ensures
            final(self).history@ == redo_model(old(self).history@).0,
            done == (redo_model(old(self).history@).1 is Some),
            match redo_model(old(self).history@).1 {
                Some(next) => same_level(final(self).state.level, next)
                    && final(self).state == EditorEditState { level: final(self).state.level, ..old(self).state },
                None => final(self).state == old(self).state,
            },
    {
        match self.history.redo() {
            Some(next) => {
                let copy = next.copy();
                self.state.level = copy;
                true
            },
            None => false,
        }
    }
}

} // verus!
