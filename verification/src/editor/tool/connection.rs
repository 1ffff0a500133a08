use vstd::prelude::*;
use crate::data::terrain::Vec2i;
use crate::editor::editstate::{EditorEditState, sample_post};
use crate::editor::field::FieldConn;

verus! {

/// The connection tool; its drag start is kept by the editor.
#[derive(Copy, Clone)]
pub struct ConnectionToolState {}

impl ConnectionToolState {
    pub fn default() -> (r: ConnectionToolState) {
        ConnectionToolState {}
    }
}

/// Index of the first occurrence of `c` in `conns`.
pub open spec fn is_first_conn(conns: Seq<FieldConn>, c: FieldConn, i: int) -> bool {
    &&& 0 <= i < conns.len()
    &&& conns[i] == c
    &&& forall|j: int| 0 <= j < i ==> conns[j] != c
}

/// The connections after toggling `c`: its first occurrence is removed if
/// there is one, else it is appended.
pub open spec fn toggle_conn(conns: Seq<FieldConn>, c: FieldConn) -> Seq<FieldConn> {
    if exists|i: int| is_first_conn(conns, c, i) {
        let i = choose|i: int| is_first_conn(conns, c, i);
        conns.remove(i)
    } else {
        conns.push(c)
    }
}

/// No connection occurs twice.
pub open spec fn conns_distinct(conns: Seq<FieldConn>) -> bool {
    forall|i: int, j: int| 0 <= i < j < conns.len() ==> conns[i] != conns[j]
}

/// Toggling a connection twice, starting from a list without it, gives the
/// list back.
pub proof fn law_toggle_conn_twice(conns: Seq<FieldConn>, c: FieldConn)
    requires
        !conns.contains(c),
    ensures
        toggle_conn(toggle_conn(conns, c), c) == conns,
{
    let once = conns.push(c);
    assert(once[conns.len() as int] == c);
    assert(!exists|i: int| is_first_conn(conns, c, i));
    assert(is_first_conn(once, c, conns.len() as int));
    let i = choose|i: int| is_first_conn(once, c, i);
    if i < conns.len() {
        assert(once[i] == conns[i]);
        assert(conns.contains(c));
    }
    assert(once.remove(conns.len() as int) =~= conns);
}

/// Toggling keeps connections distinct, and afterwards `c` is there exactly
/// when it was not there before.
pub proof fn law_toggle_conn_distinct(conns: Seq<FieldConn>, c: FieldConn)
    requires
        conns_distinct(conns),
    ensures
        conns_distinct(toggle_conn(conns, c)),
        toggle_conn(conns, c).contains(c) == !conns.contains(c),
{
    if conns.contains(c) {
        let k = choose|k: int| 0 <= k < conns.len() && conns[k] == c;
        assert(is_first_conn(conns, c, k));
        let i = choose|i: int| is_first_conn(conns, c, i);
        let r = conns.remove(i);
        assert forall|a: int, b: int| 0 <= a < b < r.len() implies r[a] != r[b] by {
            let a0 = if a < i { a } else { a + 1 };
            let b0 = if b < i { b } else { b + 1 };
            assert(r[a] == conns[a0]);
            assert(r[b] == conns[b0]);
        }
        if r.contains(c) {
            let k = choose|k: int| 0 <= k < r.len() && r[k] == c;
            let k0 = if k < i { k } else { k + 1 };
            assert(r[k] == conns[k0]);
            assert(k0 != i);
        }
    } else {
        let r = conns.push(c);
        assert(!exists|i: int| is_first_conn(conns, c, i));
        assert(r[conns.len() as int] == c);
        assert forall|a: int, b: int| 0 <= a < b < r.len() implies r[a] != r[b] by {
            if b == conns.len() {
                assert(r[a] == conns[a]);
            }
        }
    }
}

/// Toggles `c` in the list, as `toggle_conn` says.
fn toggle(conns: &mut Vec<FieldConn>, c: FieldConn)
    ensures
        final(conns)@ == toggle_conn(old(conns)@, c),
{
    let mut i: usize = 0;
    while i < conns.len()
        invariant
            i <= conns@.len(),
            conns@ == old(conns)@,
            forall|j: int| 0 <= j < i ==> conns@[j] != c,
        decreases conns@.len() - i,
    {
        if conns[i] == c {
            let ghost before = conns@;
            proof {
                assert(is_first_conn(before, c, i as int));
                let k = choose|k: int| is_first_conn(before, c, k);
                assert(k == i as int) by {
                    if k < i {
                        assert(before[k] != c);
                    } else if k > i {
                        assert(before[i as int] != c);
                    }
                }
            }
            conns.remove(i);
            return;
        }
        i += 1;
    }
    assert(!exists|k: int| is_first_conn(conns@, c, k));
    conns.push(c);
}

/// The editor after a left button press or release with the connection tool.
pub open spec fn connection_left_click_post(s0: EditorEditState, s1: EditorEditState, pressed: bool) -> bool {
    let c = s0.cursor_pos;
    if pressed {
        let started = EditorEditState { conn_src: c, ..s0 };
        if c.x < 0 || c.y < 0 {
            sample_post(started, s1)
        } else {
            s1 == started
        }
    } else {
        let new_conn = FieldConn { src: s0.conn_src, dest: c };
        &&& s1.cursor_pos == c
        &&& s1.input == s0.input
        &&& s1.tool == s0.tool
        &&& s1.conn_src == s0.conn_src
        &&& s1.forcepath_last_pos == s0.forcepath_last_pos
        &&& s1.tool_pos == s0.tool_pos
        &&& s1.level.ents@ == s0.level.ents@
        &&& s1.level.next_handle == s0.level.next_handle
        &&& s1.level.field.width == s0.level.field.width
        &&& s1.level.field.height == s0.level.field.height
        &&& s1.level.field.terrain@ == s0.level.field.terrain@
        &&& s1.level.field.conns@ == if new_conn.src != new_conn.dest {
            toggle_conn(s0.level.field.conns@, new_conn)
        } else {
            s0.level.field.conns@
        }
    }
}

impl ConnectionToolState {
    /// Pressing starts a connection at the cursor (and, off the field,
    /// samples a tool); releasing over another tile toggles the connection
    /// from the start to the cursor.
    pub fn left_click(&mut self, s: &mut EditorEditState, pressed: bool)
        requires
            old(s).wf(),
        ensures
            final(s).wf(),
            *final(self) == *old(self),
            connection_left_click_post(*old(s), *final(s), pressed),
    {
        if pressed {
            s.conn_src = s.cursor_pos;

            if s.cursor_pos.x < 0 || s.cursor_pos.y < 0 {
                s.sample();
            }
        } else {
            let new_conn = FieldConn { src: s.conn_src, dest: s.cursor_pos };

            if new_conn.src != new_conn.dest {
                toggle(&mut s.level.field.conns, new_conn);
            }
        }
    }

    /// Does nothing.
    pub fn right_click(&mut self, s: &mut EditorEditState, pressed: bool)
        ensures
            *final(s) == *old(s),
            *final(self) == *old(self),
    {
    }

    /// Does nothing.
    pub fn think(&mut self, s: &mut EditorEditState)
        ensures
            *final(s) == *old(s),
            *final(self) == *old(self),
    {
    }
}

} // verus!
