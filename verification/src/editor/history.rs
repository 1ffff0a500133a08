use vstd::prelude::*;
use vstd::std_specs::cmp::PartialEqSpec;

verus! {

/// Most entries a history keeps; the oldest entries are dropped first.
pub const LIMIT: usize = 100;

/// Abstract state of a history: its entries and the cursor into them.
pub struct HistoryModel<T> {
    pub entries: Seq<T>,
    pub cursor: nat,
}

/// A history is well formed when the cursor points at an entry (or the
/// history is empty with the cursor at zero) and it holds at most `LIMIT`
/// entries.
pub open spec fn model_wf<T>(h: HistoryModel<T>) -> bool {
    &&& h.entries.len() <= LIMIT
    &&& (h.entries.len() == 0 && h.cursor == 0) || h.cursor < h.entries.len()
}

/// Entries kept by a push: everything up to and including the cursor.
pub open spec fn kept_entries<T>(h: HistoryModel<T>) -> Seq<T> {
    if h.entries.len() == 0 {
        h.entries
    } else {
        h.entries.take(h.cursor + 1int)
    }
}

/// Number of oldest entries a push drops to stay within `LIMIT`.
pub open spec fn dropped_count(kept_len: nat) -> nat {
    if kept_len >= LIMIT {
        (kept_len - LIMIT + 1) as nat
    } else {
        0
    }
}

/// State after pushing `value`: redo entries are discarded, the oldest
/// entries are dropped to stay within `LIMIT`, the value becomes current.
pub open spec fn push_model<T>(h: HistoryModel<T>, value: T) -> HistoryModel<T> {
    let kept = kept_entries(h);
    let entries = kept.skip(dropped_count(kept.len()) as int).push(value);
    HistoryModel { entries, cursor: (entries.len() - 1) as nat }
}

/// State and result of an undo.
pub open spec fn undo_model<T>(h: HistoryModel<T>) -> (HistoryModel<T>, Option<T>) {
    if h.cursor == 0 {
        (h, None)
    } else {
        let cursor = (h.cursor - 1) as nat;
        (HistoryModel { entries: h.entries, cursor }, Some(h.entries[cursor as int]))
    }
}

/// State and result of a redo.
pub open spec fn redo_model<T>(h: HistoryModel<T>) -> (HistoryModel<T>, Option<T>) {
    if h.cursor + 1 < h.entries.len() {
        let cursor = h.cursor + 1;
        (HistoryModel { entries: h.entries, cursor }, Some(h.entries[cursor as int]))
    } else {
        (h, None)
    }
}

/// The entry under the cursor, if any.
pub open spec fn current_model<T>(h: HistoryModel<T>) -> Option<T> {
    if h.cursor < h.entries.len() {
        Some(h.entries[h.cursor as int])
    } else {
        None
    }
}

/// The history after pushing `value` only if it differs from the current
/// entry: pushed or unchanged, pushed when there is no current entry, and,
/// where `T`'s `==` states what it means, pushed exactly when it differs.
pub open spec fn push_if_post<T: PartialEq>(h0: HistoryModel<T>, h1: HistoryModel<T>, value: T) -> bool {
    &&& h1 == h0 || h1 == push_model(h0, value)
    &&& current_model(h0) is None ==> h1 == push_model(h0, value)
    &&& T::obeys_eq_spec() ==> match current_model(h0) {
        Some(cur) => if cur.eq_spec(&value) {
            h1 == h0
        } else {
            h1 == push_model(h0, value)
        },
        None => h1 == push_model(h0, value),
    }
}

/// Simple history stack for undo/redo functionality.
#[derive(Debug)]
pub struct History<T> {
    entries: Vec<T>,
    cursor: usize,
}

impl<T> View for History<T> {
    type V = HistoryModel<T>;

    closed spec fn view(&self) -> HistoryModel<T> {
        HistoryModel { entries: self.entries@, cursor: self.cursor as nat }
    }
}

impl<T> History<T> {
    /// The cursor is on an entry (or the history is empty with the cursor at
    /// zero), and at most `LIMIT` entries are kept.
    #[verifier::type_invariant]
    spec fn inv(&self) -> bool {
        model_wf(self@)
    }

    /// The history is well formed; every history is, and every operation
    /// says so of what it leaves.
    pub open spec fn wf(&self) -> bool {
        model_wf(self@)
    }
}

impl<T: Clone> Clone for History<T> {
    /// A copy: each entry cloned, the cursor on the same entry.
    fn clone(&self) -> (r: Self)
        ensures
            r@.cursor == self@.cursor,
            r@.entries.len() == self@.entries.len(),
            forall|i: int| 0 <= i < self@.entries.len() ==> cloned::<T>(self@.entries[i], #[trigger] r@.entries[i]),
    {
        proof {
            use_type_invariant(self);
        }
        History { entries: self.entries.clone(), cursor: self.cursor }
    }
}

impl<T> Default for History<T> {
    /// The empty history: no entries, the cursor at zero.
    fn default() -> (h: Self)
        ensures
            h.wf(),
            h@.entries == Seq::<T>::empty(),
            h@.cursor == 0,
    {
        History { entries: Vec::new(), cursor: 0 }
    }
}

impl<T> History<T> {
    /// Create a new history with given initial state.
    pub fn new(init: T) -> (h: Self)
        ensures
            h.wf(),
            h@.entries == seq![init],
            h@.cursor == 0,
    {
        let mut entries = Vec::new();
        entries.push(init);
        History { entries, cursor: 0 }
    }

    /// Clear the history.
    pub fn clear(&mut self, init: T)
        ensures
            final(self).wf(),
            final(self)@.entries == seq![init],
            final(self)@.cursor == 0,
    {
        *self = History::new(init);
    }

    /// Push a new entry onto the history, truncating any "redo" entries.
    pub fn push(&mut self, value: T)
        ensures
            final(self).wf(),
            final(self)@ == push_model(old(self)@, value),
    {
        proof {
            use_type_invariant(&*self);
        }
        let ghost h0 = self@;
        let mut taken = History { entries: Vec::new(), cursor: 0 };
        std::mem::swap(self, &mut taken);
        let History { mut entries, mut cursor } = taken;
        assert(h0 == HistoryModel { entries: entries@, cursor: cursor as nat });
        if cursor + 1 < entries.len() {
            entries.truncate(cursor + 1);
        }
        let ghost kept = entries@;
        assert(kept == kept_entries(h0));
        let ghost mut removed: nat = 0;
        while entries.len() >= LIMIT
            invariant
                kept.len() <= LIMIT,
                removed <= kept.len(),
                entries@ == kept.skip(removed as int),
                removed <= dropped_count(kept.len()),
                entries.len() < LIMIT ==> removed == dropped_count(kept.len()),
            decreases entries.len(),
        {
            entries.remove(0);
            if cursor > 0 {
                cursor -= 1;
            }
            proof {
                assert(kept.skip(removed as int).subrange(1, kept.skip(removed as int).len() as int)
                    =~= kept.skip(removed + 1int));
                removed = removed + 1;
            }
        }
        entries.push(value);
        let last = entries.len() - 1;
        *self = History { entries, cursor: last };
    }

    /// Push a new entry onto the history only if it differs from the current entry.
    ///
    /// Whether two entries differ is decided by `T`'s `==`; where `T` states
    /// what its `==` means (`obeys_eq_spec`), the result is pinned down exactly.
    pub fn push_if(&mut self, value: T)
        where T: PartialEq
        ensures
            final(self).wf(),
            push_if_post(old(self)@, final(self)@, value),
    {
        proof {
            use_type_invariant(&*self);
        }
        if self.cursor < self.entries.len() {
            if self.entries[self.cursor] == value {
                return;
            }
        }
        self.push(value);
    }

    /// The entry under the cursor, if any.
    pub fn current(&self) -> (r: Option<&T>)
        ensures
            r == match current_model(self@) { Some(v) => Some(&v), None => None },
    {
        if self.cursor < self.entries.len() {
            Some(&self.entries[self.cursor])
        } else {
            None
        }
    }

    /// Undo the last action, returning the previous entry if available.
    pub fn undo(&mut self) -> (r: Option<&T>)
        ensures
            final(self).wf(),
            final(self)@ == undo_model(old(self)@).0,
            r == match undo_model(old(self)@).1 { Some(v) => Some(&v), None => None },
    {
        proof {
            use_type_invariant(&*self);
        }
        if self.cursor == 0 {
            return None;
        }
        self.cursor -= 1;
        Some(&self.entries[self.cursor])
    }

    /// Redo the last undone action, returning the next entry if available.
    pub fn redo(&mut self) -> (r: Option<&T>)
        ensures
            final(self).wf(),
            final(self)@ == redo_model(old(self)@).0,
            r == match redo_model(old(self)@).1 { Some(v) => Some(&v), None => None },
    {
        proof {
            use_type_invariant(&*self);
        }
        if self.cursor + 1 < self.entries.len() {
            self.cursor += 1;
            Some(&self.entries[self.cursor])
        } else {
            None
        }
    }
}

/// Pushing keeps a history well formed: the cursor stays on an entry and
/// no more than `LIMIT` entries are kept.
pub proof fn law_push_keeps_wf<T>(h: HistoryModel<T>, value: T)
    requires
        model_wf(h),
    ensures
        model_wf(push_model(h, value)),
        push_model(h, value).entries.len() <= LIMIT,
{
}

/// After a push the pushed value is the current entry and there is nothing
/// left to redo.
pub proof fn law_push_then_redo_is_empty<T>(h: HistoryModel<T>, value: T)
    requires
        model_wf(h),
    ensures
        current_model(push_model(h, value)) == Some(value),
        redo_model(push_model(h, value)).1 is None,
        redo_model(push_model(h, value)).0 == push_model(h, value),
{
}

/// Undoing a push gives back the entry that was current before the push.
pub proof fn law_undo_after_push<T>(h: HistoryModel<T>, value: T)
    requires
        model_wf(h),
        h.entries.len() > 0,
    ensures
        undo_model(push_model(h, value)).1 == current_model(h),
{
    let kept = kept_entries(h);
    let d = dropped_count(kept.len());
    assert(kept.len() == h.cursor + 1);
    assert(kept.skip(d as int).push(value)[kept.len() - d - 1] == kept[kept.len() - 1]);
}

/// A redo undoes an undo: the history returns to the state before the undo
/// and the redo gives back the entry that was current then.
pub proof fn law_redo_after_undo<T>(h: HistoryModel<T>)
    requires
        model_wf(h),
        undo_model(h).1 is Some,
    ensures
        redo_model(undo_model(h).0).0 == h,
        redo_model(undo_model(h).0).1 == current_model(h),
{
}

/// An undo undoes a redo: the history returns to the state before the redo
/// and the undo gives back the entry that was current then.
pub proof fn law_undo_after_redo<T>(h: HistoryModel<T>)
    requires
        model_wf(h),
        redo_model(h).1 is Some,
    ensures
        undo_model(redo_model(h).0).0 == h,
        undo_model(redo_model(h).0).1 == current_model(h),
{
}

/// Undo and redo never change the entries, only the cursor.
pub proof fn law_undo_redo_keep_entries<T>(h: HistoryModel<T>)
    requires
        model_wf(h),
    ensures
        undo_model(h).0.entries == h.entries,
        redo_model(h).0.entries == h.entries,
        model_wf(undo_model(h).0),
        model_wf(redo_model(h).0),
{
}

/// For entry types whose `==` states what it means: pushing a value that
/// differs from the current entry (or onto a history with no current
/// entry) is a plain push, and pushing the current entry again changes
/// nothing.
pub proof fn law_push_if_is_push_when_different<T: PartialEq>(h0: HistoryModel<T>, h1: HistoryModel<T>, value: T)
    requires
        T::obeys_eq_spec(),
        push_if_post(h0, h1, value),
    ensures
        (match current_model(h0) {
            Some(cur) => !cur.eq_spec(&value),
            None => true,
        }) ==> h1 == push_model(h0, value),
        (match current_model(h0) {
            Some(cur) => cur.eq_spec(&value),
            None => false,
        }) ==> h1 == h0,
{
}

} // verus!
