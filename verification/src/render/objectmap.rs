use vstd::prelude::*;
use std::collections::HashMap;

verus! {

broadcast use vstd::std_specs::hash::group_hash_axioms;

/// Names a drawn object; zero names none.
#[derive(Copy, Clone, Debug, Default, PartialEq, Eq, Hash, Structural)]
pub struct ObjectHandle(pub u32);

/// The drawn objects by handle, and the last handle given out.
pub struct ObjectMap<V> {
    pub map: HashMap<u32, V>,
    pub next: u32,
}

impl<V> ObjectMap<V> {
    /// The objects as a map from handle numbers.
    pub open spec fn objects(&self) -> Map<u32, V> {
        self.map@
    }

    /// No object has a handle above the last one given out, and none has
    /// handle zero.
    pub open spec fn wf(&self) -> bool {
        forall|h: u32| #[trigger] self.map@.contains_key(h) ==> 0 < h <= self.next
    }

    /// No objects; no handle given out yet.
    pub fn new() -> (r: ObjectMap<V>)
        ensures
            r.objects() == Map::<u32, V>::empty(),
            r.next == 0,
            r.wf(),
    {
        ObjectMap { map: HashMap::new(), next: 0 }
    }

    /// A handle no object had before: one past the last one given out.
    pub fn alloc_handle(&mut self) -> (r: ObjectHandle)
        requires
            old(self).next < u32::MAX,
        ensures
            r.0 == old(self).next + 1,
            final(self).next == r.0,
            final(self).objects() == old(self).objects(),
            old(self).wf() ==> final(self).wf() && !final(self).objects().contains_key(r.0),
    {
        self.next = self.next + 1;
        ObjectHandle(self.next)
    }

    /// Puts `obj` under `handle`, replacing what was there; the handle may
    /// not be zero.
    pub fn insert(&mut self, handle: ObjectHandle, obj: V)
        requires
            handle.0 != 0,
        ensures
            final(self).objects() == old(self).objects().insert(handle.0, obj),
            final(self).next == old(self).next,
            old(self).wf() && handle.0 <= old(self).next ==> final(self).wf(),
    {
        self.map.insert(handle.0, obj);
    }

    /// The object under `handle`, if any.
    pub fn get(&self, handle: ObjectHandle) -> (r: Option<&V>)
        ensures
            match r {
                Some(v) => self.objects().contains_key(handle.0) && *v == self.objects()[handle.0],
                None => !self.objects().contains_key(handle.0),
            },
    {
        self.map.get(&handle.0)
    }

    /// Takes the object under `handle` out, if any.
    pub fn remove(&mut self, handle: ObjectHandle) -> (r: Option<V>)
        ensures
            final(self).objects() == old(self).objects().remove(handle.0),
            final(self).next == old(self).next,
            match r {
                Some(v) => old(self).objects().contains_key(handle.0) && v == old(self).objects()[handle.0],
                None => !old(self).objects().contains_key(handle.0),
            },
            old(self).wf() ==> final(self).wf(),
    {
        self.map.remove(&handle.0)
    }

    /// The objects in the order of their handles.
    pub fn values(&self) -> (r: Vec<&V>)
        ensures
            r@.map_values(|v: &V| *v) == values_upto(self.objects(), self.next as int),
    {
        let mut out: Vec<&V> = Vec::new();
        let mut h: u32 = 0;
        assert(out@.map_values(|v: &V| *v) =~= values_upto(self.objects(), 0));
        while h < self.next
            invariant
                h <= self.next,
                out@.map_values(|v: &V| *v) == values_upto(self.objects(), h as int),
            decreases self.next - h,
        {
            h = h + 1;
            if let Some(v) = self.map.get(&h) {
                out.push(v);
                assert(out@.map_values(|v: &V| *v) =~= values_upto(self.objects(), h as int));
            }
        }
        out
    }

    /// Drops every object and starts the handles over.
    pub fn clear(&mut self)
        ensures
            final(self).objects() == Map::<u32, V>::empty(),
            final(self).next == 0,
            final(self).wf(),
    {
        self.map.clear();
        self.next = 0;
    }
}

/// The objects with handles up to `n`, in the order of their handles.
pub open spec fn values_upto<V>(m: Map<u32, V>, n: int) -> Seq<V>
    decreases n,
{
    if n <= 0 {
        Seq::empty()
    } else if m.contains_key(n as u32) {
        values_upto(m, n - 1).push(m[n as u32])
    } else {
        values_upto(m, n - 1)
    }
}

/// A handle given out is new: no object had it, and after putting an object
/// under it, reading it back gives that object.
pub proof fn law_alloc_insert_get<V>(before: Map<u32, V>, next: u32, h: u32, obj: V)
    requires
        forall|k: u32| #[trigger] before.contains_key(k) ==> 0 < k <= next,
        h == next + 1,
    ensures
        !before.contains_key(h),
        before.insert(h, obj).contains_key(h),
        before.insert(h, obj)[h] == obj,
        before.insert(h, obj).remove(h) == before,
{
    assert(before.insert(h, obj).remove(h) =~= before);
}

} // verus!
