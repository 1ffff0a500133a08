use vstd::prelude::*;
use crate::data::terrain::{Entity, EntityArgs, EntityHandle, EntityKind, INVALID_ENTITY, Terrain, Vec2i};

verus! {

/// A connection from a button or teleport to the tile it acts on.
#[derive(Copy, Clone, Debug, PartialEq, Eq, Structural)]
pub struct FieldConn {
    pub src: Vec2i,
    pub dest: Vec2i,
}

/// The terrain grid of a level, row by row, and its connections.
pub struct Field {
    pub width: i32,
    pub height: i32,
    pub terrain: Vec<Terrain>,
    pub conns: Vec<FieldConn>,
}

/// The level being edited: its field, the entities placed on it in the
/// order they were placed, and the last handle given out.
pub struct EditLevel {
    pub field: Field,
    pub ents: Vec<Entity>,
    pub next_handle: EntityHandle,
}

/// The tile lies on a `width` by `height` field.
pub open spec fn in_bounds(pos: Vec2i, width: int, height: int) -> bool {
    0 <= pos.x < width && 0 <= pos.y < height
}

/// Index of a tile in the row by row terrain list.
pub open spec fn tile_index(pos: Vec2i, width: int) -> int {
    pos.y * width + pos.x
}

/// Terrain of a tile; tiles off the field are blank.
pub open spec fn terrain_at(terrain: Seq<Terrain>, width: int, height: int, pos: Vec2i) -> Terrain {
    if in_bounds(pos, width, height) && tile_index(pos, width) < terrain.len() {
        terrain[tile_index(pos, width)]
    } else {
        Terrain::Blank
    }
}

/// The terrain list after setting the tile at `pos` to `t`; positions off
/// the field change nothing.
pub open spec fn with_tile(terrain: Seq<Terrain>, width: int, height: int, pos: Vec2i, t: Terrain) -> Seq<Terrain> {
    if in_bounds(pos, width, height) {
        terrain.update(tile_index(pos, width), t)
    } else {
        terrain
    }
}

pub proof fn lemma_tile_index_bounds(pos: Vec2i, width: int, height: int)
    requires
        in_bounds(pos, width, height),
    ensures
        0 <= tile_index(pos, width) < width * height,
{
    assert(0 <= pos.y * width + pos.x < width * height) by (nonlinear_arith)
        requires
            0 <= pos.x < width,
            0 <= pos.y < height,
    ;
}

pub proof fn lemma_tile_index_injective(p: Vec2i, q: Vec2i, width: int, height: int)
    requires
        in_bounds(p, width, height),
        in_bounds(q, width, height),
        tile_index(p, width) == tile_index(q, width),
    ensures
        p == q,
{
    assert(p.y == q.y) by (nonlinear_arith)
        requires
            0 <= p.x < width,
            0 <= q.x < width,
            p.y * width + p.x == q.y * width + q.x,
    ;
}

impl Field {
    /// The terrain list holds one tile per position of the field.
    pub open spec fn wf(&self) -> bool {
        &&& self.width >= 0
        &&& self.height >= 0
        &&& self.terrain@.len() == self.width * self.height
    }

    /// Terrain of a tile; tiles off the field are blank.
    pub open spec fn spec_terrain(&self, pos: Vec2i) -> Terrain {
        terrain_at(self.terrain@, self.width as int, self.height as int, pos)
    }

    /// Terrain of a tile; tiles off the field are blank.
    pub fn get_terrain(&self, pos: Vec2i) -> (r: Terrain)
        requires
            self.wf(),
        ensures
            r == self.spec_terrain(pos),
    {
        if pos.x < 0 || pos.y < 0 || pos.x >= self.width || pos.y >= self.height {
            return Terrain::Blank;
        }
        let index = self.index_of(pos);
        self.terrain[index]
    }

    /// Index of an on-field tile in the terrain list.
    pub fn index_of(&self, pos: Vec2i) -> (r: usize)
        requires
            self.wf(),
            in_bounds(pos, self.width as int, self.height as int),
        ensures
            r == tile_index(pos, self.width as int),
            r < self.terrain@.len(),
    {
        proof {
            lemma_tile_index_bounds(pos, self.width as int, self.height as int);
        }
        let y = pos.y as usize;
        let w = self.width as usize;
        let x = pos.x as usize;
        assert(y as int * w as int == pos.y * self.width);
        let len = self.terrain.len();
        assert(y * w + x < len);
        y * w + x
    }

    /// Changes the terrain of an on-field tile; other tiles are left alone.
    pub fn set_terrain(&mut self, pos: Vec2i, terrain: Terrain)
        requires
            old(self).wf(),
        ensures
            final(self).wf(),
            final(self).width == old(self).width,
            final(self).height == old(self).height,
            final(self).conns@ == old(self).conns@,
            final(self).terrain@ == if in_bounds(pos, old(self).width as int, old(self).height as int) {
                old(self).terrain@.update(tile_index(pos, old(self).width as int), terrain)
            } else {
                old(self).terrain@
            },
    {
        if pos.x < 0 || pos.y < 0 || pos.x >= self.width || pos.y >= self.height {
            return;
        }
        let index = self.index_of(pos);
        self.terrain.set(index, terrain);
    }
}

/// Entities left after removing every block standing on a tile for which
/// `on` holds.
pub open spec fn without_blocks(ents: Seq<Entity>, on: spec_fn(Vec2i) -> bool) -> Seq<Entity>
    decreases ents.len(),
{
    if ents.len() == 0 {
        ents
    } else {
        let prev = without_blocks(ents.drop_last(), on);
        let e = ents.last();
        if e.kind == EntityKind::Block && on(e.pos) {
            prev
        } else {
            prev.push(e)
        }
    }
}

pub proof fn lemma_without_blocks_twice(ents: Seq<Entity>, f: spec_fn(Vec2i) -> bool, g: spec_fn(Vec2i) -> bool)
    ensures
        without_blocks(without_blocks(ents, f), g) == without_blocks(ents, |p: Vec2i| f(p) || g(p)),
    decreases ents.len(),
{
    if ents.len() > 0 {
        lemma_without_blocks_twice(ents.drop_last(), f, g);
        let prev = without_blocks(ents.drop_last(), f);
        let e = ents.last();
        if !(e.kind == EntityKind::Block && f(e.pos)) {
            assert(prev.push(e).drop_last() =~= prev);
        }
    }
}

pub proof fn lemma_without_blocks_same(ents: Seq<Entity>, f: spec_fn(Vec2i) -> bool, g: spec_fn(Vec2i) -> bool)
    requires
        forall|p: Vec2i| #[trigger] f(p) == g(p),
    ensures
        without_blocks(ents, f) == without_blocks(ents, g),
    decreases ents.len(),
{
    if ents.len() > 0 {
        lemma_without_blocks_same(ents.drop_last(), f, g);
    }
}

/// Holds of exactly the tile `pos`.
pub open spec fn on_tile(pos: Vec2i) -> spec_fn(Vec2i) -> bool {
    |p: Vec2i| p == pos
}

/// Every entity has its own handle, none of them invalid and none above
/// the last handle given out.
pub open spec fn handles_ok(ents: Seq<Entity>, next_handle: EntityHandle) -> bool {
    &&& forall|i: int| 0 <= i < ents.len() ==> 0 < #[trigger] ents[i].handle <= next_handle
    &&& forall|i: int, j: int| 0 <= i < ents.len() && 0 <= j < ents.len() && i != j
        ==> ents[i].handle != ents[j].handle
}

pub proof fn lemma_without_blocks_sub(ents: Seq<Entity>, on: spec_fn(Vec2i) -> bool, next_handle: EntityHandle)
    requires
        handles_ok(ents, next_handle),
    ensures
        handles_ok(without_blocks(ents, on), next_handle),
        forall|e: Entity| without_blocks(ents, on).contains(e) ==> ents.contains(e),
    decreases ents.len(),
{
    if ents.len() > 0 {
        let d = ents.drop_last();
        assert(handles_ok(d, next_handle)) by {
            assert forall|i: int| 0 <= i < d.len() implies 0 < #[trigger] d[i].handle <= next_handle by {
                assert(d[i] == ents[i]);
            }
            assert forall|i: int, j: int| 0 <= i < d.len() && 0 <= j < d.len() && i != j
                implies d[i].handle != d[j].handle by {
                assert(d[i] == ents[i] && d[j] == ents[j]);
            }
        }
        lemma_without_blocks_sub(d, on, next_handle);
        let prev = without_blocks(d, on);
        assert forall|e: Entity| prev.contains(e) implies ents.contains(e) by {
            assert(d.contains(e));
            let k = choose|k: int| 0 <= k < d.len() && d[k] == e;
            assert(ents[k] == e);
        }
        let last = ents.last();
        if !(last.kind == EntityKind::Block && on(last.pos)) {
            let r = prev.push(last);
            assert forall|e: Entity| r.contains(e) implies ents.contains(e) by {
                let k = choose|k: int| 0 <= k < r.len() && r[k] == e;
                if k < prev.len() {
                    assert(prev[k] == e);
                    assert(prev.contains(e));
                } else {
                    assert(ents[ents.len() - 1] == e);
                }
            }
            assert forall|i: int, j: int| 0 <= i < r.len() && 0 <= j < r.len() && i != j
                implies r[i].handle != r[j].handle by {
                if i < prev.len() && j < prev.len() {
                    assert(r[i] == prev[i] && r[j] == prev[j]);
                } else if i < prev.len() {
                    assert(prev.contains(r[i]));
                    assert(d.contains(r[i]));
                    let k = choose|k: int| 0 <= k < d.len() && d[k] == r[i];
                    assert(ents[k] == r[i]);
                } else if j < prev.len() {
                    assert(prev.contains(r[j]));
                    assert(d.contains(r[j]));
                    let k = choose|k: int| 0 <= k < d.len() && d[k] == r[j];
                    assert(ents[k] == r[j]);
                }
            }
            assert forall|i: int| 0 <= i < r.len() implies 0 < #[trigger] r[i].handle <= next_handle by {
                if i < prev.len() {
                    assert(r[i] == prev[i]);
                }
            }
        }
    }
}

impl EditLevel {
    /// The field is well formed and every entity has its own valid handle.
    pub open spec fn wf(&self) -> bool {
        &&& self.field.wf()
        &&& handles_ok(self.ents@, self.next_handle)
    }

    /// Removes every block entity standing on `pos`.
    pub fn remove_blocks_at(&mut self, pos: Vec2i)
        ensures
            final(self).field == old(self).field,
            final(self).next_handle == old(self).next_handle,
            final(self).ents@ == without_blocks(old(self).ents@, on_tile(pos)),
            old(self).wf() ==> final(self).wf(),
    {
        let ghost on = on_tile(pos);
        let ghost ents0 = self.ents@;
        let mut kept: Vec<Entity> = Vec::new();
        let mut i: usize = 0;
        while i < self.ents.len()
            invariant
                i <= self.ents@.len(),
                kept@ == without_blocks(self.ents@.take(i as int), on),
                forall|p: Vec2i| #[trigger] on(p) == (p == pos),
            decreases self.ents@.len() - i,
        {
            let e = self.ents[i];
            assert(self.ents@.take(i + 1).drop_last() =~= self.ents@.take(i as int));
            assert(self.ents@.take(i + 1).last() == e);
            assert(on(e.pos) == (e.pos == pos));
            if !(matches!(e.kind, EntityKind::Block) && e.pos == pos) {
                kept.push(e);
            }
            i += 1;
        }
        assert(self.ents@.take(self.ents@.len() as int) =~= self.ents@);
        self.ents = kept;
        proof {
            if handles_ok(ents0, self.next_handle) {
                lemma_without_blocks_sub(ents0, on, self.next_handle);
            }
        }
    }
}

/// Index of the first entity satisfying `f` .
pub open spec fn is_first_entity(ents: Seq<Entity>, f: spec_fn(Entity) -> bool, i: int) -> bool {
    &&& 0 <= i < ents.len()
    &&& f(ents[i])
    &&& forall|j: int| 0 <= j < i ==> !f(ents[j])
}

/// There is at most one first entity satisfying `f`.
pub proof fn lemma_first_entity_unique(ents: Seq<Entity>, f: spec_fn(Entity) -> bool, i: int, k: int)
    requires
        is_first_entity(ents, f, i),
        is_first_entity(ents, f, k),
    ensures
        i == k,
{
    if i < k {
        assert(!f(ents[i]));
    } else if k < i {
        assert(!f(ents[k]));
    }
}

/// Holds of entities standing on `pos`.
pub open spec fn stands_on(pos: Vec2i) -> spec_fn(Entity) -> bool {
    |e: Entity| e.pos == pos
}

/// Holds of the entity with handle `h`.
pub open spec fn has_handle(h: EntityHandle) -> spec_fn(Entity) -> bool {
    |e: Entity| e.handle == h
}

/// `l1` is `l0` with a new entity placed after the others under the fresh
/// handle `r`.
pub open spec fn entity_create_post(l0: EditLevel, l1: EditLevel, args: EntityArgs, r: EntityHandle) -> bool {
    &&& r == l0.next_handle + 1
    &&& l1.next_handle == r
    &&& l1.field == l0.field
    &&& l1.ents@ == l0.ents@.push(Entity { handle: r, kind: args.kind, pos: args.pos, face_dir: args.face_dir })
}

/// `l1` is `l0` without the first entity with handle `handle`, and `r` is
/// what it takes to place that entity again; `None` and no change when
/// there is no such entity.
pub open spec fn entity_remove_post(l0: EditLevel, l1: EditLevel, handle: EntityHandle, r: Option<EntityArgs>) -> bool {
    &&& l1.field == l0.field
    &&& l1.next_handle == l0.next_handle
    &&& match r {
        Some(args) => exists|i: int| {
            &&& is_first_entity(l0.ents@, has_handle(handle), i)
            &&& args == l0.ents@[i].to_args()
            &&& l1.ents@ == l0.ents@.remove(i)
        },
        None => {
            &&& forall|j: int| 0 <= j < l0.ents@.len() ==> l0.ents@[j].handle != handle
            &&& l1.ents@ == l0.ents@
        },
    }
}

impl EditLevel {
    /// Index of the first entity satisfying `f`.
    fn find_index(&self, pos: Vec2i, by_pos: bool, handle: EntityHandle) -> (r: Option<usize>)
        ensures
            ({
                let f = if by_pos { stands_on(pos) } else { has_handle(handle) };
                match r {
                    Some(i) => is_first_entity(self.ents@, f, i as int),
                    None => forall|j: int| 0 <= j < self.ents@.len() ==> !f(self.ents@[j]),
                }
            }),
    {
        let ghost f = if by_pos { stands_on(pos) } else { has_handle(handle) };
        let mut i: usize = 0;
        while i < self.ents.len()
            invariant
                i <= self.ents@.len(),
                f == (if by_pos { stands_on(pos) } else { has_handle(handle) }),
                forall|j: int| 0 <= j < i ==> !f(self.ents@[j]),
            decreases self.ents@.len() - i,
        {
            let e = self.ents[i];
            let hit = if by_pos { e.pos == pos } else { e.handle == handle };
            assert(hit == f(e));
            if hit {
                return Some(i);
            }
            i += 1;
        }
        None
    }

    /// Handle of the first entity standing on `pos`, if any.
    pub fn entity_at(&self, pos: Vec2i) -> (r: Option<EntityHandle>)
        ensures
            match r {
                Some(h) => exists|i: int| is_first_entity(self.ents@, stands_on(pos), i) && self.ents@[i].handle == h,
                None => forall|j: int| 0 <= j < self.ents@.len() ==> self.ents@[j].pos != pos,
            },
    {
        match self.find_index(pos, true, INVALID_ENTITY) {
            Some(i) => Some(self.ents[i].handle),
            None => {
                assert(forall|j: int| 0 <= j < self.ents@.len() ==> !stands_on(pos)(self.ents@[j]));
                None
            },
        }
    }

    /// The first entity with handle `handle`, if any.
    pub fn get(&self, handle: EntityHandle) -> (r: Option<Entity>)
        ensures
            match r {
                Some(e) => exists|i: int| is_first_entity(self.ents@, has_handle(handle), i) && self.ents@[i] == e,
                None => forall|j: int| 0 <= j < self.ents@.len() ==> self.ents@[j].handle != handle,
            },
    {
        match self.find_index(Vec2i { x: 0, y: 0 }, false, handle) {
            Some(i) => Some(self.ents[i]),
            None => {
                assert(forall|j: int| 0 <= j < self.ents@.len() ==> !has_handle(handle)(self.ents@[j]));
                None
            },
        }
    }

    /// Places a new entity after the others, under a fresh handle.
    pub fn entity_create(&mut self, args: &EntityArgs) -> (r: EntityHandle)
        requires
            old(self).next_handle < u32::MAX,
        ensures
            entity_create_post(*old(self), *final(self), *args, r),
            old(self).wf() ==> final(self).wf(),
    {
        self.next_handle = self.next_handle + 1;
        let handle = self.next_handle;
        self.ents.push(Entity { handle, kind: args.kind, pos: args.pos, face_dir: args.face_dir });
        handle
    }

    /// Removes the first entity with handle `handle`, giving back what it
    /// takes to place it again.
    pub fn entity_remove(&mut self, handle: EntityHandle) -> (r: Option<EntityArgs>)
        ensures
            entity_remove_post(*old(self), *final(self), handle, r),
            old(self).wf() ==> final(self).wf(),
    {
        match self.find_index(Vec2i { x: 0, y: 0 }, false, handle) {
            Some(i) => {
                let ghost before = self.ents@;
                let e = self.ents.remove(i);
                proof {
                    assert forall|a: int| 0 <= a < self.ents@.len() implies
                        self.ents@[a] == before[if a < i { a } else { a + 1 }] by {}
                }
                Some(e.to_entity_args())
            },
            None => {
                assert(forall|j: int| 0 <= j < self.ents@.len() ==> !has_handle(handle)(self.ents@[j]));
                None
            },
        }
    }
}

/// Removing the entity that was just placed gives back what placed it and
/// leaves the entities as they were before.
pub proof fn law_remove_undoes_create(
    l0: EditLevel,
    l1: EditLevel,
    l2: EditLevel,
    args: EntityArgs,
    handle: EntityHandle,
    removed: Option<EntityArgs>,
)
    requires
        l0.wf(),
        l0.next_handle < u32::MAX,
        entity_create_post(l0, l1, args, handle),
        entity_remove_post(l1, l2, handle, removed),
    ensures
        removed == Some(args),
        l2.ents@ == l0.ents@,
        l2.field == l0.field,
{
    let n = l0.ents@.len() as int;
    assert(l1.ents@[n].handle == handle);
    assert forall|j: int| 0 <= j < n implies l1.ents@[j].handle != handle by {
        assert(l1.ents@[j] == l0.ents@[j]);
        assert(0 < l0.ents@[j].handle <= l0.next_handle);
    }
    if let Some(a) = removed {
        let i = choose|i: int| {
            &&& is_first_entity(l1.ents@, has_handle(handle), i)
            &&& a == l1.ents@[i].to_args()
            &&& l2.ents@ == l1.ents@.remove(i)
        };
        assert(has_handle(handle)(l1.ents@[i]));
        assert(i == n);
        assert(l1.ents@.remove(n) =~= l0.ents@);
    }
}

impl EditLevel {
    /// Whether the level is well formed: the terrain list fits the field
    /// size and every entity has its own handle, at most the last one given
    /// out.
    pub fn is_wf(&self) -> (r: bool)
        ensures
            r == self.wf(),
    {
        let w = self.field.width;
        let h = self.field.height;
        if w < 0 || h < 0 {
            return false;
        }
        assert((w as u64) * (h as u64) <= 0x4000_0000_0000_0000) by (nonlinear_arith)
            requires
                0 <= w <= 0x7fff_ffff,
                0 <= h <= 0x7fff_ffff,
        ;
        let cells: u64 = w as u64 * h as u64;
        if cells != self.field.terrain.len() as u64 {
            assert(self.field.terrain@.len() != self.field.width * self.field.height) by (nonlinear_arith)
                requires
                    cells == w as u64 * h as u64,
                    cells != self.field.terrain@.len(),
                    w >= 0,
                    h >= 0,
                    self.field.terrain@.len() <= u64::MAX,
                    w == self.field.width,
                    h == self.field.height,
            ;
            return false;
        }
        assert(self.field.terrain@.len() == self.field.width * self.field.height) by (nonlinear_arith)
            requires
                cells == w as u64 * h as u64,
                cells == self.field.terrain@.len(),
                w >= 0,
                h >= 0,
                w == self.field.width,
                h == self.field.height,
        ;
        let n = self.ents.len();
        let mut i: usize = 0;
        while i < n
            invariant
                n == self.ents@.len(),
                i <= n,
                forall|a: int| 0 <= a < i ==> 0 < #[trigger] self.ents@[a].handle <= self.next_handle,
                forall|a: int, b: int| 0 <= a < i && 0 <= b < n && a != b ==> self.ents@[a].handle != self.ents@[b].handle,
            decreases n - i,
        {
            let hi = self.ents[i].handle;
            if hi == 0 || hi > self.next_handle {
                return false;
            }
            let mut j: usize = 0;
            while j < n
                invariant
                    n == self.ents@.len(),
                    i < n,
                    j <= n,
                    hi == self.ents@[i as int].handle,
                    forall|b: int| 0 <= b < j && b != i ==> self.ents@[i as int].handle != #[trigger] self.ents@[b].handle,
                decreases n - j,
            {
                if j != i && self.ents[j].handle == hi {
                    return false;
                }
                j += 1;
            }
            i += 1;
        }
        true
    }
}

} // verus!
