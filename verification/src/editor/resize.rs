use vstd::prelude::*;
use crate::data::terrain::{Entity, EntityHandle, Terrain, Vec2i};
use crate::editor::field::{EditLevel, Field, FieldConn, handles_ok, in_bounds, lemma_tile_index_bounds, tile_index};

verus! {

/// The smallest and largest field sizes the editor allows.
#[derive(Copy, Clone, Debug, PartialEq, Eq, Structural)]
pub struct FieldLimits {
    pub min_width: i32,
    pub max_width: i32,
    pub min_height: i32,
    pub max_height: i32,
}

/// A `width` by `height` field is within the limits.
pub open spec fn fits(limits: FieldLimits, width: int, height: int) -> bool {
    &&& limits.min_width <= width <= limits.max_width
    &&& limits.min_height <= height <= limits.max_height
}

/// Terrain of tile (`x`, `y`) after the old `width` by `height` terrain was
/// moved by (`left`, `top`): the old tile it came from, or `fill` where no
/// old tile lands.
pub open spec fn resized_cell(
    terrain: Seq<Terrain>,
    width: int,
    height: int,
    left: int,
    top: int,
    fill: Terrain,
    x: int,
    y: int,
) -> Terrain {
    let ox = x - left;
    let oy = y - top;
    if 0 <= ox < width && 0 <= oy < height {
        terrain[oy * width + ox]
    } else {
        fill
    }
}

/// A tile moved by (`dx`, `dy`), if it lands on a `width` by `height` field.
pub open spec fn moved(p: Vec2i, dx: int, dy: int, width: int, height: int) -> Option<Vec2i> {
    let x = p.x + dx;
    let y = p.y + dy;
    if 0 <= x < width && 0 <= y < height {
        Some(Vec2i { x: x as i32, y: y as i32 })
    } else {
        None
    }
}

/// The entities moved by (`dx`, `dy`), in the same order; those that do
/// not land on the field are gone.
pub open spec fn moved_ents(ents: Seq<Entity>, dx: int, dy: int, width: int, height: int) -> Seq<Entity>
    decreases ents.len(),
{
    if ents.len() == 0 {
        ents
    } else {
        let prev = moved_ents(ents.drop_last(), dx, dy, width, height);
        let e = ents.last();
        match moved(e.pos, dx, dy, width, height) {
            Some(p) => prev.push(Entity { pos: p, ..e }),
            None => prev,
        }
    }
}

/// The connections moved by (`dx`, `dy`), in the same order; those with an
/// end off the field are gone.
pub open spec fn moved_conns(conns: Seq<FieldConn>, dx: int, dy: int, width: int, height: int) -> Seq<FieldConn>
    decreases conns.len(),
{
    if conns.len() == 0 {
        conns
    } else {
        let prev = moved_conns(conns.drop_last(), dx, dy, width, height);
        let c = conns.last();
        match (moved(c.src, dx, dy, width, height), moved(c.dest, dx, dy, width, height)) {
            (Some(src), Some(dest)) => prev.push(FieldConn { src, dest }),
            _ => prev,
        }
    }
}

/// `l1` is `l0` after a resize by `left`, `top`, `right` and `bottom`
/// tiles with new tiles set to `fill`; `done` tells whether the new size is
/// within `limits`, and if not the level is unchanged.
pub open spec fn resize_post(
    l0: EditLevel,
    l1: EditLevel,
    left: i32,
    top: i32,
    right: i32,
    bottom: i32,
    fill: Terrain,
    limits: FieldLimits,
    done: bool,
) -> bool {
    let w = l0.field.width as int;
    let h = l0.field.height as int;
    let nw = w + left + right;
    let nh = h + top + bottom;
    &&& done == fits(limits, nw, nh)
    &&& !done ==> l1 == l0
    &&& done ==> {
        &&& l1.field.width == nw
        &&& l1.field.height == nh
        &&& forall|p: Vec2i| in_bounds(p, nw, nh) ==> #[trigger] l1.field.spec_terrain(p)
            == resized_cell(l0.field.terrain@, w, h, left as int, top as int, fill, p.x as int, p.y as int)
        &&& l1.ents@ == moved_ents(l0.ents@, left as int, top as int, nw, nh)
        &&& l1.field.conns@ == moved_conns(l0.field.conns@, left as int, top as int, nw, nh)
        &&& l1.next_handle == l0.next_handle
    }
}

/// Some entity of `ents` has handle `h`.
pub open spec fn has_entity_handle(ents: Seq<Entity>, h: EntityHandle) -> bool {
    exists|j: int| 0 <= j < ents.len() && ents[j].handle == h
}

/// Moving entities keeps their handles valid and distinct.
pub proof fn lemma_moved_ents_handles(
    ents: Seq<Entity>,
    dx: int,
    dy: int,
    width: int,
    height: int,
    next_handle: EntityHandle,
)
    requires
        handles_ok(ents, next_handle),
    ensures
        handles_ok(moved_ents(ents, dx, dy, width, height), next_handle),
        forall|i: int| 0 <= i < moved_ents(ents, dx, dy, width, height).len()
            ==> has_entity_handle(ents, #[trigger] moved_ents(ents, dx, dy, width, height)[i].handle),
    decreases ents.len(),
{
    if ents.len() > 0 {
        let d = ents.drop_last();
        assert(handles_ok(d, next_handle)) by {
            assert forall|i: int| 0 <= i < d.len() implies 0 < #[trigger] d[i].handle <= next_handle by {
                assert(d[i] == ents[i]);
            }
            assert forall|i: int, j: int| 0 <= i < d.len() && 0 <= j < d.len() && i != j
                implies d[i].handle != d[j].handle by {
                assert(d[i] == ents[i] && d[j] == ents[j]);
            }
        }
        lemma_moved_ents_handles(d, dx, dy, width, height, next_handle);
        let prev = moved_ents(d, dx, dy, width, height);
        let last = ents.last();
        let r = moved_ents(ents, dx, dy, width, height);
        assert forall|i: int| 0 <= i < prev.len() implies has_entity_handle(ents, #[trigger] prev[i].handle) by {
            assert(has_entity_handle(d, prev[i].handle));
            let j = choose|j: int| 0 <= j < d.len() && d[j].handle == prev[i].handle;
            assert(ents[j] == d[j]);
        }
        if let Some(p) = moved(last.pos, dx, dy, width, height) {
            assert(r == prev.push(Entity { pos: p, ..last }));
            assert forall|i: int| 0 <= i < r.len() implies has_entity_handle(ents, #[trigger] r[i].handle) by {
                if i < prev.len() {
                    assert(r[i] == prev[i]);
                } else {
                    assert(ents[ents.len() - 1].handle == r[i].handle);
                }
            }
            assert forall|i: int| 0 <= i < prev.len() implies #[trigger] prev[i].handle != last.handle by {
                assert(has_entity_handle(d, prev[i].handle));
                let k = choose|k: int| 0 <= k < d.len() && d[k].handle == prev[i].handle;
                assert(ents[k] == d[k]);
                assert(k != ents.len() - 1);
            }
            assert forall|i: int, j: int| 0 <= i < r.len() && 0 <= j < r.len() && i != j
                implies r[i].handle != r[j].handle by {
                if i < prev.len() && j < prev.len() {
                    assert(r[i] == prev[i] && r[j] == prev[j]);
                } else if i < prev.len() {
                    assert(r[i] == prev[i]);
                } else if j < prev.len() {
                    assert(r[j] == prev[j]);
                }
            }
            assert forall|i: int| 0 <= i < r.len() implies 0 < #[trigger] r[i].handle <= next_handle by {
                if i < prev.len() {
                    assert(r[i] == prev[i]);
                }
            }
        }
    }
}

impl Field {
    /// The terrain of a `new_width` by `new_height` field holding this
    /// field's terrain moved by (`left`, `top`), with `fill` where no old
    /// tile lands.
    fn resized_terrain(&self, left: i32, top: i32, new_width: i32, new_height: i32, fill: Terrain) -> (r: Vec<Terrain>)
        requires
            self.wf(),
            new_width >= 0,
            new_height >= 0,
        ensures
            r@.len() == new_width * new_height,
            forall|p: Vec2i| in_bounds(p, new_width as int, new_height as int)
                ==> r@[tile_index(p, new_width as int)] == #[trigger] resized_cell(
                    self.terrain@, self.width as int, self.height as int, left as int, top as int, fill, p.x as int, p.y as int,
                ),
    {
        let ghost t0 = self.terrain@;
        let ghost w = self.width as int;
        let ghost h = self.height as int;
        let ghost nw = new_width as int;
        let mut terrain: Vec<Terrain> = Vec::new();
        let mut y: i32 = 0;
        while y < new_height
            invariant
                self.wf(),
                t0 == self.terrain@,
                w == self.width,
                h == self.height,
                nw == new_width,
                new_width >= 0,
                0 <= y <= new_height,
                terrain@.len() == y * nw,
                forall|xx: int, yy: int| 0 <= xx < nw && 0 <= yy && yy * nw + xx < terrain@.len()
                    ==> terrain@[yy * nw + xx] == #[trigger] resized_cell(t0, w, h, left as int, top as int, fill, xx, yy),
            decreases new_height - y,
        {
            let mut x: i32 = 0;
            while x < new_width
                invariant
                    self.wf(),
                    t0 == self.terrain@,
                    w == self.width,
                    h == self.height,
                    nw == new_width,
                    0 <= y < new_height,
                    0 <= x <= new_width,
                    terrain@.len() == y * nw + x,
                    forall|xx: int, yy: int| 0 <= xx < nw && 0 <= yy && yy * nw + xx < terrain@.len()
                        ==> terrain@[yy * nw + xx] == #[trigger] resized_cell(t0, w, h, left as int, top as int, fill, xx, yy),
                decreases new_width - x,
            {
                let ox: i64 = x as i64 - left as i64;
                let oy: i64 = y as i64 - top as i64;
                let tile = if 0 <= ox && ox < self.width as i64 && 0 <= oy && oy < self.height as i64 {
                    let p = Vec2i { x: ox as i32, y: oy as i32 };
                    proof {
                        lemma_tile_index_bounds(p, w, h);
                    }
                    let index = self.index_of(p);
                    self.terrain[index]
                } else {
                    fill
                };
                assert(tile == resized_cell(t0, w, h, left as int, top as int, fill, x as int, y as int));
                let ghost before = terrain@;
                terrain.push(tile);
                proof {
                    assert forall|xx: int, yy: int| 0 <= xx < nw && 0 <= yy && yy * nw + xx < terrain@.len()
                        implies terrain@[yy * nw + xx] == #[trigger] resized_cell(t0, w, h, left as int, top as int, fill, xx, yy) by {
                        if yy * nw + xx == before.len() {
                            lemma_same_cell(xx, yy, x as int, y as int, nw);
                        } else {
                            assert(terrain@[yy * nw + xx] == before[yy * nw + xx]);
                        }
                    }
                }
                x = x + 1;
            }
            assert(terrain@.len() == (y + 1) * nw) by (nonlinear_arith)
                requires
                    terrain@.len() == y * nw + nw,
            ;
            y = y + 1;
        }
        proof {
            assert(terrain@.len() == nw * new_height) by (nonlinear_arith)
                requires
                    terrain@.len() == new_height * nw,
            ;
            assert forall|p: Vec2i| in_bounds(p, nw, new_height as int) implies terrain@[tile_index(p, nw)]
                == #[trigger] resized_cell(t0, w, h, left as int, top as int, fill, p.x as int, p.y as int) by {
                lemma_tile_index_bounds(p, nw, new_height as int);
            }
        }
        terrain
    }
}

/// A tile moved by (`dx`, `dy`), if it lands on a `width` by `height` field.
fn move_pos(p: Vec2i, dx: i32, dy: i32, width: i32, height: i32) -> (r: Option<Vec2i>)
    ensures
        r == moved(p, dx as int, dy as int, width as int, height as int),
{
    let x: i64 = p.x as i64 + dx as i64;
    let y: i64 = p.y as i64 + dy as i64;
    if 0 <= x && x < width as i64 && 0 <= y && y < height as i64 {
        Some(Vec2i { x: x as i32, y: y as i32 })
    } else {
        None
    }
}

/// The entities moved by (`dx`, `dy`); those off the new field are gone.
fn move_ents(ents: &Vec<Entity>, dx: i32, dy: i32, width: i32, height: i32) -> (r: Vec<Entity>)
    ensures
        r@ == moved_ents(ents@, dx as int, dy as int, width as int, height as int),
{
    let mut out: Vec<Entity> = Vec::new();
    let mut i: usize = 0;
    while i < ents.len()
        invariant
            i <= ents@.len(),
            out@ == moved_ents(ents@.take(i as int), dx as int, dy as int, width as int, height as int),
        decreases ents@.len() - i,
    {
        let e = ents[i];
        assert(ents@.take(i + 1).drop_last() =~= ents@.take(i as int));
        assert(ents@.take(i + 1).last() == e);
        if let Some(p) = move_pos(e.pos, dx, dy, width, height) {
            out.push(Entity { pos: p, ..e });
        }
        i += 1;
    }
    assert(ents@.take(ents@.len() as int) =~= ents@);
    out
}

/// The connections moved by (`dx`, `dy`); those with an end off the new
/// field are gone.
fn move_conns(conns: &Vec<FieldConn>, dx: i32, dy: i32, width: i32, height: i32) -> (r: Vec<FieldConn>)
    ensures
        r@ == moved_conns(conns@, dx as int, dy as int, width as int, height as int),
{
    let mut out: Vec<FieldConn> = Vec::new();
    let mut i: usize = 0;
    while i < conns.len()
        invariant
            i <= conns@.len(),
            out@ == moved_conns(conns@.take(i as int), dx as int, dy as int, width as int, height as int),
        decreases conns@.len() - i,
    {
        let c = conns[i];
        assert(conns@.take(i + 1).drop_last() =~= conns@.take(i as int));
        assert(conns@.take(i + 1).last() == c);
        let src = move_pos(c.src, dx, dy, width, height);
        let dest = move_pos(c.dest, dx, dy, width, height);
        if let (Some(s), Some(d)) = (src, dest) {
            out.push(FieldConn { src: s, dest: d });
        }
        i += 1;
    }
    assert(conns@.take(conns@.len() as int) =~= conns@);
    out
}

impl EditLevel {
    /// Resizes the field by `left`, `top`, `right` and `bottom` tiles on
    /// each side: a positive amount adds tiles on that side, a negative one
    /// cuts them off. The old terrain, entities and connections keep their
    /// place relative to each other; new tiles get `fill`, and entities or
    /// connections that fall off the field are gone. A size outside
    /// `limits` leaves the level as it is. Returns whether it was resized.
    pub fn resize(&mut self, left: i32, top: i32, right: i32, bottom: i32, fill: Terrain, limits: FieldLimits) -> (done: bool)
        requires
            old(self).wf(),
            limits.min_width >= 0,
            limits.min_height >= 0,
        ensures
            final(self).wf(),
            resize_post(*old(self), *final(self), left, top, right, bottom, fill, limits, done),
    {
        let new_width: i64 = self.field.width as i64 + left as i64 + right as i64;
        let new_height: i64 = self.field.height as i64 + top as i64 + bottom as i64;
        if new_width < limits.min_width as i64 || new_width > limits.max_width as i64 {
            return false;
        }
        if new_height < limits.min_height as i64 || new_height > limits.max_height as i64 {
            return false;
        }
        let nw = new_width as i32;
        let nh = new_height as i32;
        let terrain = self.field.resized_terrain(left, top, nw, nh, fill);
        let conns = move_conns(&self.field.conns, left, top, nw, nh);
        let ents = move_ents(&self.ents, left, top, nw, nh);
        proof {
            lemma_moved_ents_handles(self.ents@, left as int, top as int, nw as int, nh as int, self.next_handle);
        }
        let ghost t0 = self.field.terrain@;
        let ghost w = self.field.width as int;
        let ghost h = self.field.height as int;
        self.field = Field { width: nw, height: nh, terrain, conns };
        self.ents = ents;
        proof {
            assert forall|p: Vec2i| in_bounds(p, nw as int, nh as int) implies #[trigger] self.field.spec_terrain(p)
                == resized_cell(t0, w, h, left as int, top as int, fill, p.x as int, p.y as int) by {
                lemma_tile_index_bounds(p, nw as int, nh as int);
            }
        }
        true
    }
}

/// Every entity stands on the `width` by `height` field.
pub open spec fn ents_on_field(ents: Seq<Entity>, width: int, height: int) -> bool {
    forall|i: int| 0 <= i < ents.len() ==> in_bounds(#[trigger] ents[i].pos, width, height)
}

/// Both ends of every connection lie on the `width` by `height` field.
pub open spec fn conns_on_field(conns: Seq<FieldConn>, width: int, height: int) -> bool {
    forall|i: int| 0 <= i < conns.len()
        ==> in_bounds(#[trigger] conns[i].src, width, height) && in_bounds(conns[i].dest, width, height)
}

proof fn lemma_moved_back(p: Vec2i, dx: int, dy: int, width: int, height: int, new_width: int, new_height: int)
    requires
        in_bounds(p, width, height),
        0 <= dx,
        0 <= dy,
        width + dx <= new_width,
        height + dy <= new_height,
        new_width <= i32::MAX,
        new_height <= i32::MAX,
    ensures
        moved(p, dx, dy, new_width, new_height) is Some,
        moved(moved(p, dx, dy, new_width, new_height)->0, -dx, -dy, width, height) == Some(p),
{
}

proof fn lemma_ents_moved_back(ents: Seq<Entity>, dx: int, dy: int, width: int, height: int, new_width: int, new_height: int)
    requires
        ents_on_field(ents, width, height),
        0 <= dx,
        0 <= dy,
        width + dx <= new_width,
        height + dy <= new_height,
        new_width <= i32::MAX,
        new_height <= i32::MAX,
    ensures
        moved_ents(moved_ents(ents, dx, dy, new_width, new_height), -dx, -dy, width, height) == ents,
    decreases ents.len(),
{
    if ents.len() > 0 {
        let d = ents.drop_last();
        assert forall|i: int| 0 <= i < d.len() implies in_bounds(#[trigger] d[i].pos, width, height) by {
            assert(d[i] == ents[i]);
        }
        lemma_ents_moved_back(d, dx, dy, width, height, new_width, new_height);
        let e = ents.last();
        assert(in_bounds(ents[ents.len() - 1].pos, width, height));
        lemma_moved_back(e.pos, dx, dy, width, height, new_width, new_height);
        let m = moved_ents(d, dx, dy, new_width, new_height);
        let q = moved(e.pos, dx, dy, new_width, new_height)->0;
        let once = m.push(Entity { pos: q, ..e });
        assert(once.drop_last() =~= m);
        assert(moved_ents(once, -dx, -dy, width, height) == d.push(e));
        assert(d.push(e) =~= ents);
    }
}

proof fn lemma_conns_moved_back(conns: Seq<FieldConn>, dx: int, dy: int, width: int, height: int, new_width: int, new_height: int)
    requires
        conns_on_field(conns, width, height),
        0 <= dx,
        0 <= dy,
        width + dx <= new_width,
        height + dy <= new_height,
        new_width <= i32::MAX,
        new_height <= i32::MAX,
    ensures
        moved_conns(moved_conns(conns, dx, dy, new_width, new_height), -dx, -dy, width, height) == conns,
    decreases conns.len(),
{
    if conns.len() > 0 {
        let d = conns.drop_last();
        assert forall|i: int| 0 <= i < d.len() implies in_bounds(#[trigger] d[i].src, width, height)
            && in_bounds(d[i].dest, width, height) by {
            assert(d[i] == conns[i]);
        }
        lemma_conns_moved_back(d, dx, dy, width, height, new_width, new_height);
        let c = conns.last();
        assert(in_bounds(conns[conns.len() - 1].src, width, height));
        lemma_moved_back(c.src, dx, dy, width, height, new_width, new_height);
        lemma_moved_back(c.dest, dx, dy, width, height, new_width, new_height);
        let m = moved_conns(d, dx, dy, new_width, new_height);
        let s1 = moved(c.src, dx, dy, new_width, new_height)->0;
        let d1 = moved(c.dest, dx, dy, new_width, new_height)->0;
        let once = m.push(FieldConn { src: s1, dest: d1 });
        assert(once.drop_last() =~= m);
        assert(moved_conns(once, -dx, -dy, width, height) == d.push(c));
        assert(d.push(c) =~= conns);
    }
}

/// Cropping off the tiles that an expansion added gives back the level as
/// it was, when all its entities and connections were on the field.
pub proof fn law_crop_undoes_expand(
    l0: EditLevel,
    l1: EditLevel,
    l2: EditLevel,
    left: i32,
    top: i32,
    right: i32,
    bottom: i32,
    fill1: Terrain,
    fill2: Terrain,
    limits: FieldLimits,
)
    requires
        l0.wf(),
        l1.wf(),
        0 <= left,
        0 <= top,
        0 <= right,
        0 <= bottom,
        ents_on_field(l0.ents@, l0.field.width as int, l0.field.height as int),
        conns_on_field(l0.field.conns@, l0.field.width as int, l0.field.height as int),
        resize_post(l0, l1, left, top, right, bottom, fill1, limits, true),
        resize_post(l1, l2, (-left) as i32, (-top) as i32, (-right) as i32, (-bottom) as i32, fill2, limits, true),
    ensures
        l2.field.width == l0.field.width,
        l2.field.height == l0.field.height,
        forall|p: Vec2i| #[trigger] l2.field.spec_terrain(p) == l0.field.spec_terrain(p),
        l2.ents@ == l0.ents@,
        l2.field.conns@ == l0.field.conns@,
        l2.next_handle == l0.next_handle,
{
    let w = l0.field.width as int;
    let h = l0.field.height as int;
    let nw = l1.field.width as int;
    let nh = l1.field.height as int;
    assert forall|p: Vec2i| #[trigger] l2.field.spec_terrain(p) == l0.field.spec_terrain(p) by {
        if in_bounds(p, w, h) {
            let q = Vec2i { x: (p.x + left) as i32, y: (p.y + top) as i32 };
            assert(in_bounds(q, nw, nh));
            lemma_tile_index_bounds(q, nw, nh);
            lemma_tile_index_bounds(p, w, h);
            assert(l1.field.spec_terrain(q) == resized_cell(l0.field.terrain@, w, h, left as int, top as int, fill1, q.x as int, q.y as int));
        }
    }
    lemma_ents_moved_back(l0.ents@, left as int, top as int, w, h, nw, nh);
    lemma_conns_moved_back(l0.field.conns@, left as int, top as int, w, h, nw, nh);
}

/// Two tiles of a row-by-row grid at the same index are the same tile.
proof fn lemma_same_cell(xx: int, yy: int, x: int, y: int, width: int)
    requires
        0 <= xx < width,
        0 <= x < width,
        0 <= yy,
        0 <= y,
        yy * width + xx == y * width + x,
    ensures
        xx == x,
        yy == y,
{
    assert(yy == y) by (nonlinear_arith)
        requires
            0 <= xx < width,
            0 <= x < width,
            yy * width + xx == y * width + x,
    ;
}

} // verus!
