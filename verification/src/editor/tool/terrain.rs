use vstd::prelude::*;
use crate::data::terrain::{Entity, Terrain, Vec2i};
use crate::editor::editstate::{EditorEditState, sample_post};
use crate::editor::field::{EditLevel, on_tile, in_bounds, lemma_tile_index_bounds, lemma_tile_index_injective, lemma_without_blocks_same, lemma_without_blocks_twice, terrain_at, tile_index, without_blocks};

verus! {

/// The terrain tool and the terrain it paints.
#[derive(Copy, Clone)]
pub struct TerrainToolState {
    pub selected_terrain: Terrain,
}

impl TerrainToolState {
    /// Paints floor.
    pub fn default() -> (r: TerrainToolState)
        ensures
            r.selected_terrain == Terrain::Floor,
    {
        TerrainToolState { selected_terrain: Terrain::Floor }
    }
}

/// Number of tiles of a terrain list with terrain `t`.
pub open spec fn count_terrain(s: Seq<Terrain>, t: Terrain) -> nat
    decreases s.len(),
{
    if s.len() == 0 {
        0
    } else {
        count_terrain(s.drop_last(), t) + if s.last() == t { 1nat } else { 0nat }
    }
}

proof fn lemma_count_update(s: Seq<Terrain>, i: int, x: Terrain, t: Terrain)
    requires
        0 <= i < s.len(),
        s[i] == t,
        x != t,
    ensures
        count_terrain(s.update(i, x), t) + 1 == count_terrain(s, t),
    decreases s.len(),
{
    if i == s.len() - 1 {
        assert(s.update(i, x).drop_last() =~= s.drop_last());
    } else {
        lemma_count_update(s.drop_last(), i, x, t);
        assert(s.update(i, x).drop_last() =~= s.drop_last().update(i, x));
    }
}

/// The four neighbours of a tile, in the order the fill visits them.
pub open spec fn fill_offset(k: int) -> Vec2i {
    if k == 0 {
        Vec2i { x: 1, y: 0 }
    } else if k == 1 {
        Vec2i { x: -1i32, y: 0 }
    } else if k == 2 {
        Vec2i { x: 0, y: 1 }
    } else {
        Vec2i { x: 0, y: -1i32 }
    }
}

/// The `k`-th neighbour of a tile.
pub open spec fn neighbor(p: Vec2i, k: int) -> Vec2i {
    Vec2i { x: (p.x + fill_offset(k).x) as i32, y: (p.y + fill_offset(k).y) as i32 }
}

fn offset(k: usize) -> (r: Vec2i)
    requires
        k < 4,
    ensures
        r == fill_offset(k as int),
{
    if k == 0 {
        Vec2i { x: 1, y: 0 }
    } else if k == 1 {
        Vec2i { x: -1, y: 0 }
    } else if k == 2 {
        Vec2i { x: 0, y: 1 }
    } else {
        Vec2i { x: 0, y: -1 }
    }
}

/// Entities left after a tile is painted: painting dirt blocks removes the
/// block entities standing on the tile.
pub open spec fn ents_after_put(ents: Seq<Entity>, pos: Vec2i, terrain: Terrain) -> Seq<Entity> {
    if terrain == Terrain::DirtBlock {
        without_blocks(ents, on_tile(pos))
    } else {
        ents
    }
}

/// The level after painting one tile.
pub open spec fn put_tile_post(l0: EditLevel, l1: EditLevel, pos: Vec2i, terrain: Terrain) -> bool {
    &&& l1.wf()
    &&& l1.field.width == l0.field.width
    &&& l1.field.height == l0.field.height
    &&& l1.field.conns@ == l0.field.conns@
    &&& l1.next_handle == l0.next_handle
    &&& l1.field.terrain@ == if in_bounds(pos, l0.field.width as int, l0.field.height as int) {
        l0.field.terrain@.update(tile_index(pos, l0.field.width as int), terrain)
    } else {
        l0.field.terrain@
    }
    &&& l1.ents@ == ents_after_put(l0.ents@, pos, terrain)
}

/// Paints one tile; painting dirt blocks removes the block entities there.
pub fn put_tile(game: &mut EditLevel, cursor_pos: Vec2i, terrain: Terrain)
    requires
        old(game).wf(),
    ensures
        put_tile_post(*old(game), *final(game), cursor_pos, terrain),
{
    game.field.set_terrain(cursor_pos, terrain);
    // Remove block entities if we are placing a dirt block terrain
    if matches!(terrain, Terrain::DirtBlock) {
        game.remove_blocks_at(cursor_pos);
    }
}

/// The tile was part of the filled area: it had the original terrain and now
/// has the fill terrain.
pub open spec fn filled(
    t0: Seq<Terrain>,
    cur: Seq<Terrain>,
    width: int,
    height: int,
    original: Terrain,
    terrain: Terrain,
    p: Vec2i,
) -> bool {
    &&& in_bounds(p, width, height)
    &&& t0[tile_index(p, width)] == original
    &&& cur[tile_index(p, width)] == terrain
}

/// The tiles filled so far, as a predicate.
pub open spec fn filled_fn(
    t0: Seq<Terrain>,
    cur: Seq<Terrain>,
    width: int,
    height: int,
    original: Terrain,
    terrain: Terrain,
) -> spec_fn(Vec2i) -> bool {
    |p: Vec2i| filled(t0, cur, width, height, original, terrain, p)
}

/// A walk over tiles of terrain `original`, each tile next to the one
/// before.
pub open spec fn is_fill_path(t0: Seq<Terrain>, w: int, h: int, original: Terrain, path: Seq<Vec2i>) -> bool {
    &&& path.len() >= 1
    &&& forall|i: int| 0 <= i < path.len() ==> #[trigger] in_bounds(path[i], w, h) && t0[tile_index(path[i], w)] == original
    &&& forall|i: int| 0 <= i < path.len() - 1 ==> #[trigger] steps_to_next(path, i)
}

/// The tile after position `i` of the walk is next to the tile at `i`.
pub open spec fn steps_to_next(path: Seq<Vec2i>, i: int) -> bool {
    exists|k: int| 0 <= k < 4 && path[i + 1] == #[trigger] neighbor(path[i], k)
}

/// Tile `p` can be reached from `start` over tiles of terrain `original`.
pub open spec fn connected(t0: Seq<Terrain>, w: int, h: int, original: Terrain, start: Vec2i, p: Vec2i) -> bool {
    exists|path: Seq<Vec2i>| #[trigger] is_fill_path(t0, w, h, original, path) && path[0] == start && path.last() == p
}

/// The level after filling the area of equal terrain around `start`.
pub open spec fn flood_fill_post(l0: EditLevel, l1: EditLevel, start: Vec2i, terrain: Terrain) -> bool {
    let w = l0.field.width as int;
    let h = l0.field.height as int;
    let t0 = l0.field.terrain@;
    let cur = l1.field.terrain@;
    let original = terrain_at(t0, w, h, start);
    &&& l1.wf()
    &&& l1.field.width == l0.field.width
    &&& l1.field.height == l0.field.height
    &&& l1.field.conns@ == l0.field.conns@
    &&& l1.next_handle == l0.next_handle
    &&& if !in_bounds(start, w, h) || original == terrain {
        &&& cur == t0
        &&& l1.ents@ == l0.ents@
    } else {
        &&& forall|i: int| 0 <= i < t0.len() ==> cur[i] == t0[i] || (t0[i] == original && cur[i] == terrain)
        &&& cur[tile_index(start, w)] == terrain
        &&& forall|p: Vec2i, k: int| 0 <= k < 4
            && #[trigger] filled(t0, cur, w, h, original, terrain, p)
            && in_bounds(#[trigger] neighbor(p, k), w, h)
            && t0[tile_index(neighbor(p, k), w)] == original
            ==> cur[tile_index(neighbor(p, k), w)] == terrain
        &&& forall|p: Vec2i| #[trigger] filled(t0, cur, w, h, original, terrain, p) ==> connected(t0, w, h, original, start, p)
        &&& l1.ents@ == if terrain == Terrain::DirtBlock {
            without_blocks(l0.ents@, filled_fn(t0, cur, w, h, original, terrain))
        } else {
            l0.ents@
        }
    }
}

/// A walk extended by a step to a next tile of the same terrain is a walk.
proof fn lemma_path_extend(t0: Seq<Terrain>, w: int, h: int, original: Terrain, path: Seq<Vec2i>, q: Vec2i, k: int)
    requires
        is_fill_path(t0, w, h, original, path),
        0 <= k < 4,
        q == neighbor(path.last(), k),
        in_bounds(q, w, h),
        t0[tile_index(q, w)] == original,
    ensures
        is_fill_path(t0, w, h, original, path.push(q)),
{
    let new_path = path.push(q);
    assert forall|i: int| 0 <= i < new_path.len() implies #[trigger] in_bounds(new_path[i], w, h)
        && t0[tile_index(new_path[i], w)] == original by {
        if i < path.len() {
            assert(new_path[i] == path[i]);
            assert(in_bounds(path[i], w, h));
        }
    }
    assert forall|i: int| 0 <= i < new_path.len() - 1 implies #[trigger] steps_to_next(new_path, i) by {
        if i < path.len() - 1 {
            assert(new_path[i] == path[i]);
            assert(new_path[i + 1] == path[i + 1]);
            assert(steps_to_next(path, i));
        } else {
            assert(new_path[i] == path.last());
            assert(new_path[i + 1] == neighbor(path.last(), k));
        }
    }
}

proof fn lemma_path_filled(
    t0: Seq<Terrain>,
    cur: Seq<Terrain>,
    w: int,
    h: int,
    original: Terrain,
    terrain: Terrain,
    path: Seq<Vec2i>,
    i: int,
)
    requires
        is_fill_path(t0, w, h, original, path),
        0 <= i < path.len(),
        filled(t0, cur, w, h, original, terrain, path[0]),
        forall|p: Vec2i, k: int| 0 <= k < 4
            && #[trigger] filled(t0, cur, w, h, original, terrain, p)
            && in_bounds(#[trigger] neighbor(p, k), w, h)
            && t0[tile_index(neighbor(p, k), w)] == original
            ==> cur[tile_index(neighbor(p, k), w)] == terrain,
    ensures
        filled(t0, cur, w, h, original, terrain, path[i]),
    decreases i,
{
    if i > 0 {
        lemma_path_filled(t0, cur, w, h, original, terrain, path, i - 1);
        assert(steps_to_next(path, i - 1));
        let k = choose|k: int| 0 <= k < 4 && path[i] == #[trigger] neighbor(path[i - 1], k);
        assert(in_bounds(path[i], w, h));
        assert(t0[tile_index(path[i], w)] == original);
        assert(filled(t0, cur, w, h, original, terrain, path[i - 1]));
        assert(in_bounds(neighbor(path[i - 1], k), w, h));
    }
}

/// A flood fill fills exactly the tiles that can be reached from the start
/// tile over tiles of the start tile's terrain.
pub proof fn law_flood_fill_region(l0: EditLevel, l1: EditLevel, start: Vec2i, terrain: Terrain)
    requires
        l0.wf(),
        flood_fill_post(l0, l1, start, terrain),
        in_bounds(start, l0.field.width as int, l0.field.height as int),
        terrain_at(l0.field.terrain@, l0.field.width as int, l0.field.height as int, start) != terrain,
    ensures
        forall|p: Vec2i| #[trigger] filled(
            l0.field.terrain@,
            l1.field.terrain@,
            l0.field.width as int,
            l0.field.height as int,
            terrain_at(l0.field.terrain@, l0.field.width as int, l0.field.height as int, start),
            terrain,
            p,
        ) <==> connected(
            l0.field.terrain@,
            l0.field.width as int,
            l0.field.height as int,
            terrain_at(l0.field.terrain@, l0.field.width as int, l0.field.height as int, start),
            start,
            p,
        ),
{
    let w = l0.field.width as int;
    let h = l0.field.height as int;
    let t0 = l0.field.terrain@;
    let cur = l1.field.terrain@;
    let original = terrain_at(t0, w, h, start);
    lemma_tile_index_bounds(start, w, h);
    assert(filled(t0, cur, w, h, original, terrain, start));
    assert forall|p: Vec2i| connected(t0, w, h, original, start, p) implies #[trigger] filled(
        t0, cur, w, h, original, terrain, p) by {
        let path = choose|path: Seq<Vec2i>| #[trigger] is_fill_path(t0, w, h, original, path) && path[0] == start
            && path.last() == p;
        lemma_path_filled(t0, cur, w, h, original, terrain, path, path.len() - 1);
    }
}

/// Fills the area of equal terrain around `start` with `terrain`.
///
/// Only tiles that had the start tile's terrain change, and they change to
/// `terrain`; the start tile is filled, and no filled tile is left next to
/// an unfilled tile of the start tile's terrain. Filling with dirt blocks
/// removes the block entities on the filled tiles.
pub fn flood_fill(game: &mut EditLevel, start: Vec2i, terrain: Terrain)
    requires
        old(game).wf(),
    ensures
        flood_fill_post(*old(game), *final(game), start, terrain),
{
    let width = game.field.width;
    let height = game.field.height;
    if start.x < 0 || start.y < 0 || start.x >= width || start.y >= height {
        return;
    }

    let original = game.field.get_terrain(start);
    if original == terrain {
        return;
    }

    let ghost w = width as int;
    let ghost h = height as int;
    let ghost t0 = game.field.terrain@;
    let ghost e0 = game.ents@;
    let ghost is_dirt = terrain == Terrain::DirtBlock;

    let mut stack: Vec<Vec2i> = Vec::new();
    proof {
        lemma_tile_index_bounds(start, w, h);
    }
    put_tile(game, start, terrain);
    stack.push(start);
    proof {
        let cur = game.field.terrain@;
        assert forall|p: Vec2i, k: int| 0 <= k < 4
            && #[trigger] filled(t0, cur, w, h, original, terrain, p)
            && in_bounds(#[trigger] neighbor(p, k), w, h)
            && cur[tile_index(neighbor(p, k), w)] == original
            implies stack@.contains(p) by {
            lemma_tile_index_bounds(p, w, h);
            if tile_index(p, w) == tile_index(start, w) {
                lemma_tile_index_injective(p, start, w, h);
            }
            assert(stack@[0] == p);
        }
        let cur0 = game.field.terrain@;
        let start_path = seq![start];
        assert(is_fill_path(t0, w, h, original, start_path));
        assert forall|p: Vec2i| #[trigger] filled(t0, cur0, w, h, original, terrain, p)
            implies connected(t0, w, h, original, start, p) by {
            lemma_tile_index_bounds(p, w, h);
            if p != start {
                if tile_index(p, w) == tile_index(start, w) {
                    lemma_tile_index_injective(p, start, w, h);
                }
                assert(cur0[tile_index(p, w)] == t0[tile_index(p, w)]);
            }
            assert(start_path[0] == start && start_path.last() == p);
        }
        if is_dirt {
            let cur = game.field.terrain@;
            let f = on_tile(start);
            let g = filled_fn(t0, cur, w, h, original, terrain);
            assert forall|p: Vec2i| #[trigger] f(p) == g(p) by {
                if in_bounds(p, w, h) {
                    lemma_tile_index_bounds(p, w, h);
                    if tile_index(p, w) == tile_index(start, w) {
                        lemma_tile_index_injective(p, start, w, h);
                    } else {
                        assert(cur[tile_index(p, w)] == t0[tile_index(p, w)]);
                    }
                }
            }
            lemma_without_blocks_same(e0, f, g);
        }
    }

    while stack.len() > 0
        invariant
            game.wf(),
            game.field.width == width,
            game.field.height == height,
            w == width as int,
            h == height as int,
            original != terrain,
            is_dirt == (terrain == Terrain::DirtBlock),
            in_bounds(start, w, h),
            t0.len() == w * h,
            original == terrain_at(t0, w, h, start),
            game.field.conns@ == old(game).field.conns@,
            game.next_handle == old(game).next_handle,
            t0 == old(game).field.terrain@,
            e0 == old(game).ents@,
            forall|i: int| 0 <= i < t0.len() ==> #[trigger] game.field.terrain@[i] == t0[i]
                || (t0[i] == original && game.field.terrain@[i] == terrain),
            game.field.terrain@[tile_index(start, w)] == terrain,
            forall|p: Vec2i| #[trigger] filled(t0, game.field.terrain@, w, h, original, terrain, p)
                ==> connected(t0, w, h, original, start, p),
            forall|j: int| 0 <= j < stack@.len()
                ==> filled(t0, game.field.terrain@, w, h, original, terrain, #[trigger] stack@[j]),
            forall|p: Vec2i, k: int| 0 <= k < 4
                && #[trigger] filled(t0, game.field.terrain@, w, h, original, terrain, p)
                && in_bounds(#[trigger] neighbor(p, k), w, h)
                && game.field.terrain@[tile_index(neighbor(p, k), w)] == original
                ==> stack@.contains(p),
            is_dirt ==> game.ents@ == without_blocks(e0, filled_fn(t0, game.field.terrain@, w, h, original, terrain)),
            !is_dirt ==> game.ents@ == e0,
        decreases count_terrain(game.field.terrain@, original), stack@.len(),
    {
        let ghost count0 = count_terrain(game.field.terrain@, original);
        let ghost len0 = stack@.len();
        let pos = stack[stack.len() - 1];
        let ghost stack0 = stack@;
        stack.pop();
        proof {
            assert(stack@ =~= stack0.drop_last());
            assert forall|p: Vec2i, j: int| 0 <= j < 4
                && #[trigger] filled(t0, game.field.terrain@, w, h, original, terrain, p)
                && in_bounds(#[trigger] neighbor(p, j), w, h)
                && game.field.terrain@[tile_index(neighbor(p, j), w)] == original
                implies stack@.contains(p) || (p == pos && j >= 0) by {
                let jj = choose|jj: int| 0 <= jj < stack0.len() && stack0[jj] == p;
                if jj < stack0.len() - 1 {
                    assert(stack@[jj] == p);
                }
            }
        }
        let mut k: usize = 0;
        while k < 4
            invariant
                game.wf(),
                game.field.width == width,
                game.field.height == height,
                w == width as int,
                h == height as int,
                original != terrain,
                is_dirt == (terrain == Terrain::DirtBlock),
                in_bounds(start, w, h),
                t0.len() == w * h,
                original == terrain_at(t0, w, h, start),
                game.field.conns@ == old(game).field.conns@,
                game.next_handle == old(game).next_handle,
                t0 == old(game).field.terrain@,
                e0 == old(game).ents@,
                k <= 4,
                filled(t0, game.field.terrain@, w, h, original, terrain, pos),
                forall|i: int| 0 <= i < t0.len() ==> #[trigger] game.field.terrain@[i] == t0[i]
                    || (t0[i] == original && game.field.terrain@[i] == terrain),
                game.field.terrain@[tile_index(start, w)] == terrain,
                forall|p: Vec2i| #[trigger] filled(t0, game.field.terrain@, w, h, original, terrain, p)
                    ==> connected(t0, w, h, original, start, p),
                forall|j: int| 0 <= j < stack@.len()
                    ==> filled(t0, game.field.terrain@, w, h, original, terrain, #[trigger] stack@[j]),
                forall|p: Vec2i, j: int| 0 <= j < 4
                    && #[trigger] filled(t0, game.field.terrain@, w, h, original, terrain, p)
                    && in_bounds(#[trigger] neighbor(p, j), w, h)
                    && game.field.terrain@[tile_index(neighbor(p, j), w)] == original
                    ==> stack@.contains(p) || (p == pos && j >= k),
                is_dirt ==> game.ents@ == without_blocks(e0, filled_fn(t0, game.field.terrain@, w, h, original, terrain)),
                !is_dirt ==> game.ents@ == e0,
                count_terrain(game.field.terrain@, original) < count0
                    || (count_terrain(game.field.terrain@, original) == count0 && stack@.len() == len0 - 1),
            decreases 4 - k,
        {
            let off = offset(k);
            let neighbor_pos = Vec2i { x: pos.x + off.x, y: pos.y + off.y };
            assert(neighbor_pos == neighbor(pos, k as int));
            let inside = !(neighbor_pos.x < 0 || neighbor_pos.y < 0 || neighbor_pos.x >= width || neighbor_pos.y >= height);
            if inside {
                proof {
                    lemma_tile_index_bounds(neighbor_pos, w, h);
                }
            }
            if inside && game.field.get_terrain(neighbor_pos) == original {
                let ghost cur = game.field.terrain@;
                let ghost ni = tile_index(neighbor_pos, w);
                let ghost stack1 = stack@;
                let ghost ents1 = game.ents@;
                proof {
                    lemma_count_update(cur, ni, terrain, original);
                }
                put_tile(game, neighbor_pos, terrain);
                stack.push(neighbor_pos);
                proof {
                    let cur2 = game.field.terrain@;
                    assert(cur2 == cur.update(ni, terrain));
                    assert(stack@ == stack1.push(neighbor_pos));
                    assert forall|p: Vec2i| in_bounds(p, w, h) && p != neighbor_pos
                        implies #[trigger] cur2[tile_index(p, w)] == cur[tile_index(p, w)] by {
                        lemma_tile_index_bounds(p, w, h);
                        if tile_index(p, w) == ni {
                            lemma_tile_index_injective(p, neighbor_pos, w, h);
                        }
                    }
                    assert(filled(t0, cur2, w, h, original, terrain, neighbor_pos));
                    assert(connected(t0, w, h, original, start, pos));
                    let pos_path = choose|path: Seq<Vec2i>| #[trigger] is_fill_path(t0, w, h, original, path)
                        && path[0] == start && path.last() == pos;
                    let new_path = pos_path.push(neighbor_pos);
                    assert(t0[ni] == original);
                    lemma_path_extend(t0, w, h, original, pos_path, neighbor_pos, k as int);
                    assert(is_fill_path(t0, w, h, original, new_path));
                    assert(new_path[0] == start && new_path.last() == neighbor_pos);
                    assert forall|p: Vec2i| #[trigger] filled(t0, cur2, w, h, original, terrain, p)
                        implies connected(t0, w, h, original, start, p) by {
                        if p != neighbor_pos {
                            assert(cur2[tile_index(p, w)] == cur[tile_index(p, w)]);
                            assert(filled(t0, cur, w, h, original, terrain, p));
                        }
                    }
                    assert forall|jx: int| 0 <= jx < stack@.len()
                        implies filled(t0, cur2, w, h, original, terrain, #[trigger] stack@[jx]) by {
                        if jx < stack@.len() - 1 {
                            assert(stack@[jx] == stack1[jx]);
                            assert(filled(t0, cur, w, h, original, terrain, stack1[jx]));
                        }
                    }
                    assert forall|p: Vec2i, j: int| 0 <= j < 4
                        && #[trigger] filled(t0, cur2, w, h, original, terrain, p)
                        && in_bounds(#[trigger] neighbor(p, j), w, h)
                        && cur2[tile_index(neighbor(p, j), w)] == original
                        implies stack@.contains(p) || (p == pos && j >= k + 1) by {
                        if p == neighbor_pos {
                            assert(stack@[stack@.len() - 1] == p);
                        } else {
                            assert(cur2[tile_index(p, w)] == cur[tile_index(p, w)]);
                            assert(filled(t0, cur, w, h, original, terrain, p));
                            let q = neighbor(p, j);
                            assert(q != neighbor_pos);
                            assert(cur2[tile_index(q, w)] == cur[tile_index(q, w)]);
                            assert(stack1.contains(p) || (p == pos && j >= k));
                            if stack1.contains(p) {
                                let jj = choose|jj: int| 0 <= jj < stack1.len() && stack1[jj] == p;
                                assert(stack@[jj] == p);
                            }
                        }
                    }
                    if is_dirt {
                        let f = filled_fn(t0, cur, w, h, original, terrain);
                        let g = on_tile(neighbor_pos);
                        lemma_without_blocks_twice(e0, f, g);
                        let fg = |p: Vec2i| f(p) || g(p);
                        let f2 = filled_fn(t0, cur2, w, h, original, terrain);
                        assert forall|p: Vec2i| #[trigger] fg(p) == f2(p) by {
                            if in_bounds(p, w, h) && p != neighbor_pos {
                                assert(cur2[tile_index(p, w)] == cur[tile_index(p, w)]);
                            }
                        }
                        lemma_without_blocks_same(e0, fg, f2);
                    }
                }
            }
            k += 1;
        }
    }
    proof {
        let cur = game.field.terrain@;
        assert forall|p: Vec2i, k: int| 0 <= k < 4
            && #[trigger] filled(t0, cur, w, h, original, terrain, p)
            && in_bounds(#[trigger] neighbor(p, k), w, h)
            && t0[tile_index(neighbor(p, k), w)] == original
            implies cur[tile_index(neighbor(p, k), w)] == terrain by {
            lemma_tile_index_bounds(neighbor(p, k), w, h);
            assert(!stack@.contains(p));
        }
    }
}

/// The editor after the terrain tool paints at the cursor: with shift held
/// it fills, else it paints the one tile.
pub open spec fn terrain_put_post(s0: EditorEditState, s1: EditorEditState, terrain: Terrain) -> bool {
    &&& s1.cursor_pos == s0.cursor_pos
    &&& s1.input == s0.input
    &&& s1.tool == s0.tool
    &&& s1.conn_src == s0.conn_src
    &&& s1.forcepath_last_pos == s0.forcepath_last_pos
    &&& s1.tool_pos == s0.tool_pos
    &&& if s0.input.key_shift {
        flood_fill_post(s0.level, s1.level, s0.cursor_pos, terrain)
    } else {
        put_tile_post(s0.level, s1.level, s0.cursor_pos, terrain)
    }
}

impl TerrainToolState {
    /// Paints at the cursor: with shift held it fills, else it paints the
    /// one tile.
    pub fn put(&mut self, s: &mut EditorEditState)
        requires
            old(s).wf(),
        ensures
            final(s).wf(),
            *final(self) == *old(self),
            terrain_put_post(*old(s), *final(s), old(self).selected_terrain),
    {
        if s.input.key_shift {
            flood_fill(&mut s.level, s.cursor_pos, self.selected_terrain);
        } else {
            put_tile(&mut s.level, s.cursor_pos, self.selected_terrain);
        }
    }

    /// Pressing paints at the cursor.
    pub fn left_click(&mut self, s: &mut EditorEditState, pressed: bool)
        requires
            old(s).wf(),
        ensures
            final(s).wf(),
            *final(self) == *old(self),
            if pressed { terrain_put_post(*old(s), *final(s), old(self).selected_terrain) } else { *final(s) == *old(s) },
    {
        if pressed {
            self.put(s);
        }
    }

    /// Pressing samples a tool.
    pub fn right_click(&mut self, s: &mut EditorEditState, pressed: bool)
        requires
            old(s).wf(),
        ensures
            final(s).wf(),
            *final(self) == *old(self),
            if pressed { sample_post(*old(s), *final(s)) } else { *final(s) == *old(s) },
    {
        if pressed {
            s.sample();
        }
    }

    /// While the left button is held, keeps painting at the cursor.
    pub fn think(&mut self, s: &mut EditorEditState)
        requires
            old(s).wf(),
        ensures
            final(s).wf(),
            *final(self) == *old(self),
            if old(s).input.left_click {
                terrain_put_post(*old(s), *final(s), old(self).selected_terrain)
            } else {
                *final(s) == *old(s)
            },
    {
        if s.input.left_click {
            self.put(s);
        }
    }
}

} // verus!
