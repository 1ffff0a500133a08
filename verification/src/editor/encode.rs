use vstd::prelude::*;
use crate::data::terrain::Terrain;
use crate::editor::field::Field;

verus! {

/// A field as it is written to a level file: the terrains used (the legend)
/// and, row by row, each tile's index into the legend.
pub struct FieldDto {
    pub width: i32,
    pub height: i32,
    pub data: Vec<usize>,
    pub legend: Vec<Terrain>,
}

/// The legend of a terrain list: blank and floor first, then each other
/// terrain in the order it first appears.
pub open spec fn legend_of(s: Seq<Terrain>) -> Seq<Terrain>
    decreases s.len(),
{
    if s.len() == 0 {
        seq![Terrain::Blank, Terrain::Floor]
    } else {
        let prev = legend_of(s.drop_last());
        if prev.contains(s.last()) {
            prev
        } else {
            prev.push(s.last())
        }
    }
}

/// No terrain occurs twice.
pub open spec fn no_duplicates(s: Seq<Terrain>) -> bool {
    forall|i: int, j: int| 0 <= i < s.len() && 0 <= j < s.len() && i != j ==> s[i] != s[j]
}

/// Index of `t` in the list, if it occurs.
fn find_terrain(legend: &Vec<Terrain>, t: Terrain) -> (r: Option<usize>)
    ensures
        match r {
            Some(i) => i < legend@.len() && legend@[i as int] == t,
            None => !legend@.contains(t),
        },
{
    let mut i: usize = 0;
    while i < legend.len()
        invariant
            i <= legend@.len(),
            forall|j: int| 0 <= j < i ==> legend@[j] != t,
        decreases legend@.len() - i,
    {
        if legend[i] == t {
            return Some(i);
        }
        i += 1;
    }
    None
}

/// Encodes a field for writing: the legend lists blank, floor and then the
/// other terrains in order of first appearance, and each tile is stored as
/// its terrain's index in the legend.
pub fn save_field_dto(field: &Field) -> (r: FieldDto)
    ensures
        r.width == field.width,
        r.height == field.height,
        r.legend@ == legend_of(field.terrain@),
        r.data@.len() == field.terrain@.len(),
        forall|i: int| 0 <= i < field.terrain@.len()
            ==> r.data@[i] < r.legend@.len() && r.legend@[r.data@[i] as int] == field.terrain@[i],
{
    let mut legend: Vec<Terrain> = Vec::new();
    legend.push(Terrain::Blank);
    legend.push(Terrain::Floor);
    let mut data: Vec<usize> = Vec::new();
    let mut i: usize = 0;
    assert(legend@ =~= legend_of(field.terrain@.take(0)));
    while i < field.terrain.len()
        invariant
            i <= field.terrain@.len(),
            legend@ == legend_of(field.terrain@.take(i as int)),
            data@.len() == i,
            forall|j: int| 0 <= j < i ==> #[trigger] data@[j] < legend@.len(),
            forall|j: int| 0 <= j < i ==> legend@[#[trigger] data@[j] as int] == field.terrain@[j],
        decreases field.terrain@.len() - i,
    {
        let t = field.terrain[i];
        assert(field.terrain@.take(i + 1).drop_last() =~= field.terrain@.take(i as int));
        assert(field.terrain@.take(i + 1).last() == t);
        let ghost prev = legend@;
        let index = match find_terrain(&legend, t) {
            Some(index) => index,
            None => {
                legend.push(t);
                legend.len() - 1
            },
        };
        proof {
            assert(prev.len() <= legend@.len());
            assert(forall|k: int| 0 <= k < prev.len() ==> legend@[k] == prev[k]);
            assert forall|j: int| 0 <= j < i implies data@[j] < legend@.len()
                && legend@[data@[j] as int] == field.terrain@[j] by {
                assert(data@[j] < prev.len());
                assert(legend@[data@[j] as int] == prev[data@[j] as int]);
            }
        }
        data.push(index);
        i += 1;
    }
    assert(field.terrain@.take(field.terrain@.len() as int) =~= field.terrain@);
    FieldDto { width: field.width, height: field.height, data, legend }
}

proof fn lemma_legend_distinct(s: Seq<Terrain>)
    ensures
        no_duplicates(legend_of(s)),
        legend_of(s).len() >= 2,
        legend_of(s)[0] == Terrain::Blank,
        legend_of(s)[1] == Terrain::Floor,
    decreases s.len(),
{
    if s.len() > 0 {
        lemma_legend_distinct(s.drop_last());
    }
}

proof fn lemma_legend_covers(s: Seq<Terrain>)
    ensures
        forall|t: Terrain| #[trigger] legend_of(s).contains(t)
            <==> (t == Terrain::Blank || t == Terrain::Floor || s.contains(t)),
    decreases s.len(),
{
    if s.len() > 0 {
        lemma_legend_covers(s.drop_last());
        let prev = legend_of(s.drop_last());
        assert forall|t: Terrain| #[trigger] legend_of(s).contains(t)
            <==> (t == Terrain::Blank || t == Terrain::Floor || s.contains(t)) by {
            if s.contains(t) && !s.drop_last().contains(t) {
                assert(t == s.last()) by {
                    let k = choose|k: int| 0 <= k < s.len() && s[k] == t;
                    if k < s.len() - 1 {
                        assert(s.drop_last()[k] == t);
                    }
                }
            }
            if s.drop_last().contains(t) {
                let k = choose|k: int| 0 <= k < s.drop_last().len() && s.drop_last()[k] == t;
                assert(s[k] == t);
            }
            if !prev.contains(s.last()) && legend_of(s).contains(t) && !prev.contains(t) {
                let k = choose|k: int| 0 <= k < legend_of(s).len() && legend_of(s)[k] == t;
                assert(k == prev.len());
            }
            if prev.contains(t) && !prev.contains(s.last()) {
                let k = choose|k: int| 0 <= k < prev.len() && prev[k] == t;
                assert(legend_of(s)[k] == t);
            }
            if t == s.last() && !prev.contains(s.last()) {
                assert(legend_of(s)[prev.len() as int] == t);
            }
        }
    }
}

/// The encoding of a field can be read back: the legend starts with blank
/// and floor, lists no terrain twice and only terrains of the field besides
/// those two, so every tile's index names exactly its terrain.
pub proof fn law_field_encoding(s: Seq<Terrain>)
    ensures
        no_duplicates(legend_of(s)),
        legend_of(s)[0] == Terrain::Blank,
        legend_of(s)[1] == Terrain::Floor,
        forall|t: Terrain| #[trigger] legend_of(s).contains(t)
            <==> (t == Terrain::Blank || t == Terrain::Floor || s.contains(t)),
{
    lemma_legend_distinct(s);
    lemma_legend_covers(s);
}

} // verus!
