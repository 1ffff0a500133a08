use vstd::prelude::*;
use vstd::multiset::Multiset;
use vstd::utf8::encode_utf8;

verus! {

/// Trophy thresholds of one metric of a level (a negative value means the
/// trophy is not awarded for that metric).
#[derive(Copy, Clone, Debug, PartialEq, Eq, Structural)]
pub struct TrophyValues {
    pub author: i32,
    pub gold: i32,
    pub silver: i32,
    pub bronze: i32,
}

/// Trophy thresholds of a level for its time (ticks) and its steps.
#[derive(Copy, Clone, Debug, PartialEq, Eq, Structural)]
pub struct Trophies {
    pub ticks: TrophyValues,
    pub steps: TrophyValues,
}

/// What the progression logic reads of a level: its name, its password and
/// its trophy thresholds.
pub struct LevelEntry {
    pub name: String,
    pub password: Option<String>,
    pub trophies: Option<Trophies>,
}

/// A named collection of levels.
pub struct LevelSet {
    pub name: String,
    pub title: String,
    pub about: Option<String>,
    pub splash: Option<Vec<u8>>,
    pub levels: Vec<LevelEntry>,
}

impl LevelSet {
    /// The names of the levels, in order.
    pub open spec fn level_names(&self) -> Seq<Seq<char>> {
        self.levels@.map_values(|l: LevelEntry| l.name@)
    }

    /// Index of the first level named `name`.
    pub fn get_level_index(&self, name: &String) -> (r: Option<usize>)
        ensures
            match r {
                Some(i) => {
                    &&& i < self.levels@.len()
                    &&& self.level_names().index_of_first(name@) == Some(i as int)
                },
                None => self.level_names().index_of_first(name@) is None,
            },
    {
        let ghost names = self.level_names();
        proof {
            names.index_of_first_ensures(name@);
        }
        let mut i: usize = 0;
        while i < self.levels.len()
            invariant
                i <= self.levels.len(),
                names == self.level_names(),
                names.len() == self.levels@.len(),
                forall|j: int| 0 <= j < i ==> names[j] != name@,
                match names.index_of_first(name@) {
                    Some(index) => {
                        &&& names.contains(name@)
                        &&& 0 <= index < names.len()
                        &&& names[index] == name@
                        &&& forall|j: int| 0 <= j < index < names.len() ==> names[j] != name@
                    },
                    None => !names.contains(name@),
                },
            decreases self.levels.len() - i,
        {
            if self.levels[i].name == *name {
                proof {
                    assert(names[i as int] == self.levels@[i as int].name@);
                    match names.index_of_first(name@) {
                        Some(k) => {
                            assert(k >= i);
                            assert(!(k > i));
                        },
                        None => {
                            assert(names[i as int] == name@);
                        },
                    }
                }
                return Some(i);
            }
            assert(names[i as int] == self.levels@[i as int].name@);
            i += 1;
        }
        proof {
            assert(!names.contains(name@));
        }
        None
    }

    /// Number (index plus one) of the first level named `name`.
    pub fn get_level_number(&self, name: &String) -> (r: Option<i32>)
        requires
            self.levels.len() < i32::MAX,
        ensures
            match r {
                Some(n) => self.level_names().index_of_first(name@) == Some(n - 1),
                None => self.level_names().index_of_first(name@) is None,
            },
    {
        match self.get_level_index(name) {
            Some(i) => Some(i as i32 + 1),
            None => None,
        }
    }
}

/// All level sets and which one is selected (`-1` when none is).
pub struct LevelSets {
    pub selected: i32,
    pub collection: Vec<LevelSet>,
}

impl LevelSets {
    /// No level sets and none selected.
    pub fn default() -> (r: LevelSets)
        ensures
            r.selected == -1,
            r.collection@.len() == 0,
    {
        LevelSets { selected: -1, collection: Vec::new() }
    }

    /// A level set is selected.
    pub open spec fn has_current(&self) -> bool {
        0 <= self.selected < self.collection@.len()
    }

    /// The selected level set.
    pub fn current(&self) -> (r: &LevelSet)
        requires
            self.has_current(),
        ensures
            *r == self.collection@[self.selected as int],
    {
        &self.collection[self.selected as usize]
    }
}

/// `a` comes before `b` in byte order, from index `i` on: at the first
/// index where they differ `a` has the smaller byte, or `a` ends first.
pub open spec fn lex_lt_from(a: Seq<u8>, b: Seq<u8>, i: int) -> bool
    decreases a.len() - i,
{
    if i < 0 || i >= b.len() {
        false
    } else if i >= a.len() {
        true
    } else if a[i] != b[i] {
        a[i] < b[i]
    } else {
        lex_lt_from(a, b, i + 1)
    }
}

/// `a` comes before `b` in byte order.
pub open spec fn lex_lt(a: Seq<u8>, b: Seq<u8>) -> bool {
    lex_lt_from(a, b, 0)
}

/// The bytes of a level set's name, by which the sets are ordered.
pub open spec fn name_key(set: LevelSet) -> Seq<u8> {
    encode_utf8(set.name@)
}

/// Byte order is transitive.
pub proof fn lemma_lex_lt_transitive(a: Seq<u8>, b: Seq<u8>, c: Seq<u8>, i: int)
    requires
        lex_lt_from(a, b, i),
        lex_lt_from(b, c, i),
    ensures
        lex_lt_from(a, c, i),
    decreases a.len() - i,
{
    if 0 <= i < a.len() && i < b.len() && i < c.len() && a[i] == b[i] && b[i] == c[i] {
        lemma_lex_lt_transitive(a, b, c, i + 1);
    }
}

/// No byte string comes before itself.
pub proof fn lemma_lex_lt_irreflexive(a: Seq<u8>, i: int)
    ensures
        !lex_lt_from(a, a, i),
    decreases a.len() - i,
{
    if 0 <= i < a.len() {
        lemma_lex_lt_irreflexive(a, i + 1);
    }
}

/// Of two byte strings that agree before index `i`, one comes before the
/// other or they are equal.
pub proof fn lemma_lex_trichotomy(a: Seq<u8>, b: Seq<u8>, i: int)
    requires
        0 <= i <= a.len(),
        i <= b.len(),
        a.take(i) == b.take(i),
    ensures
        lex_lt_from(a, b, i) || lex_lt_from(b, a, i) || a == b,
    decreases a.len() - i,
{
    if i < a.len() && i < b.len() && a[i] == b[i] {
        assert(a.take(i + 1) =~= a.take(i).push(a[i]));
        assert(b.take(i + 1) =~= b.take(i).push(b[i]));
        lemma_lex_trichotomy(a, b, i + 1);
    } else if i == a.len() && i == b.len() {
        assert(a =~= a.take(i));
        assert(b =~= b.take(i));
    }
}

/// Two byte strings where neither comes before the other are equal.
pub proof fn lemma_lex_equal(a: Seq<u8>, b: Seq<u8>)
    requires
        !lex_lt(a, b),
        !lex_lt(b, a),
    ensures
        a == b,
{
    assert(a.take(0) =~= b.take(0));
    lemma_lex_trichotomy(a, b, 0);
}

/// Whether string `a` comes before string `b` in byte order, the order of
/// `String`'s comparison.
pub fn name_lt(a: &String, b: &String) -> (r: bool)
    ensures
        r == lex_lt(encode_utf8(a@), encode_utf8(b@)),
{
    let x = a.as_str().as_bytes();
    let y = b.as_str().as_bytes();
    let mut i: usize = 0;
    while i < x.len() && i < y.len() && x[i] == y[i]
        invariant
            i <= x@.len(),
            i <= y@.len(),
            x@ == encode_utf8(a@),
            y@ == encode_utf8(b@),
            lex_lt_from(x@, y@, 0) == lex_lt_from(x@, y@, i as int),
        decreases x@.len() - i,
    {
        i += 1;
    }
    if i >= y.len() {
        false
    } else if i >= x.len() {
        true
    } else {
        x[i] < y[i]
    }
}

/// No set comes after a later one by name.
pub open spec fn sorted_by_name(sets: Seq<LevelSet>) -> bool {
    forall|i: int, j: int| 0 <= i < j < sets.len() ==> !lex_lt(#[trigger] name_key(sets[j]), #[trigger] name_key(sets[i]))
}

/// Index of the first of the sets with the smallest name.
fn first_min_by_name(sets: &Vec<LevelSet>) -> (r: usize)
    requires
        sets@.len() > 0,
    ensures
        r < sets@.len(),
        forall|k: int| 0 <= k < sets@.len() ==> !lex_lt(#[trigger] name_key(sets@[k]), name_key(sets@[r as int])),
        forall|k: int| 0 <= k < r ==> lex_lt(name_key(sets@[r as int]), #[trigger] name_key(sets@[k])),
{
    let mut m: usize = 0;
    let mut j: usize = 1;
    proof {
        lemma_lex_lt_irreflexive(name_key(sets@[0]), 0);
    }
    while j < sets.len()
        invariant
            0 < j <= sets@.len(),
            m < j,
            forall|k: int| 0 <= k < j ==> !lex_lt(#[trigger] name_key(sets@[k]), name_key(sets@[m as int])),
            forall|k: int| 0 <= k < m ==> lex_lt(name_key(sets@[m as int]), #[trigger] name_key(sets@[k])),
        decreases sets@.len() - j,
    {
        if name_lt(&sets[j].name, &sets[m].name) {
            proof {
                lemma_lex_lt_irreflexive(name_key(sets@[j as int]), 0);
                assert forall|k: int| 0 <= k < j implies !lex_lt(#[trigger] name_key(sets@[k]), name_key(sets@[j as int])) by {
                    if lex_lt(name_key(sets@[k]), name_key(sets@[j as int])) {
                        lemma_lex_lt_transitive(name_key(sets@[k]), name_key(sets@[j as int]), name_key(sets@[m as int]), 0);
                    }
                }
                assert forall|k: int| 0 <= k < j implies lex_lt(name_key(sets@[j as int]), #[trigger] name_key(sets@[k])) by {
                    let kj = name_key(sets@[j as int]);
                    let km = name_key(sets@[m as int]);
                    let kk = name_key(sets@[k]);
                    if k < m {
                        lemma_lex_lt_transitive(kj, km, kk, 0);
                    } else if k > m {
                        if lex_lt(km, kk) {
                            lemma_lex_lt_transitive(kj, km, kk, 0);
                        } else {
                            assert(!lex_lt(kk, km));
                            lemma_lex_equal(km, kk);
                        }
                    }
                }
            }
            m = j;
        }
        j += 1;
    }
    m
}

/// `r` holds the sets of `orig` at the distinct positions `idx`, and sets
/// with the same name are in the order they had in `orig`.
pub open spec fn stable_order(orig: Seq<LevelSet>, r: Seq<LevelSet>, idx: Seq<int>) -> bool {
    &&& idx.len() == r.len()
    &&& forall|k: int| 0 <= k < r.len() ==> 0 <= #[trigger] idx[k] < orig.len() && r[k] == orig[idx[k]]
    &&& forall|k: int, l: int| 0 <= k < l < r.len() ==> #[trigger] idx[k] != #[trigger] idx[l]
    &&& forall|k: int, l: int| 0 <= k < l < r.len() && name_key(#[trigger] r[k]) == name_key(#[trigger] r[l])
        ==> idx[k] < idx[l]
}

/// Orders the level sets by name, in byte order, smallest first; sets
/// with the same name keep their order.
pub fn sort_by_name(sets: &mut Vec<LevelSet>)
    ensures
        final(sets)@.to_multiset() == old(sets)@.to_multiset(),
        sorted_by_name(final(sets)@),
        exists|idx: Seq<int>| stable_order(old(sets)@, final(sets)@, idx),
{
    let ghost orig = sets@;
    let ghost mut rem_idx: Seq<int> = Seq::new(orig.len(), |i: int| i);
    let ghost mut out_idx: Seq<int> = Seq::empty();
    let mut out: Vec<LevelSet> = Vec::new();
    proof {
        out@.to_multiset_ensures();
        vstd::multiset::lemma_multiset_empty_len(out@.to_multiset());
        assert(out@.to_multiset().add(orig.to_multiset()) =~= orig.to_multiset());
    }
    while sets.len() > 0
        invariant
            out@.to_multiset().add(sets@.to_multiset()) == orig.to_multiset(),
            sorted_by_name(out@),
            forall|a: int, b: int| 0 <= a < out@.len() && 0 <= b < sets@.len()
                ==> !lex_lt(#[trigger] name_key(sets@[b]), #[trigger] name_key(out@[a])),
            rem_idx.len() == sets@.len(),
            out_idx.len() == out@.len(),
            forall|b: int| 0 <= b < sets@.len() ==> 0 <= #[trigger] rem_idx[b] < orig.len() && sets@[b] == orig[rem_idx[b]],
            forall|a: int| 0 <= a < out@.len() ==> 0 <= #[trigger] out_idx[a] < orig.len() && out@[a] == orig[out_idx[a]],
            forall|b: int, c: int| 0 <= b < c < sets@.len() ==> #[trigger] rem_idx[b] < #[trigger] rem_idx[c],
            forall|a: int, c: int| 0 <= a < c < out@.len() ==> #[trigger] out_idx[a] != #[trigger] out_idx[c],
            forall|a: int, b: int| 0 <= a < out@.len() && 0 <= b < sets@.len() ==> #[trigger] out_idx[a] != #[trigger] rem_idx[b],
            forall|a: int, c: int| 0 <= a < c < out@.len() && name_key(#[trigger] out@[a]) == name_key(#[trigger] out@[c])
                ==> out_idx[a] < out_idx[c],
            forall|a: int, b: int| 0 <= a < out@.len() && 0 <= b < sets@.len()
                && name_key(#[trigger] out@[a]) == name_key(#[trigger] sets@[b]) ==> out_idx[a] < rem_idx[b],
        decreases sets@.len(),
    {
        let m = first_min_by_name(sets);
        let ghost before = sets@;
        let ghost out0 = out@;
        let ghost rem0 = rem_idx;
        let ghost outi0 = out_idx;
        let set = sets.remove(m);
        proof {
            before.to_multiset_ensures();
            out0.to_multiset_ensures();
            assert(before.remove(m as int).to_multiset() =~= before.to_multiset().remove(before[m as int]));
            assert(out0.push(set).to_multiset() =~= out0.to_multiset().insert(set));
            assert(before.to_multiset().count(set) > 0) by {
                assert(before.contains(set));
            }
            out_idx = outi0.push(rem0[m as int]);
            rem_idx = rem0.remove(m as int);
        }
        out.push(set);
        proof {
            assert(out@.to_multiset().add(sets@.to_multiset()) =~= orig.to_multiset());
            assert forall|i: int, j: int| 0 <= i < j < out@.len()
                implies !lex_lt(#[trigger] name_key(out@[j]), #[trigger] name_key(out@[i])) by {
                if j < out0.len() {
                    assert(out@[i] == out0[i] && out@[j] == out0[j]);
                } else {
                    assert(out@[i] == out0[i]);
                    assert(out@[j] == before[m as int]);
                }
            }
            assert forall|a: int, b: int| 0 <= a < out@.len() && 0 <= b < sets@.len()
                implies !lex_lt(#[trigger] name_key(sets@[b]), #[trigger] name_key(out@[a])) by {
                let ob = if b < m { b } else { b + 1 };
                assert(sets@[b] == before[ob]);
                if a < out0.len() {
                    assert(out@[a] == out0[a]);
                } else {
                    assert(out@[a] == before[m as int]);
                }
            }
            assert forall|b: int| 0 <= b < sets@.len() implies 0 <= #[trigger] rem_idx[b] < orig.len()
                && sets@[b] == orig[rem_idx[b]] by {
                let ob = if b < m { b } else { b + 1 };
                assert(sets@[b] == before[ob]);
                assert(rem_idx[b] == rem0[ob]);
            }
            assert forall|a: int| 0 <= a < out@.len() implies 0 <= #[trigger] out_idx[a] < orig.len()
                && out@[a] == orig[out_idx[a]] by {
                if a < out0.len() {
                    assert(out@[a] == out0[a]);
                    assert(out_idx[a] == outi0[a]);
                } else {
                    assert(out@[a] == before[m as int]);
                    assert(out_idx[a] == rem0[m as int]);
                }
            }
            assert forall|b: int, c: int| 0 <= b < c < sets@.len() implies #[trigger] rem_idx[b] < #[trigger] rem_idx[c] by {
                let ob = if b < m { b } else { b + 1 };
                let oc = if c < m { c } else { c + 1 };
                assert(rem_idx[b] == rem0[ob] && rem_idx[c] == rem0[oc]);
            }
            assert forall|a: int, c: int| 0 <= a < c < out@.len() implies #[trigger] out_idx[a] != #[trigger] out_idx[c] by {
                if c < out0.len() {
                    assert(out_idx[a] == outi0[a] && out_idx[c] == outi0[c]);
                } else {
                    assert(out_idx[a] == outi0[a] && out_idx[c] == rem0[m as int]);
                }
            }
            assert forall|a: int, b: int| 0 <= a < out@.len() && 0 <= b < sets@.len()
                implies #[trigger] out_idx[a] != #[trigger] rem_idx[b] by {
                let ob = if b < m { b } else { b + 1 };
                assert(rem_idx[b] == rem0[ob]);
                if a < out0.len() {
                    assert(out_idx[a] == outi0[a]);
                } else {
                    assert(out_idx[a] == rem0[m as int]);
                }
            }
            assert forall|a: int, c: int| 0 <= a < c < out@.len() && name_key(#[trigger] out@[a]) == name_key(#[trigger] out@[c])
                implies out_idx[a] < out_idx[c] by {
                if c < out0.len() {
                    assert(out@[a] == out0[a] && out@[c] == out0[c]);
                    assert(out_idx[a] == outi0[a] && out_idx[c] == outi0[c]);
                } else {
                    assert(out@[a] == out0[a] && out@[c] == before[m as int]);
                    assert(out_idx[a] == outi0[a] && out_idx[c] == rem0[m as int]);
                }
            }
            assert forall|a: int, b: int| 0 <= a < out@.len() && 0 <= b < sets@.len()
                && name_key(#[trigger] out@[a]) == name_key(#[trigger] sets@[b]) implies out_idx[a] < rem_idx[b] by {
                let ob = if b < m { b } else { b + 1 };
                assert(sets@[b] == before[ob]);
                assert(rem_idx[b] == rem0[ob]);
                if a < out0.len() {
                    assert(out@[a] == out0[a]);
                    assert(out_idx[a] == outi0[a]);
                } else {
                    assert(out@[a] == before[m as int]);
                    assert(out_idx[a] == rem0[m as int]);
                    if ob < m {
                        assert(lex_lt(name_key(before[m as int]), name_key(before[ob])));
                        lemma_lex_lt_irreflexive(name_key(before[ob]), 0);
                    }
                }
            }
        }
    }
    proof {
        sets@.to_multiset_ensures();
        vstd::multiset::lemma_multiset_empty_len(sets@.to_multiset());
        assert(stable_order(orig, out@, out_idx));
    }
    assert(sets@.to_multiset() =~= Multiset::empty());
    assert(out@.to_multiset().add(Multiset::empty()) =~= out@.to_multiset());
    *sets = out;
}

/// The lines joined with a line break between each two.
pub open spec fn joined_lines(lines: Seq<Seq<char>>) -> Seq<char>
    decreases lines.len(),
{
    if lines.len() == 0 {
        Seq::empty()
    } else if lines.len() == 1 {
        lines[0]
    } else {
        joined_lines(lines.drop_last()) + seq!['\n'] + lines.last()
    }
}

/// The lines of a level set's about text joined into one text, with a line
/// break between each two.
pub fn join_lines(lines: &Vec<String>) -> (r: String)
    ensures
        r@ == joined_lines(lines@.map_values(|l: String| l@)),
{
    let ghost views = lines@.map_values(|l: String| l@);
    let mut out = String::new();
    let mut i: usize = 0;
    while i < lines.len()
        invariant
            i <= lines@.len(),
            views == lines@.map_values(|l: String| l@),
            out@ == joined_lines(views.take(i as int)),
        decreases lines@.len() - i,
    {
        assert(views.take(i + 1).drop_last() =~= views.take(i as int));
        if i > 0 {
            let sep = "\n";
            proof {
                reveal_strlit("\n");
            }
            out.append(sep);
        }
        out.append(lines[i].as_str());
        i += 1;
        assert(views.take(i as int).last() == views[i - 1]);
    }
    assert(views.take(lines@.len() as int) =~= views);
    out
}

} // verus!
