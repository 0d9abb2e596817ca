//! The galaxy's topology: the lookup table built from a topology file, the
//! adjacency list of each row and the symmetric adjacency matrix, with the
//! queries the orchestrator makes of them.
use vstd::prelude::*;
use rustc_hash::FxHashMap;
use std::collections::HashMap;
use crate::galaxy_file::{GalaxyRow, PlanetType, planet_type_of_code, rows_view};
use crate::lookup_table::{lookup_get, lookup_insert};

verus! {

broadcast use vstd::std_specs::hash::group_hash_axioms;

/// Every planet row has an id and a type.
pub open spec fn rows_well_formed(rows: Seq<(nat, Seq<u32>)>) -> bool {
    forall|k: int| 0 <= k < rows.len() ==> #[trigger] rows[k].1.len() >= 2
}

/// For each planet id, the line of the last row that names it (as `u32`).
pub open spec fn index_map(rows: Seq<(nat, Seq<u32>)>) -> Map<u32, u32>
    decreases rows.len(),
{
    if rows.len() == 0 {
        Map::empty()
    } else {
        index_map(rows.drop_last()).insert(rows.last().1[0], rows.last().0 as u32)
    }
}

/// For each planet id, the type id of the last row that names it.
pub open spec fn code_map(rows: Seq<(nat, Seq<u32>)>) -> Map<u32, u32>
    decreases rows.len(),
{
    if rows.len() == 0 {
        Map::empty()
    } else {
        code_map(rows.drop_last()).insert(rows.last().1[0], rows.last().1[1])
    }
}

/// For each row's line (as `u32`), the planet id that the row names.
pub open spec fn reverse_map(rows: Seq<(nat, Seq<u32>)>) -> Map<u32, u32>
    decreases rows.len(),
{
    if rows.len() == 0 {
        Map::empty()
    } else {
        reverse_map(rows.drop_last()).insert(rows.last().0 as u32, rows.last().1[0])
    }
}

/// A lookup table that holds, for each planet id of the rows, the line of the
/// last row naming it, and the type that its type id names (a random type
/// for an id that names none).
pub open spec fn lookup_matches_rows(m: Map<u32, (u32, PlanetType)>, rows: Seq<(nat, Seq<u32>)>) -> bool {
    &&& m.dom() == index_map(rows).dom()
    &&& forall|id: u32| #[trigger]
        m.contains_key(id) ==> {
            &&& m[id].0 == index_map(rows)[id]
            &&& (planet_type_of_code(code_map(rows)[id]) matches Some(t) ==> m[id].1 == t)
        }
}

/// A neighbour id written in the file, replaced by the line of the planet it
/// names where some row names it.
pub open spec fn translate(v: u32, idx: Map<u32, u32>) -> u32 {
    if idx.contains_key(v) {
        idx[v]
    } else {
        v
    }
}

/// The neighbours of one row, translated.
pub open spec fn row_neighbours(vals: Seq<u32>, idx: Map<u32, u32>) -> Seq<u32> {
    vals.skip(2).map_values(|v: u32| translate(v, idx))
}

/// The adjacency list of the rows: one entry per row, in order, with each
/// neighbour translated by the lines of the rows.
pub open spec fn adjacency_list(rows: Seq<(nat, Seq<u32>)>) -> Seq<Seq<u32>> {
    rows.map_values(|r: (nat, Seq<u32>)| row_neighbours(r.1, index_map(rows)))
}

pub open spec fn list_view(v: Seq<Vec<u32>>) -> Seq<Seq<u32>> {
    v.map_values(|x: Vec<u32>| x@)
}

pub open spec fn matrix_view(m: Seq<Vec<bool>>) -> Seq<Seq<bool>> {
    m.map_values(|x: Vec<bool>| x@)
}

/// Every neighbour in the list is a row of the list.
pub open spec fn fits(adj: Seq<Seq<u32>>) -> bool {
    forall|k: int, p: int| 0 <= k < adj.len() && 0 <= p < adj[k].len() ==> #[trigger] adj[k][p] < adj.len()
}

/// The sequence holds the number `j`.
pub open spec fn lists(s: Seq<u32>, j: int) -> bool {
    exists|p: int| 0 <= p < s.len() && #[trigger] s[p] == j
}

/// Rows `i` and `j` are linked when either lists the other.
pub open spec fn linked(adj: Seq<Seq<u32>>, i: int, j: int) -> bool {
    lists(adj[i], j) || lists(adj[j], i)
}

/// An `n` by `n` matrix.
pub open spec fn square(m: Seq<Seq<bool>>) -> bool {
    forall|i: int| 0 <= i < m.len() ==> #[trigger] m[i].len() == m.len()
}

/// The matrix of the adjacency list: entry `(i, j)` is set exactly when rows
/// `i` and `j` are linked.
pub open spec fn is_matrix_of(m: Seq<Seq<bool>>, adj: Seq<Seq<u32>>) -> bool {
    &&& m.len() == adj.len()
    &&& square(m)
    &&& forall|i: int, j: int| 0 <= i < m.len() && 0 <= j < m.len() ==> #[trigger] m[i][j] == linked(adj, i, j)
}

/// The matrix is its own transpose.
pub open spec fn symmetric(m: Seq<Seq<bool>>) -> bool {
    forall|i: int, j: int| 0 <= i < m.len() && 0 <= j < m.len() ==> #[trigger] m[i][j] == m[j][i]
}

proof fn lemma_maps_same_domain(rows: Seq<(nat, Seq<u32>)>)
    ensures
        index_map(rows).dom() == code_map(rows).dom(),
    decreases rows.len(),
{
    if rows.len() > 0 {
        lemma_maps_same_domain(rows.drop_last());
    }
}

/// The lookup table of the planet rows: each planet id maps to the line of
/// the last row naming it and to the type its type id names, or a random
/// type where the id names none.
pub fn build_lookup(rows: &Vec<GalaxyRow>) -> (m: FxHashMap<u32, (u32, PlanetType)>)
    requires
        rows_well_formed(rows_view(rows@)),
    ensures
        lookup_matches_rows(m@, rows_view(rows@)),
{
    let ghost rv = rows_view(rows@);
    let mut m = FxHashMap::default();
    let mut i: usize = 0;
    proof {
        assert(rv.take(0) =~= Seq::<(nat, Seq<u32>)>::empty());
        assert(m@.dom() =~= index_map(rv.take(0)).dom());
    }
    while i < rows.len()
        invariant
            0 <= i <= rows@.len(),
            rv == rows_view(rows@),
            rows_well_formed(rv),
            lookup_matches_rows(m@, rv.take(i as int)),
        decreases rows@.len() - i,
    {
        let row = &rows[i];
        assert(rv[i as int] == row@);
        assert(row@.1.len() >= 2);
        let id = row.values[0];
        let code = row.values[1];
        let ptype = PlanetType::from_code_or_random(code);
        let ghost pre = rv.take(i as int);
        let ghost post = rv.take(i + 1);
        proof {
            assert(post.drop_last() =~= pre);
            assert(post.last() == row@);
        }
        let ghost before = m@;
        lookup_insert(&mut m, id, (row.line as u32, ptype));
        proof {
            assert(m@.dom() =~= index_map(post).dom());
            assert forall|k: u32| #[trigger] m@.contains_key(k) implies {
                &&& m@[k].0 == index_map(post)[k]
                &&& (planet_type_of_code(code_map(post)[k]) matches Some(t) ==> m@[k].1 == t)
            } by {
                if k != id {
                    assert(m@[k] == before[k]);
                    assert(before.contains_key(k));
                }
            }
        }
        i = i + 1;
    }
    proof {
        assert(rv.take(rows@.len() as int) =~= rv);
    }
    m
}

/// The adjacency list of the planet rows: for each row, its neighbour ids,
/// each replaced by its matrix row where the lookup table knows the id.
pub fn translate_neighbours(rows: &Vec<GalaxyRow>, lookup: &FxHashMap<u32, (u32, PlanetType)>) -> (adj: Vec<Vec<u32>>)
    requires
        rows_well_formed(rows_view(rows@)),
        lookup_matches_rows(lookup@, rows_view(rows@)),
    ensures
        list_view(adj@) == adjacency_list(rows_view(rows@)),
{
    let ghost rv = rows_view(rows@);
    let mut adj: Vec<Vec<u32>> = Vec::new();
    let mut k: usize = 0;
    while k < rows.len()
        invariant
            0 <= k <= rows@.len(),
            rv == rows_view(rows@),
            rows_well_formed(rv),
            adj@.len() == k,
            lookup_matches_rows(lookup@, rv),
            list_view(adj@) == adjacency_list(rv).take(k as int),
        decreases rows@.len() - k,
    {
        let vals = &rows[k].values;
        assert(rv[k as int].1 == vals@);
        let ghost idx = index_map(rv);
        let ghost target = row_neighbours(vals@, idx);
        let mut out: Vec<u32> = Vec::new();
        let mut p: usize = 2;
        while p < vals.len()
            invariant
                2 <= p <= vals@.len(),
                idx == index_map(rv),
                lookup_matches_rows(lookup@, rv),
                target == row_neighbours(vals@, idx),
                out@ == target.take(p - 2),
            decreases vals@.len() - p,
        {
            let v = vals[p];
            let t = match lookup_get(lookup, v) {
                Some(entry) => entry.0,
                None => v,
            };
            proof {
                assert(lookup@.dom().contains(v) == idx.dom().contains(v));
                assert(t == translate(v, idx));
            }
            out.push(t);
            proof {
                assert(out@ =~= target.take(p - 1));
            }
            p = p + 1;
        }
        proof {
            assert(out@ =~= target);
        }
        let ghost before = adj@;
        let ghost out_v = out@;
        adj.push(out);
        proof {
            assert(adjacency_list(rv)[k as int] == target);
            assert(adj@[k as int]@ == out_v);
            assert(adj@.drop_last() == before);
            assert(list_view(adj@) =~= adjacency_list(rv).take(k + 1));
        }
        k = k + 1;
    }
    proof {
        assert(adjacency_list(rv).take(rows@.len() as int) =~= adjacency_list(rv));
    }
    adj
}

/// Whether every neighbour in the list is a row of the list, which building
/// the matrix needs.
pub fn adjacency_fits(adj: &Vec<Vec<u32>>) -> (b: bool)
    ensures
        b == fits(list_view(adj@)),
{
    let ghost a = list_view(adj@);
    let n = adj.len();
    let mut k: usize = 0;
    while k < n
        invariant
            0 <= k <= n,
            n == adj@.len(),
            a == list_view(adj@),
            a.len() == n,
            forall|kk: int, p: int| 0 <= kk < k && 0 <= p < a[kk].len() ==> #[trigger] a[kk][p] < n,
        decreases n - k,
    {
        let row = &adj[k];
        assert(a[k as int] == row@);
        let mut p: usize = 0;
        while p < row.len()
            invariant
                0 <= p <= row@.len(),
                0 <= k < n,
                n == adj@.len(),
                a == list_view(adj@),
                a.len() == n,
                a[k as int] == row@,
                forall|kk: int, q: int| 0 <= kk < k && 0 <= q < a[kk].len() ==> #[trigger] a[kk][q] < n,
                forall|q: int| 0 <= q < p ==> #[trigger] row@[q] < n,
            decreases row@.len() - p,
        {
            if row[p] as usize >= n {
                assert(a[k as int][p as int] >= n);
                return false;
            }
            p = p + 1;
        }
        k = k + 1;
    }
    true
}

/// Sets one entry of a matrix.
fn set_entry(m: &mut Vec<Vec<bool>>, i: usize, j: usize, val: bool)
    requires
        i < old(m)@.len(),
        j < old(m)@[i as int]@.len(),
    ensures
        final(m)@.len() == old(m)@.len(),
        forall|k: int| 0 <= k < old(m)@.len() && k != i ==> final(m)@[k] == old(m)@[k],
        final(m)@[i as int]@ == old(m)@[i as int]@.update(j as int, val),
{
    m[i][j] = val;
}

proof fn lemma_lists_take_step(s: Seq<u32>, p: int, j: int)
    requires
        0 <= p < s.len(),
    ensures
        lists(s.take(p + 1), j) == (lists(s.take(p), j) || s[p] == j),
{
    if lists(s.take(p + 1), j) {
        let q = choose|q: int| 0 <= q < s.take(p + 1).len() && #[trigger] s.take(p + 1)[q] == j;
        if q < p {
            assert(s.take(p)[q] == j);
        }
    }
    if lists(s.take(p), j) {
        let q = choose|q: int| 0 <= q < s.take(p).len() && #[trigger] s.take(p)[q] == j;
        assert(s.take(p + 1)[q] == j);
    }
    if s[p] == j {
        assert(s.take(p + 1)[p] == j);
    }
}

/// The entry `(i, j)` once rows before `idx`, and the first `p` neighbours of
/// row `idx`, have been written into the matrix.
spec fn marked(adj: Seq<Seq<u32>>, idx: int, p: int, i: int, j: int) -> bool {
    ||| (i < idx && lists(adj[i], j))
    ||| (j < idx && lists(adj[j], i))
    ||| (i == idx && lists(adj[idx].take(p), j))
    ||| (j == idx && lists(adj[idx].take(p), i))
}

/// An `n` by `n` matrix with every entry unset.
pub fn empty_matrix(n: usize) -> (m: Vec<Vec<bool>>)
    ensures
        m@.len() == n,
        square(matrix_view(m@)),
        forall|i: int| 0 <= i < n ==> #[trigger] m@[i]@.len() == n,
        forall|i: int, j: int| 0 <= i < n && 0 <= j < n ==> !#[trigger] m@[i]@[j],
{
    let mut m: Vec<Vec<bool>> = Vec::new();
    let mut r: usize = 0;
    while r < n
        invariant
            0 <= r <= n,
            m@.len() == r,
            forall|i: int| 0 <= i < r ==> #[trigger] m@[i]@.len() == n,
            forall|i: int, j: int| 0 <= i < r && 0 <= j < n ==> !#[trigger] m@[i]@[j],
        decreases n - r,
    {
        let mut row: Vec<bool> = Vec::new();
        let mut c: usize = 0;
        while c < n
            invariant
                0 <= c <= n,
                row@.len() == c,
                forall|j: int| 0 <= j < c ==> !#[trigger] row@[j],
            decreases n - c,
        {
            row.push(false);
            c = c + 1;
        }
        m.push(row);
        r = r + 1;
    }
    proof {
        let mv = matrix_view(m@);
        assert forall|i: int| 0 <= i < mv.len() implies #[trigger] mv[i].len() == mv.len() by {
            assert(mv[i] == m@[i]@);
        }
    }
    m
}

/// The symmetric adjacency matrix of an adjacency list whose neighbours are
/// all rows of it: entry `(i, j)` is set exactly when row `i` lists `j` or row
/// `j` lists `i`.
pub fn build_topology(adj: &Vec<Vec<u32>>) -> (m: Vec<Vec<bool>>)
    requires
        fits(list_view(adj@)),
    ensures
        is_matrix_of(matrix_view(m@), list_view(adj@)),
{
    let ghost a = list_view(adj@);
    let n = adj.len();
    let mut m = empty_matrix(n);
    let mut idx: usize = 0;
    while idx < n
        invariant
            0 <= idx <= n,
            n == adj@.len(),
            a == list_view(adj@),
            fits(a),
            m@.len() == n,
            forall|i: int| 0 <= i < n ==> #[trigger] m@[i]@.len() == n,
            forall|i: int, j: int|
                0 <= i < n && 0 <= j < n ==> #[trigger] m@[i]@[j] == marked(a, idx as int, 0, i, j),
        decreases n - idx,
    {
        let row = &adj[idx];
        assert(a[idx as int] == row@);
        let mut p: usize = 0;
        proof {
            assert forall|i: int, j: int| 0 <= i < n && 0 <= j < n implies
                #[trigger] m@[i]@[j] == marked(a, idx as int, 0, i, j) by {}
        }
        while p < row.len()
            invariant
                0 <= p <= row@.len(),
                0 <= idx < n,
                n == adj@.len(),
                a == list_view(adj@),
                a[idx as int] == row@,
                fits(a),
                m@.len() == n,
                forall|i: int| 0 <= i < n ==> #[trigger] m@[i]@.len() == n,
                forall|i: int, j: int|
                    0 <= i < n && 0 <= j < n ==> #[trigger] m@[i]@[j] == marked(a, idx as int, p as int, i, j),
            decreases row@.len() - p,
        {
            let c = row[p] as usize;
            assert(a[idx as int][p as int] < n);
            let ghost m0 = m@;
            set_entry(&mut m, idx, c, true);
            set_entry(&mut m, c, idx, true);
            proof {
                assert forall|i: int| 0 <= i < n implies #[trigger] m@[i]@.len() == n by {
                    if i == idx || i == c {
                    } else {
                        assert(m@[i] == m0[i]);
                    }
                }
                assert forall|i: int, j: int| 0 <= i < n && 0 <= j < n implies
                    #[trigger] m@[i]@[j] == marked(a, idx as int, p + 1, i, j) by {
                    lemma_lists_take_step(row@, p as int, j);
                    lemma_lists_take_step(row@, p as int, i);
                    if i != idx && i != c {
                        assert(m@[i] == m0[i]);
                    }
                }
            }
            p = p + 1;
        }
        proof {
            assert(row@.take(row@.len() as int) =~= row@);
            assert forall|i: int, j: int| 0 <= i < n && 0 <= j < n implies
                #[trigger] m@[i]@[j] == marked(a, idx + 1, 0, i, j) by {
                assert(a[idx as int].take(0) =~= Seq::<u32>::empty());
                assert(!lists(a[idx as int].take(0), j));
                assert(!lists(a[idx as int].take(0), i));
            }
        }
        idx = idx + 1;
    }
    proof {
        let mv = matrix_view(m@);
        assert forall|i: int| 0 <= i < mv.len() implies #[trigger] mv[i].len() == mv.len() by {
            assert(mv[i] == m@[i]@);
        }
        assert forall|i: int, j: int| 0 <= i < mv.len() && 0 <= j < mv.len() implies
            #[trigger] mv[i][j] == linked(a, i, j) by {
            assert(mv[i] == m@[i]@);
        }
    }
    m
}

} // verus!
