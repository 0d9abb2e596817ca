//! The orchestrator's state: the galaxy's topology, what is known of each
//! planet and explorer, and the events shown to the GUI. Sending messages is
//! left to the caller; the rules that decide what to send are in
//! `orchestrator_rules`.
use vstd::prelude::*;
use rustc_hash::FxHashMap;
use std::collections::HashMap;
use crate::galaxy_file::{
    GalaxyRow, ParseError, PlanetType, lemma_parsed_rows_have_id_and_type, parse_galaxy,
    parse_galaxy_content, rows_view,
};
use crate::lookup_table::lookup_get;
use crate::registry::{ExplorerInfoMap, PlanetInfoMap};
use crate::text::split;
use crate::topology::{
    adjacency_fits, adjacency_list, build_lookup, build_topology, fits, index_map, is_matrix_of,
    list_view, lookup_matches_rows, matrix_view, reverse_map, rows_well_formed, square,
    translate_neighbours,
};

verus! {

broadcast use vstd::std_specs::hash::group_hash_axioms;

/// What the GUI is told happened.
#[derive(Clone, Copy, Debug, PartialEq, Eq, Structural)]
pub enum OrchestratorEvent {
    PlanetDestroyed { planet_id: u32 },
    SunrayReceived { planet_id: u32 },
    SunraySent { planet_id: u32 },
    AsteroidSent { planet_id: u32 },
    ExplorerMoveStarted { explorer_id: u32, destination: u32 },
    ExplorerMoved { explorer_id: u32, destination: u32 },
}

/// Why the orchestrator refused or could not finish a request.
#[derive(Clone, Copy, Debug, PartialEq, Eq, Structural)]
pub enum OrchError {
    /// A matrix position past the last row.
    IndexOutOfBounds,
    /// A planet id that the lookup table does not hold.
    PlanetNotInLookup(u32),
    /// A planet that the orchestrator has no record (and no channel) of.
    UnknownPlanet(u32),
    /// An explorer that the orchestrator has no record (and no channel) of.
    UnknownExplorer(u32),
    /// A planet was still alive when the wait for the planets to die ended.
    PlanetsStillAlive,
}

/// The galaxy and what the orchestrator knows of it.
pub struct Orchestrator {
    /// The adjacency matrix, one row per planet line of the topology file.
    pub galaxy_topology: Vec<Vec<bool>>,
    /// For each planet id: its row in the matrix and its type.
    pub galaxy_lookup: FxHashMap<u32, (u32, PlanetType)>,
    /// For each matrix row: the planet id it stands for.
    pub galaxy_reverse_lookup: HashMap<u32, u32>,
    pub planets_info: PlanetInfoMap,
    pub explorers_info: ExplorerInfoMap,
    /// Events waiting to be shown by the GUI, oldest first.
    pub gui_messages: Vec<OrchestratorEvent>,
}

/// A topology file whose neighbours all name rows of the matrix; on any other
/// file, building the matrix would index past its end.
pub open spec fn file_fits(s: Seq<char>) -> bool {
    parse_galaxy(s) matches Ok(rows) ==> fits(adjacency_list(rows))
}

/// The matrix with row `pos` and column `pos` cleared.
pub open spec fn cleared(m: Seq<Seq<bool>>, pos: int) -> Seq<Seq<bool>> {
    Seq::new(m.len(), |i: int| Seq::new(m[i].len(), |j: int| if i == pos || j == pos { false } else { m[i][j] }))
}

/// The matrix row of a planet: its lookup entry, or the number itself where
/// the lookup table does not hold it.
pub open spec fn position_of(lookup: Map<u32, (u32, PlanetType)>, id: usize) -> int {
    if lookup.contains_key(id as u32) {
        lookup[id as u32].0 as int
    } else {
        id as int
    }
}

/// The planet id of a matrix row, or the row itself where the reverse lookup
/// does not hold it.
pub open spec fn name_of(rev: Map<u32, u32>, i: int) -> u32 {
    if rev.contains_key(i as u32) {
        rev[i as u32]
    } else {
        i as u32
    }
}

/// The edges `(i, j)` with `i < j < upto` set in row `i`, in order of `j`,
/// each written with the planet ids of its rows.
pub open spec fn row_edges(m: Seq<Seq<bool>>, rev: Map<u32, u32>, i: int, upto: int) -> Seq<(u32, u32)>
    decreases upto - i,
{
    if upto <= i + 1 {
        Seq::empty()
    } else {
        let prev = row_edges(m, rev, i, upto - 1);
        if m[i][upto - 1] {
            prev.push((name_of(rev, i), name_of(rev, upto - 1)))
        } else {
            prev
        }
    }
}

/// The edges of the first `k` rows, row by row.
pub open spec fn edges_upto(m: Seq<Seq<bool>>, rev: Map<u32, u32>, k: int) -> Seq<(u32, u32)>
    decreases k,
{
    if k <= 0 {
        Seq::empty()
    } else {
        edges_upto(m, rev, k - 1) + row_edges(m, rev, k - 1, m.len() as int)
    }
}

/// The planet ids of the rows set in a matrix row, in order, skipping rows
/// that the reverse lookup does not hold.
pub open spec fn neighbour_ids(row: Seq<bool>, rev: Map<u32, u32>) -> Seq<u32>
    decreases row.len(),
{
    if row.len() == 0 {
        Seq::empty()
    } else {
        let prev = neighbour_ids(row.drop_last(), rev);
        let j = row.len() - 1;
        if row.last() && rev.contains_key(j as u32) {
            prev.push(rev[j as u32])
        } else {
            prev
        }
    }
}

/// The planet ids of a planet's neighbours: the set entries of its matrix
/// row, in order, named through the reverse lookup (none where the row is
/// past the matrix).
pub open spec fn neighbour_list(o: &Orchestrator, planet_id: u32) -> Seq<u32> {
    let idx = o.galaxy_lookup@[planet_id].0 as int;
    if idx < o.galaxy_topology@.len() {
        neighbour_ids(o.galaxy_topology@[idx]@, o.galaxy_reverse_lookup@)
    } else {
        Seq::empty()
    }
}

/// Two planets are linked: both are in the lookup table and the matrix entry
/// of their rows is set.
pub open spec fn planets_linked(o: &Orchestrator, a: u32, b: u32) -> bool {
    &&& o.galaxy_lookup@.contains_key(a)
    &&& o.galaxy_lookup@.contains_key(b)
    &&& {
        let ai = o.galaxy_lookup@[a].0 as int;
        let bi = o.galaxy_lookup@[b].0 as int;
        ai < o.galaxy_topology@.len() && bi < o.galaxy_topology@[ai]@.len() && o.galaxy_topology@[ai]@[bi]
    }
}

impl Orchestrator {
    /// The matrix is square and the registries are in order.
    pub open spec fn wf(&self) -> bool {
        &&& square(matrix_view(self.galaxy_topology@))
        &&& self.planets_info.wf()
        &&& self.explorers_info.wf()
    }

    /// An empty galaxy topology.
    pub fn new_gtop() -> (t: Vec<Vec<bool>>)
        ensures
            t@.len() == 0,
    {
        Vec::new()
    }

    /// An orchestrator with no planet, no explorer and an empty galaxy.
    pub fn new() -> (o: Orchestrator)
        ensures
            o.wf(),
            o.galaxy_topology@.len() == 0,
            o.galaxy_lookup@.dom() == Set::<u32>::empty(),
            o.galaxy_reverse_lookup@.dom() == Set::<u32>::empty(),
            o.planets_info.view().dom() == Set::<u32>::empty(),
            o.explorers_info.view().dom() == Set::<u32>::empty(),
            o.gui_messages@.len() == 0,
    {
        let o = Orchestrator {
            galaxy_topology: Orchestrator::new_gtop(),
            galaxy_lookup: FxHashMap::default(),
            galaxy_reverse_lookup: HashMap::new(),
            planets_info: PlanetInfoMap::new(),
            explorers_info: ExplorerInfoMap::new(),
            gui_messages: Vec::new(),
        };
        proof {
            assert(o.planets_info.view().dom() =~= Set::<u32>::empty());
            assert(o.explorers_info.view().dom() =~= Set::<u32>::empty());
            assert(o.galaxy_reverse_lookup@.dom() =~= Set::<u32>::empty());
            assert(matrix_view(o.galaxy_topology@) =~= Seq::<Seq<bool>>::empty());
        }
        o
    }

    /// Forgets the galaxy topology and every planet and explorer, once they
    /// have all been killed.
    pub fn reset(&mut self)
        requires
            old(self).wf(),
        ensures
            final(self).wf(),
            final(self).galaxy_topology@.len() == 0,
            final(self).planets_info.view().dom() == Set::<u32>::empty(),
            final(self).explorers_info.view().dom() == Set::<u32>::empty(),
            final(self).galaxy_lookup@ == old(self).galaxy_lookup@,
            final(self).galaxy_reverse_lookup@ == old(self).galaxy_reverse_lookup@,
            final(self).gui_messages@ == old(self).gui_messages@,
    {
        self.galaxy_topology = Orchestrator::new_gtop();
        self.planets_info = PlanetInfoMap::new();
        self.explorers_info = ExplorerInfoMap::new();
        proof {
            assert(self.planets_info.view().dom() =~= Set::<u32>::empty());
            assert(self.explorers_info.view().dom() =~= Set::<u32>::empty());
            assert(matrix_view(self.galaxy_topology@) =~= Seq::<Seq<bool>>::empty());
        }
    }

    /// Sets the galaxy topology to the symmetric matrix of an adjacency list
    /// whose neighbours are rows of it; the lookup tables are left as they
    /// are.
    pub fn initialize_galaxy_by_adj_list(&mut self, adj_list: Vec<Vec<u32>>)
        requires
            old(self).wf(),
            fits(list_view(adj_list@)),
        ensures
            final(self).wf(),
            is_matrix_of(matrix_view(final(self).galaxy_topology@), list_view(adj_list@)),
            final(self).galaxy_lookup@ == old(self).galaxy_lookup@,
            final(self).galaxy_reverse_lookup@ == old(self).galaxy_reverse_lookup@,
            final(self).planets_info == old(self).planets_info,
            final(self).explorers_info == old(self).explorers_info,
            final(self).gui_messages@ == old(self).gui_messages@,
    {
        let m = build_topology(&adj_list);
        self.galaxy_topology = m;
    }

    /// Whether a topology file's neighbours all name rows of its matrix, as
    /// `initialize_galaxy_by_content` needs; a file that cannot be read
    /// passes.
    pub fn galaxy_content_fits(content: &str) -> (b: bool)
        ensures
            b == file_fits(content@),
    {
        match parse_galaxy_content(content) {
            Err(_) => true,
            Ok(rows) => {
                proof {
                    lemma_parsed_rows_well_formed(content@);
                }
                let lookup = build_lookup(&rows);
                let adj = translate_neighbours(&rows, &lookup);
                adjacency_fits(&adj)
            },
        }
    }

    /// Reads a topology file's text and sets up the galaxy from it: the lookup
    /// table (id to line and type, a random type where the type id names
    /// none), the reverse lookup (line to id) and the symmetric matrix of the
    /// rows' neighbours. A file that cannot be read leaves everything as it
    /// was.
    pub fn initialize_galaxy_by_content(&mut self, content: &str) -> (r: Result<(), ParseError>)
        requires
            old(self).wf(),
            file_fits(content@),
        ensures
            final(self).wf(),
            final(self).planets_info == old(self).planets_info,
            final(self).explorers_info == old(self).explorers_info,
            final(self).gui_messages@ == old(self).gui_messages@,
            match r {
                Ok(()) => parse_galaxy(content@) matches Ok(rows) && {
                    &&& lookup_matches_rows(final(self).galaxy_lookup@, rows)
                    &&& final(self).galaxy_reverse_lookup@ == reverse_map(rows)
                    &&& is_matrix_of(matrix_view(final(self).galaxy_topology@), adjacency_list(rows))
                },
                Err(e) => {
                    &&& parse_galaxy(content@) == Err::<Seq<(nat, Seq<u32>)>, _>(e@)
                    &&& final(self).galaxy_topology@ == old(self).galaxy_topology@
                    &&& final(self).galaxy_lookup@ == old(self).galaxy_lookup@
                    &&& final(self).galaxy_reverse_lookup@ == old(self).galaxy_reverse_lookup@
                },
            },
    {
        let rows = match parse_galaxy_content(content) {
            Ok(rows) => rows,
            Err(e) => {
                return Err(e);
            },
        };
        proof {
            lemma_parsed_rows_well_formed(content@);
        }
        let lookup = build_lookup(&rows);
        let adj = translate_neighbours(&rows, &lookup);
        let reverse = build_reverse_lookup(&rows);
        let m = build_topology(&adj);
        self.galaxy_lookup = lookup;
        self.galaxy_reverse_lookup = reverse;
        self.galaxy_topology = m;
        Ok(())
    }

    /// Removes every link of a dead planet from the matrix: its row and its
    /// column are cleared. The argument is the planet's position in the
    /// matrix (its lookup entry gives it from its id); a position past the end
    /// is an error and leaves the matrix as it was.
    pub fn destroy_topology_link(&mut self, dead_planet_pos: usize) -> (r: Result<(), OrchError>)
        requires
            old(self).wf(),
        ensures
            final(self).wf(),
            final(self).galaxy_lookup@ == old(self).galaxy_lookup@,
            final(self).galaxy_reverse_lookup@ == old(self).galaxy_reverse_lookup@,
            final(self).planets_info == old(self).planets_info,
            final(self).explorers_info == old(self).explorers_info,
            final(self).gui_messages@ == old(self).gui_messages@,
            ({
                let m = matrix_view(old(self).galaxy_topology@);
                &&& r is Ok <==> dead_planet_pos < m.len()
                &&& r is Ok ==> matrix_view(final(self).galaxy_topology@) == cleared(m, dead_planet_pos as int)
                &&& r is Err ==> r == Err::<(), OrchError>(OrchError::IndexOutOfBounds)
                    && final(self).galaxy_topology@ == old(self).galaxy_topology@
            }),
    {
        let pos = dead_planet_pos;
        let n = self.galaxy_topology.len();
        if pos >= n {
            return Err(OrchError::IndexOutOfBounds);
        }
        let ghost m0 = matrix_view(self.galaxy_topology@);
        proof {
            assert forall|r: int| 0 <= r < n implies #[trigger] self.galaxy_topology@[r]@.len() == n by {
                assert(m0[r] == self.galaxy_topology@[r]@);
            }
            assert forall|r: int, c: int| 0 <= r < n && 0 <= c < n implies #[trigger] self.galaxy_topology@[r]@[c]
                == m0[r][c] by {
                assert(m0[r] == self.galaxy_topology@[r]@);
            }
        }
        let mut i: usize = 0;
        while i < n
            invariant
                0 <= i <= n,
                pos < n,
                n == self.galaxy_topology@.len(),
                self.galaxy_lookup@ == old(self).galaxy_lookup@,
                self.galaxy_reverse_lookup@ == old(self).galaxy_reverse_lookup@,
                self.planets_info == old(self).planets_info,
                self.explorers_info == old(self).explorers_info,
                self.gui_messages@ == old(self).gui_messages@,
                self.planets_info.wf(),
                self.explorers_info.wf(),
                m0.len() == n,
                square(m0),
                forall|r: int| 0 <= r < n ==> #[trigger] self.galaxy_topology@[r]@.len() == n,
                forall|r: int, c: int|
                    0 <= r < n && 0 <= c < n ==> #[trigger] self.galaxy_topology@[r]@[c] == (if (r == pos
                        && c < i) || (c == pos && r < i) {
                        false
                    } else {
                        m0[r][c]
                    }),
            decreases n - i,
        {
            let ghost before = self.galaxy_topology@;
            self.galaxy_topology[pos][i] = false;
            let ghost mid = self.galaxy_topology@;
            self.galaxy_topology[i][pos] = false;
            proof {
                assert forall|r: int| 0 <= r < n implies #[trigger] self.galaxy_topology@[r]@.len() == n by {
                    if r != i && r != pos {
                        assert(self.galaxy_topology@[r] == before[r]);
                    }
                }
                assert forall|r: int, c: int| 0 <= r < n && 0 <= c < n implies #[trigger] self.galaxy_topology@[r]@[c]
                    == (if (r == pos && c < i + 1) || (c == pos && r < i + 1) {
                    false
                } else {
                    m0[r][c]
                }) by {
                    if r != i && r != pos {
                        assert(self.galaxy_topology@[r] == before[r]);
                    } else if r == i && r != pos {
                        assert(mid[r] == before[r]);
                    } else if r == pos && r != i {
                        assert(self.galaxy_topology@[r] == mid[r]);
                    }
                }
            }
            i = i + 1;
        }
        proof {
            let m1 = matrix_view(self.galaxy_topology@);
            assert(m1 =~= cleared(m0, pos as int)) by {
                assert forall|r: int| 0 <= r < n implies #[trigger] m1[r] =~= cleared(m0, pos as int)[r] by {
                    assert(m1[r] == self.galaxy_topology@[r]@);
                    assert(m0[r].len() == n);
                }
            }
            assert forall|r: int| 0 <= r < m1.len() implies #[trigger] m1[r].len() == m1.len() by {
                assert(m1[r] == self.galaxy_topology@[r]@);
            }
        }
        Ok(())
    }

    /// A copy of the adjacency matrix.
    pub fn get_galaxy_topology(&self) -> (t: Vec<Vec<bool>>)
        ensures
            matrix_view(t@) == matrix_view(self.galaxy_topology@),
    {
        let mut out: Vec<Vec<bool>> = Vec::new();
        let mut i: usize = 0;
        while i < self.galaxy_topology.len()
            invariant
                0 <= i <= self.galaxy_topology@.len(),
                out@.len() == i,
                matrix_view(out@) == matrix_view(self.galaxy_topology@).take(i as int),
            decreases self.galaxy_topology@.len() - i,
        {
            let row = &self.galaxy_topology[i];
            let mut copy: Vec<bool> = Vec::new();
            let mut j: usize = 0;
            while j < row.len()
                invariant
                    0 <= j <= row@.len(),
                    copy@ == row@.take(j as int),
                decreases row@.len() - j,
            {
                copy.push(row[j]);
                proof {
                    assert(copy@ =~= row@.take(j + 1));
                }
                j = j + 1;
            }
            proof {
                assert(copy@ =~= row@);
            }
            let ghost before = out@;
            let ghost cv = copy@;
            out.push(copy);
            proof {
                assert(out@.drop_last() == before);
                assert(out@[i as int]@ == cv);
                assert(matrix_view(self.galaxy_topology@)[i as int] == row@);
                assert(matrix_view(out@) =~= matrix_view(self.galaxy_topology@).take(i + 1));
            }
            i = i + 1;
        }
        proof {
            assert(matrix_view(self.galaxy_topology@).take(self.galaxy_topology@.len() as int) =~= matrix_view(
                self.galaxy_topology@,
            ));
        }
        out
    }

    /// The links of the galaxy, each once as `(a, b)` for rows `a < b`, row by
    /// row, written with planet ids (a row the reverse lookup does not hold is
    /// written as its number), and the number of rows.
    pub fn get_topology(&self) -> (r: (Vec<(u32, u32)>, usize))
        requires
            self.wf(),
        ensures
            r.0@ == edges_upto(
                matrix_view(self.galaxy_topology@),
                self.galaxy_reverse_lookup@,
                self.galaxy_topology@.len() as int,
            ),
            r.1 == self.galaxy_topology@.len(),
    {
        let ghost m = matrix_view(self.galaxy_topology@);
        let ghost rev = self.galaxy_reverse_lookup@;
        let n = self.galaxy_topology.len();
        let mut edges: Vec<(u32, u32)> = Vec::new();
        let mut i: usize = 0;
        while i < n
            invariant
                0 <= i <= n,
                n == self.galaxy_topology@.len(),
                m == matrix_view(self.galaxy_topology@),
                rev == self.galaxy_reverse_lookup@,
                square(m),
                edges@ == edges_upto(m, rev, i as int),
            decreases n - i,
        {
            let row = &self.galaxy_topology[i];
            assert(m[i as int] == row@);
            assert(row@.len() == n);
            let ghost base = edges@;
            let name_i = self.name_of_row(i);
            let mut j: usize = i + 1;
            proof {
                assert(row_edges(m, rev, i as int, j as int) =~= Seq::<(u32, u32)>::empty());
                assert(edges@ =~= base + row_edges(m, rev, i as int, j as int));
            }
            while j < n
                invariant
                    i < n,
                    i + 1 <= j <= n,
                    n == self.galaxy_topology@.len(),
                    m == matrix_view(self.galaxy_topology@),
                    rev == self.galaxy_reverse_lookup@,
                    m[i as int] == row@,
                    row@.len() == n,
                    name_i == name_of(rev, i as int),
                    edges@ == base + row_edges(m, rev, i as int, j as int),
                decreases n - j,
            {
                if row[j] {
                    let name_j = self.name_of_row(j);
                    edges.push((name_i, name_j));
                    proof {
                        assert(edges@ =~= base + row_edges(m, rev, i as int, j + 1));
                    }
                } else {
                    proof {
                        assert(edges@ =~= base + row_edges(m, rev, i as int, j + 1));
                    }
                }
                j = j + 1;
            }
            proof {
                assert(edges_upto(m, rev, i + 1) == edges_upto(m, rev, i as int) + row_edges(m, rev, i as int, n as int));
            }
            i = i + 1;
        }
        (edges, n)
    }

    /// The planet id of a matrix row, or the row's number where the reverse
    /// lookup does not hold it.
    fn name_of_row(&self, i: usize) -> (id: u32)
        ensures
            id == name_of(self.galaxy_reverse_lookup@, i as int),
    {
        match self.galaxy_reverse_lookup.get(&(i as u32)) {
            Some(v) => *v,
            None => i as u32,
        }
    }

    /// The matrix row of a planet: its lookup entry, or the id itself where
    /// the lookup table does not hold it.
    pub fn planet_position(&self, planet_id: u32) -> (pos: usize)
        ensures
            pos == position_of(self.galaxy_lookup@, planet_id as usize),
    {
        match lookup_get(&self.galaxy_lookup, planet_id) {
            Some(entry) => entry.0 as usize,
            None => planet_id as usize,
        }
    }

    /// The planet ids of the planet's neighbours: the set entries of its
    /// matrix row, in order, each named through the reverse lookup (a row
    /// that it does not hold is skipped; a row past the matrix has none).
    /// A planet that the lookup table does not hold is an error.
    pub fn neighbours_of(&self, planet_id: u32) -> (r: Result<Vec<u32>, OrchError>)
        ensures
            !self.galaxy_lookup@.contains_key(planet_id) ==> r == Err::<Vec<u32>, OrchError>(
                OrchError::PlanetNotInLookup(planet_id),
            ),
            self.galaxy_lookup@.contains_key(planet_id) ==> r is Ok && r->Ok_0@ == neighbour_list(self, planet_id),
    {
        let idx = match lookup_get(&self.galaxy_lookup, planet_id) {
            Some(entry) => entry.0 as usize,
            None => {
                return Err(OrchError::PlanetNotInLookup(planet_id));
            },
        };
        let mut out: Vec<u32> = Vec::new();
        if idx < self.galaxy_topology.len() {
            let row = &self.galaxy_topology[idx];
            let ghost rev = self.galaxy_reverse_lookup@;
            let mut j: usize = 0;
            proof {
                assert(row@.take(0) =~= Seq::<bool>::empty());
            }
            while j < row.len()
                invariant
                    0 <= j <= row@.len(),
                    rev == self.galaxy_reverse_lookup@,
                    out@ == neighbour_ids(row@.take(j as int), rev),
                decreases row@.len() - j,
            {
                proof {
                    assert(row@.take(j + 1).drop_last() =~= row@.take(j as int));
                }
                if row[j] {
                    match self.galaxy_reverse_lookup.get(&(j as u32)) {
                        Some(v) => {
                            out.push(*v);
                        },
                        None => {},
                    }
                }
                j = j + 1;
            }
            proof {
                assert(row@.take(row@.len() as int) =~= row@);
            }
        }
        Ok(out)
    }

    /// Whether two planets are neighbours: both are in the lookup table and
    /// the matrix entry of their rows is set (a row past the matrix has no
    /// neighbour).
    pub fn are_neighbours(&self, current_planet_id: u32, dst_planet_id: u32) -> (b: bool)
        ensures
            b == planets_linked(self, current_planet_id, dst_planet_id),
    {
        let ci = match lookup_get(&self.galaxy_lookup, current_planet_id) {
            Some(entry) => entry.0 as usize,
            None => {
                return false;
            },
        };
        let di = match lookup_get(&self.galaxy_lookup, dst_planet_id) {
            Some(entry) => entry.0 as usize,
            None => {
                return false;
            },
        };
        if ci < self.galaxy_topology.len() && di < self.galaxy_topology[ci].len() {
            self.galaxy_topology[ci][di]
        } else {
            false
        }
    }
}

proof fn lemma_parsed_rows_well_formed(s: Seq<char>)
    ensures
        parse_galaxy(s) matches Ok(rows) ==> rows_well_formed(rows),
{
    lemma_parsed_rows_have_id_and_type(split(s, '\n'));
}

/// The reverse lookup of the planet rows: each row's line (as `u32`) maps to
/// the planet id it names.
pub fn build_reverse_lookup(rows: &Vec<GalaxyRow>) -> (m: HashMap<u32, u32>)
    requires
        rows_well_formed(rows_view(rows@)),
    ensures
        m@ == reverse_map(rows_view(rows@)),
{
    let ghost rv = rows_view(rows@);
    let mut m: HashMap<u32, u32> = HashMap::new();
    let mut i: usize = 0;
    proof {
        assert(rv.take(0) =~= Seq::<(nat, Seq<u32>)>::empty());
        assert(m@ =~= reverse_map(rv.take(0)));
    }
    while i < rows.len()
        invariant
            0 <= i <= rows@.len(),
            rv == rows_view(rows@),
            rows_well_formed(rv),
            m@ == reverse_map(rv.take(i as int)),
        decreases rows@.len() - i,
    {
        let row = &rows[i];
        assert(rv[i as int] == row@);
        assert(row@.1.len() >= 2);
        proof {
            assert(rv.take(i + 1).drop_last() =~= rv.take(i as int));
        }
        m.insert(row.line as u32, row.values[0]);
        i = i + 1;
    }
    proof {
        assert(rv.take(rows@.len() as int) =~= rv);
    }
    m
}

} // verus!
