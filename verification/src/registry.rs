//! What the orchestrator knows of each planet and each explorer.
use vstd::prelude::*;
use std::collections::HashMap;
use crate::galaxy_file::PlanetType;
use crate::resources::{BasicSet, ComplexSet, ResourceKind};

verus! {

broadcast use vstd::std_specs::hash::group_hash_axioms;

/// Whether a planet's or explorer's AI runs, waits, or is gone for good.
#[derive(Clone, Copy, Debug, PartialEq, Eq, Structural)]
pub enum Status {
    Running,
    Paused,
    Dead,
}

/// What went wrong when updating the registry.
#[derive(Clone, Copy, Debug, PartialEq, Eq, Structural)]
pub enum RegistryError {
    /// No planet with this id is registered.
    UnknownPlanet(u32),
}

/// What the orchestrator knows of one planet.
#[derive(Debug)]
pub struct PlanetInfo {
    pub planet_type: PlanetType,
    pub status: Status,
    /// The planet's energy cells, `true` where charged.
    pub energy_cells: Vec<bool>,
    pub charged_cells_count: usize,
    pub has_rocket: bool,
    pub supported_resources: Option<BasicSet>,
    pub supported_combination: Option<ComplexSet>,
}

/// What the orchestrator knows of one explorer.
#[derive(Debug)]
pub struct ExplorerInfo {
    pub explorer_id: u32,
    pub status: Status,
    pub current_planet_id: u32,
    /// The planet the explorer is travelling to, or -1 when none.
    pub move_to_planet_id: i32,
    pub bag: Vec<ResourceKind>,
}

/// A copy of a list of plain values.
pub fn copy_vec<T: Copy>(v: &Vec<T>) -> (c: Vec<T>)
    ensures
        c@ == v@,
{
    let mut c: Vec<T> = Vec::new();
    let mut i: usize = 0;
    while i < v.len()
        invariant
            0 <= i <= v@.len(),
            c@ == v@.take(i as int),
        decreases v@.len() - i,
    {
        c.push(v[i]);
        proof {
            assert(c@ =~= v@.take(i + 1));
        }
        i = i + 1;
    }
    proof {
        assert(v@.take(v@.len() as int) =~= v@);
    }
    c
}

/// Two planet records hold the same values.
pub open spec fn same_planet_info(a: PlanetInfo, b: PlanetInfo) -> bool {
    &&& a.planet_type == b.planet_type
    &&& a.status == b.status
    &&& a.energy_cells@ == b.energy_cells@
    &&& a.charged_cells_count == b.charged_cells_count
    &&& a.has_rocket == b.has_rocket
    &&& a.supported_resources == b.supported_resources
    &&& a.supported_combination == b.supported_combination
}

/// Two explorer records hold the same values.
pub open spec fn same_explorer_info(a: ExplorerInfo, b: ExplorerInfo) -> bool {
    &&& a.explorer_id == b.explorer_id
    &&& a.status == b.status
    &&& a.current_planet_id == b.current_planet_id
    &&& a.move_to_planet_id == b.move_to_planet_id
    &&& a.bag@ == b.bag@
}

/// Two registries know the same ids, with the same records.
pub open spec fn same_planets(a: Map<u32, PlanetInfo>, b: Map<u32, PlanetInfo>) -> bool {
    &&& a.dom() == b.dom()
    &&& forall|id: u32| #[trigger] a.contains_key(id) ==> same_planet_info(a[id], b[id])
}

/// Two registries know the same ids, with the same records.
pub open spec fn same_explorers(a: Map<u32, ExplorerInfo>, b: Map<u32, ExplorerInfo>) -> bool {
    &&& a.dom() == b.dom()
    &&& forall|id: u32| #[trigger] a.contains_key(id) ==> same_explorer_info(a[id], b[id])
}

impl PlanetInfo {
    /// A record with the same values.
    pub fn copy(&self) -> (c: PlanetInfo)
        ensures
            same_planet_info(c, *self),
    {
        PlanetInfo {
            planet_type: self.planet_type,
            status: self.status,
            energy_cells: copy_vec(&self.energy_cells),
            charged_cells_count: self.charged_cells_count,
            has_rocket: self.has_rocket,
            supported_resources: self.supported_resources,
            supported_combination: self.supported_combination,
        }
    }
}

impl ExplorerInfo {
    /// A record with the same values.
    pub fn copy(&self) -> (c: ExplorerInfo)
        ensures
            same_explorer_info(c, *self),
    {
        ExplorerInfo {
            explorer_id: self.explorer_id,
            status: self.status,
            current_planet_id: self.current_planet_id,
            move_to_planet_id: self.move_to_planet_id,
            bag: copy_vec(&self.bag),
        }
    }

    /// An explorer on a planet, with no travel asked for.
    pub fn from(explorer_id: u32, status: Status, bag: Vec<ResourceKind>, current_planet_id: u32) -> (e: ExplorerInfo)
        ensures
            e.explorer_id == explorer_id,
            e.status == status,
            e.bag@ == bag@,
            e.current_planet_id == current_planet_id,
            e.move_to_planet_id == -1,
    {
        ExplorerInfo { explorer_id, status, current_planet_id, move_to_planet_id: -1, bag }
    }
}

/// The planets the orchestrator knows, by id, and the order they came in.
pub struct PlanetInfoMap {
    planets: HashMap<u32, PlanetInfo>,
    ids: Vec<u32>,
}

/// The status of a planet in the registry's view, if it is known.
pub open spec fn status_of(m: Map<u32, PlanetInfo>, id: u32) -> Option<Status> {
    if m.contains_key(id) {
        Some(m[id].status)
    } else {
        None
    }
}

pub(crate) proof fn lemma_push_no_dup(s: Seq<u32>, x: u32)
    requires
        s.no_duplicates(),
        !s.contains(x),
    ensures
        s.push(x).no_duplicates(),
{
    let t = s.push(x);
    assert forall|i: int, j: int| 0 <= i < t.len() && 0 <= j < t.len() && i != j implies t[i] != t[j] by {
        if i < s.len() && j < s.len() {
            assert(t[i] == s[i] && t[j] == s[j]);
        } else if i < s.len() {
            assert(t[i] == s[i]);
            assert(s.contains(s[i]));
        } else if j < s.len() {
            assert(t[j] == s[j]);
            assert(s.contains(s[j]));
        }
    }
}

pub(crate) proof fn lemma_contains_push(s: Seq<u32>, x: u32, y: u32)
    ensures
        s.push(x).contains(y) == (s.contains(y) || y == x),
{
    if s.contains(y) {
        let q = choose|q: int| 0 <= q < s.len() && s[q] == y;
        assert(s.push(x)[q] == y);
    }
    if y == x {
        assert(s.push(x)[s.len() as int] == y);
    }
    if s.push(x).contains(y) {
        let q = choose|q: int| 0 <= q < s.push(x).len() && s.push(x)[q] == y;
        if q < s.len() {
            assert(s[q] == y);
        }
    }
}

/// The known planets that are not dead.
pub open spec fn alive_ids(m: Map<u32, PlanetInfo>) -> Set<u32> {
    m.dom().filter(|id: u32| m[id].status != Status::Dead)
}

impl PlanetInfoMap {
    pub closed spec fn view(&self) -> Map<u32, PlanetInfo> {
        self.planets@
    }

    /// The order of the ids lists each known planet once.
    pub closed spec fn wf(&self) -> bool {
        &&& self.ids@.no_duplicates()
        &&& self.ids@.to_set() == self.planets@.dom()
    }

    /// A registry with no planet.
    pub fn new() -> (r: PlanetInfoMap)
        ensures
            r.wf(),
            r.view() == Map::<u32, PlanetInfo>::empty(),
    {
        let r = PlanetInfoMap { planets: HashMap::new(), ids: Vec::new() };
        proof {
            assert(r.ids@.to_set() =~= r.planets@.dom());
        }
        r
    }

    /// Registers a planet of the given type and status, with nothing known of
    /// its cells or recipes yet; a planet already there is replaced.
    pub fn insert_status(&mut self, id: u32, planet_type: PlanetType, status: Status)
        requires
            old(self).wf(),
        ensures
            final(self).wf(),
            final(self).view().dom() == old(self).view().dom().insert(id),
            forall|k: u32| k != id && old(self).view().contains_key(k) ==> final(self).view()[k] == old(self).view()[k],
            final(self).view()[id].planet_type == planet_type,
            final(self).view()[id].status == status,
            final(self).view()[id].energy_cells@.len() == 0,
            final(self).view()[id].charged_cells_count == 0,
            !final(self).view()[id].has_rocket,
            final(self).view()[id].supported_resources is None,
            final(self).view()[id].supported_combination is None,
    {
        let info = PlanetInfo {
            planet_type,
            status,
            energy_cells: Vec::new(),
            charged_cells_count: 0,
            has_rocket: false,
            supported_resources: None,
            supported_combination: None,
        };
        if !self.planets.contains_key(&id) {
            let ghost old_ids = self.ids@;
            self.ids.push(id);
            proof {
                assert(!old_ids.contains(id));
                assert forall|y: u32| self.ids@.to_set().contains(y) == old_ids.to_set().insert(id).contains(y) by {
                    lemma_contains_push(old_ids, id, y);
                }
                assert(self.ids@.to_set() =~= old_ids.to_set().insert(id));
                lemma_push_no_dup(old_ids, id);
            }
        }
        self.planets.insert(id, info);
        proof {
            assert(self.ids@.to_set() =~= self.planets@.dom());
        }
    }

    /// The status of the planet, if it is known.
    pub fn get_status(&self, id: &u32) -> (s: Option<Status>)
        ensures
            s == status_of(self.view(), *id),
    {
        match self.planets.get(id) {
            Some(info) => Some(info.status),
            None => None,
        }
    }

    /// Whether the planet is known and dead.
    pub fn is_dead(&self, id: &u32) -> (b: bool)
        ensures
            b == (status_of(self.view(), *id) == Some(Status::Dead)),
    {
        match self.get_status(id) {
            Some(Status::Dead) => true,
            _ => false,
        }
    }

    /// Whether the planet is known and running.
    pub fn is_running(&self, id: &u32) -> (b: bool)
        ensures
            b == (status_of(self.view(), *id) == Some(Status::Running)),
    {
        match self.get_status(id) {
            Some(Status::Running) => true,
            _ => false,
        }
    }

    /// Whether the planet is known and paused.
    pub fn is_paused(&self, id: &u32) -> (b: bool)
        ensures
            b == (status_of(self.view(), *id) == Some(Status::Paused)),
    {
        match self.get_status(id) {
            Some(Status::Paused) => true,
            _ => false,
        }
    }

    /// Whether the planet is known.
    pub fn contains(&self, id: &u32) -> (b: bool)
        ensures
            b == self.view().contains_key(*id),
    {
        self.planets.contains_key(id)
    }

    /// What is known of the planet, if anything.
    pub fn get_info(&self, id: u32) -> (r: Option<&PlanetInfo>)
        ensures
            r == (if self.view().contains_key(id) {
                Some(&self.view()[id])
            } else {
                None::<&PlanetInfo>
            }),
    {
        self.planets.get(&id)
    }

    /// Sets the status of a known planet; an unknown planet is an error and
    /// leaves the registry as it was.
    pub fn update_status(&mut self, id: u32, status: Status) -> (r: Result<(), RegistryError>)
        requires
            old(self).wf(),
        ensures
            final(self).wf(),
            r is Ok <==> old(self).view().contains_key(id),
            r is Err ==> r == Err::<(), RegistryError>(RegistryError::UnknownPlanet(id)) && final(self).view()
                == old(self).view(),
            r is Ok ==> final(self).view() == old(self).view().insert(
                id,
                PlanetInfo { status, ..old(self).view()[id] },
            ),
    {
        match self.planets.remove(&id) {
            Some(info) => {
                let updated = PlanetInfo { status, ..info };
                self.planets.insert(id, updated);
                proof {
                    assert(self.view() =~= old(self).view().insert(
                        id,
                        PlanetInfo { status, ..old(self).view()[id] },
                    ));
                }
                Ok(())
            },
            None => {
                proof {
                    assert(self.view() =~= old(self).view());
                }
                Err(RegistryError::UnknownPlanet(id))
            },
        }
    }

    /// Records the basic resources that a known planet generates.
    pub fn update_supported_resources(&mut self, id: u32, set: BasicSet) -> (r: Result<(), RegistryError>)
        requires
            old(self).wf(),
        ensures
            final(self).wf(),
            r is Ok <==> old(self).view().contains_key(id),
            r is Err ==> r == Err::<(), RegistryError>(RegistryError::UnknownPlanet(id)) && final(self).view()
                == old(self).view(),
            r is Ok ==> final(self).view() == old(self).view().insert(
                id,
                PlanetInfo { supported_resources: Some(set), ..old(self).view()[id] },
            ),
    {
        match self.planets.remove(&id) {
            Some(info) => {
                let updated = PlanetInfo { supported_resources: Some(set), ..info };
                self.planets.insert(id, updated);
                proof {
                    assert(self.view() =~= old(self).view().insert(
                        id,
                        PlanetInfo { supported_resources: Some(set), ..old(self).view()[id] },
                    ));
                }
                Ok(())
            },
            None => {
                proof {
                    assert(self.view() =~= old(self).view());
                }
                Err(RegistryError::UnknownPlanet(id))
            },
        }
    }

    /// Records the complex resources that a known planet combines.
    pub fn update_supported_combination(&mut self, id: u32, set: ComplexSet) -> (r: Result<(), RegistryError>)
        requires
            old(self).wf(),
        ensures
            final(self).wf(),
            r is Ok <==> old(self).view().contains_key(id),
            r is Err ==> r == Err::<(), RegistryError>(RegistryError::UnknownPlanet(id)) && final(self).view()
                == old(self).view(),
            r is Ok ==> final(self).view() == old(self).view().insert(
                id,
                PlanetInfo { supported_combination: Some(set), ..old(self).view()[id] },
            ),
    {
        match self.planets.remove(&id) {
            Some(info) => {
                let updated = PlanetInfo { supported_combination: Some(set), ..info };
                self.planets.insert(id, updated);
                proof {
                    assert(self.view() =~= old(self).view().insert(
                        id,
                        PlanetInfo { supported_combination: Some(set), ..old(self).view()[id] },
                    ));
                }
                Ok(())
            },
            None => {
                proof {
                    assert(self.view() =~= old(self).view());
                }
                Err(RegistryError::UnknownPlanet(id))
            },
        }
    }

    /// Records a known planet's cells and rocket as the planet reported them;
    /// an unknown planet leaves the registry as it was.
    pub fn update_from_planet_state(&mut self, id: u32, energy_cells: Vec<bool>, charged_cells_count: usize, has_rocket: bool)
        requires
            old(self).wf(),
        ensures
            final(self).wf(),
            !old(self).view().contains_key(id) ==> final(self).view() == old(self).view(),
            old(self).view().contains_key(id) ==> final(self).view() == old(self).view().insert(
                id,
                PlanetInfo { energy_cells, charged_cells_count, has_rocket, ..old(self).view()[id] },
            ),
    {
        match self.planets.remove(&id) {
            Some(info) => {
                let updated = PlanetInfo { energy_cells, charged_cells_count, has_rocket, ..info };
                self.planets.insert(id, updated);
                proof {
                    assert(self.view() =~= old(self).view().insert(
                        id,
                        PlanetInfo { energy_cells, charged_cells_count, has_rocket, ..old(self).view()[id] },
                    ));
                }
            },
            None => {
                proof {
                    assert(self.view() =~= old(self).view());
                }
            },
        }
    }

    /// The ids of the known planets that are not dead, each once, in the
    /// order the planets were first registered.
    pub fn get_list_id_alive(&self) -> (ids: Vec<u32>)
        requires
            self.wf(),
        ensures
            ids@.no_duplicates(),
            ids@.to_set() == alive_ids(self.view()),
    {
        let mut out: Vec<u32> = Vec::new();
        let mut k: usize = 0;
        while k < self.ids.len()
            invariant
                0 <= k <= self.ids@.len(),
                self.ids@.no_duplicates(),
                self.ids@.to_set() == self.planets@.dom(),
                out@.no_duplicates(),
                forall|id: u32| #[trigger] out@.contains(id) <==> (self.ids@.take(k as int).contains(id)
                    && self.planets@[id].status != Status::Dead),
            decreases self.ids@.len() - k,
        {
            let id = self.ids[k];
            proof {
                assert(self.ids@.take(k + 1) =~= self.ids@.take(k as int).push(id));
                assert(!self.ids@.take(k as int).contains(id)) by {
                    if self.ids@.take(k as int).contains(id) {
                        let q = choose|q: int| 0 <= q < k && #[trigger] self.ids@.take(k as int)[q] == id;
                        assert(self.ids@[q] == self.ids@[k as int]);
                    }
                }
                assert(self.ids@.contains(id));
                assert(self.ids@.to_set().contains(id));
            }
            let ghost before = out@;
            match self.planets.get(&id) {
                Some(info) => {
                    if info.status != Status::Dead {
                        out.push(id);
                        proof {
                            assert(!before.contains(id));
                            lemma_push_no_dup(before, id);
                        }
                    }
                },
                None => {},
            }
            proof {
                assert forall|y: u32| #[trigger] out@.contains(y) <==> (self.ids@.take(k + 1).contains(y)
                    && self.planets@[y].status != Status::Dead) by {
                    lemma_contains_push(self.ids@.take(k as int), id, y);
                    lemma_contains_push(before, id, y);
                }
            }
            k = k + 1;
        }
        proof {
            assert(self.ids@.take(self.ids@.len() as int) =~= self.ids@);
            assert forall|id: u32| out@.to_set().contains(id) <==> alive_ids(self.view()).contains(id) by {
                if self.planets@.dom().contains(id) {
                    assert(self.ids@.to_set().contains(id));
                }
            }
            assert(out@.to_set() =~= alive_ids(self.view()));
        }
        out
    }

    /// The number of known planets that are not dead.
    pub fn count_survivors(&self) -> (n: usize)
        requires
            self.wf(),
        ensures
            n == alive_ids(self.view()).len(),
            n == 0 <==> alive_ids(self.view()).is_empty(),
    {
        let ids = self.get_list_id_alive();
        proof {
            ids@.unique_seq_to_set();
            if ids@.len() == 0 {
                assert(ids@.to_set() =~= Set::<u32>::empty());
            } else {
                assert(ids@.to_set().contains(ids@[0]));
            }
        }
        ids.len()
    }

    /// A copy of the registry: the same planets, registered in the same
    /// order, with records of the same values.
    pub fn copy(&self) -> (c: PlanetInfoMap)
        requires
            self.wf(),
        ensures
            c.wf(),
            same_planets(c.view(), self.view()),
    {
        let mut planets: HashMap<u32, PlanetInfo> = HashMap::new();
        let mut ids: Vec<u32> = Vec::new();
        let mut k: usize = 0;
        proof {
            assert(ids@ =~= self.ids@.take(0));
            assert(planets@.dom() =~= ids@.to_set());
        }
        while k < self.ids.len()
            invariant
                0 <= k <= self.ids@.len(),
                self.ids@.no_duplicates(),
                self.ids@.to_set() == self.planets@.dom(),
                ids@ == self.ids@.take(k as int),
                planets@.dom() == ids@.to_set(),
                forall|id: u32| #[trigger] planets@.contains_key(id) ==> same_planet_info(planets@[id], self.planets@[id]),
            decreases self.ids@.len() - k,
        {
            let id = self.ids[k];
            proof {
                assert(self.ids@.contains(id));
                assert(self.ids@.to_set().contains(id));
            }
            let ghost before_ids = ids@;
            let ghost before = planets@;
            match self.planets.get(&id) {
                Some(info) => {
                    planets.insert(id, info.copy());
                },
                None => {},
            }
            ids.push(id);
            proof {
                assert(ids@ =~= self.ids@.take(k + 1));
                assert forall|y: u32| ids@.to_set().contains(y) == before_ids.to_set().insert(id).contains(y) by {
                    lemma_contains_push(before_ids, id, y);
                }
                assert(planets@.dom() =~= ids@.to_set());
                assert forall|y: u32| #[trigger] planets@.contains_key(y) implies same_planet_info(planets@[y], self.planets@[y]) by {
                    if y != id {
                        assert(before.contains_key(y));
                    }
                }
            }
            k = k + 1;
        }
        proof {
            assert(ids@ =~= self.ids@);
            assert(planets@.dom() =~= self.planets@.dom());
        }
        PlanetInfoMap { planets, ids }
    }

    /// The number of known planets.
    pub fn len(&self) -> (n: usize)
        ensures
            n == self.view().dom().len(),
    {
        self.planets.len()
    }

    /// Whether no planet is known.
    pub fn is_empty(&self) -> (b: bool)
        ensures
            b == (self.view().dom().len() == 0),
    {
        self.planets.len() == 0
    }
}

/// The explorers the orchestrator knows, by id, and the order they came in.
pub struct ExplorerInfoMap {
    explorers: HashMap<u32, ExplorerInfo>,
    ids: Vec<u32>,
}

/// The alive explorers of the map that stand on the planet.
pub open spec fn explorers_on(m: Map<u32, ExplorerInfo>, planet_id: u32) -> Set<u32> {
    m.dom().filter(|id: u32| m[id].current_planet_id == planet_id && m[id].status != Status::Dead)
}

impl ExplorerInfoMap {
    pub closed spec fn view(&self) -> Map<u32, ExplorerInfo> {
        self.explorers@
    }

    /// The order of the ids lists each known explorer once.
    pub closed spec fn wf(&self) -> bool {
        &&& self.ids@.no_duplicates()
        &&& self.ids@.to_set() == self.explorers@.dom()
    }

    /// A registry with no explorer.
    pub fn new() -> (r: ExplorerInfoMap)
        ensures
            r.wf(),
            r.view() == Map::<u32, ExplorerInfo>::empty(),
    {
        let r = ExplorerInfoMap { explorers: HashMap::new(), ids: Vec::new() };
        proof {
            assert(r.ids@.to_set() =~= r.explorers@.dom());
        }
        r
    }

    /// Registers an explorer; one already there is replaced.
    pub fn insert(&mut self, id: u32, info: ExplorerInfo)
        requires
            old(self).wf(),
        ensures
            final(self).wf(),
            final(self).view() == old(self).view().insert(id, info),
    {
        if !self.explorers.contains_key(&id) {
            let ghost old_ids = self.ids@;
            self.ids.push(id);
            proof {
                assert(!old_ids.contains(id));
                assert forall|y: u32| self.ids@.to_set().contains(y) == old_ids.to_set().insert(id).contains(y) by {
                    lemma_contains_push(old_ids, id, y);
                }
                lemma_push_no_dup(old_ids, id);
            }
        }
        self.explorers.insert(id, info);
        proof {
            assert(self.ids@.to_set() =~= self.explorers@.dom());
        }
    }

    /// Sets the status of a known explorer; an unknown one is left unknown.
    pub fn insert_status(&mut self, id: u32, status: Status)
        requires
            old(self).wf(),
        ensures
            final(self).wf(),
            !old(self).view().contains_key(id) ==> final(self).view() == old(self).view(),
            old(self).view().contains_key(id) ==> final(self).view() == old(self).view().insert(
                id,
                ExplorerInfo { status, ..old(self).view()[id] },
            ),
    {
        match self.explorers.remove(&id) {
            Some(info) => {
                let updated = ExplorerInfo { status, ..info };
                self.explorers.insert(id, updated);
                proof {
                    assert(self.view() =~= old(self).view().insert(id, ExplorerInfo { status, ..old(self).view()[id] }));
                }
            },
            None => {
                proof {
                    assert(self.view() =~= old(self).view());
                }
            },
        }
    }

    /// Sets the planet a known explorer stands on; an unknown one is left
    /// unknown.
    pub fn update_current_planet(&mut self, id: u32, planet_id: u32)
        requires
            old(self).wf(),
        ensures
            final(self).wf(),
            !old(self).view().contains_key(id) ==> final(self).view() == old(self).view(),
            old(self).view().contains_key(id) ==> final(self).view() == old(self).view().insert(
                id,
                ExplorerInfo { current_planet_id: planet_id, ..old(self).view()[id] },
            ),
    {
        match self.explorers.remove(&id) {
            Some(info) => {
                let updated = ExplorerInfo { current_planet_id: planet_id, ..info };
                self.explorers.insert(id, updated);
                proof {
                    assert(self.view() =~= old(self).view().insert(
                        id,
                        ExplorerInfo { current_planet_id: planet_id, ..old(self).view()[id] },
                    ));
                }
            },
            None => {
                proof {
                    assert(self.view() =~= old(self).view());
                }
            },
        }
    }

    /// Sets the planet a known explorer travels to; an unknown one is left
    /// unknown and `false` comes back.
    pub fn set_move_to_planet(&mut self, id: u32, move_to_planet_id: i32) -> (found: bool)
        requires
            old(self).wf(),
        ensures
            final(self).wf(),
            found == old(self).view().contains_key(id),
            !found ==> final(self).view() == old(self).view(),
            found ==> final(self).view() == old(self).view().insert(
                id,
                ExplorerInfo { move_to_planet_id, ..old(self).view()[id] },
            ),
    {
        match self.explorers.remove(&id) {
            Some(info) => {
                let updated = ExplorerInfo { move_to_planet_id, ..info };
                self.explorers.insert(id, updated);
                proof {
                    assert(self.view() =~= old(self).view().insert(
                        id,
                        ExplorerInfo { move_to_planet_id, ..old(self).view()[id] },
                    ));
                }
                true
            },
            None => {
                proof {
                    assert(self.view() =~= old(self).view());
                }
                false
            },
        }
    }

    /// Records the bag content a known explorer reported; an unknown one is
    /// left unknown.
    pub fn update_bag(&mut self, id: u32, bag: Vec<ResourceKind>)
        requires
            old(self).wf(),
        ensures
            final(self).wf(),
            !old(self).view().contains_key(id) ==> final(self).view() == old(self).view(),
            old(self).view().contains_key(id) ==> final(self).view() == old(self).view().insert(
                id,
                ExplorerInfo { bag, ..old(self).view()[id] },
            ),
    {
        match self.explorers.remove(&id) {
            Some(info) => {
                let updated = ExplorerInfo { bag, ..info };
                self.explorers.insert(id, updated);
                proof {
                    assert(self.view() =~= old(self).view().insert(id, ExplorerInfo { bag, ..old(self).view()[id] }));
                }
            },
            None => {
                proof {
                    assert(self.view() =~= old(self).view());
                }
            },
        }
    }

    /// What is known of the explorer, if anything.
    pub fn get(&self, id: &u32) -> (r: Option<&ExplorerInfo>)
        ensures
            r == (if self.view().contains_key(*id) {
                Some(&self.view()[*id])
            } else {
                None::<&ExplorerInfo>
            }),
    {
        self.explorers.get(id)
    }

    /// Whether the explorer is known.
    pub fn contains(&self, id: &u32) -> (b: bool)
        ensures
            b == self.view().contains_key(*id),
    {
        self.explorers.contains_key(id)
    }

    /// The status of the explorer, if it is known.
    pub fn get_status(&self, id: &u32) -> (s: Option<Status>)
        ensures
            s == (if self.view().contains_key(*id) {
                Some(self.view()[*id].status)
            } else {
                None::<Status>
            }),
    {
        match self.explorers.get(id) {
            Some(info) => Some(info.status),
            None => None,
        }
    }

    /// Whether the explorer is known and dead.
    pub fn is_dead(&self, id: &u32) -> (b: bool)
        ensures
            b == (self.view().contains_key(*id) && self.view()[*id].status == Status::Dead),
    {
        match self.explorers.get(id) {
            Some(info) => info.status == Status::Dead,
            None => false,
        }
    }

    /// The planet the explorer stands on, if it is known.
    pub fn get_current_planet(&self, id: &u32) -> (p: Option<u32>)
        ensures
            p == (if self.view().contains_key(*id) {
                Some(self.view()[*id].current_planet_id)
            } else {
                None::<u32>
            }),
    {
        match self.explorers.get(id) {
            Some(info) => Some(info.current_planet_id),
            None => None,
        }
    }

    /// The planet the explorer stands on, if it is known.
    pub fn get_planet(&self, id: &u32) -> (p: Option<u32>)
        ensures
            p == (if self.view().contains_key(*id) {
                Some(self.view()[*id].current_planet_id)
            } else {
                None::<u32>
            }),
    {
        self.get_current_planet(id)
    }

    /// The alive explorers standing on the planet, each once, in the order
    /// the explorers were first registered.
    pub fn explorers_on_planet(&self, planet_id: u32) -> (ids: Vec<u32>)
        requires
            self.wf(),
        ensures
            ids@.no_duplicates(),
            ids@.to_set() == explorers_on(self.view(), planet_id),
    {
        let mut out: Vec<u32> = Vec::new();
        let mut k: usize = 0;
        while k < self.ids.len()
            invariant
                0 <= k <= self.ids@.len(),
                self.ids@.no_duplicates(),
                self.ids@.to_set() == self.explorers@.dom(),
                out@.no_duplicates(),
                forall|id: u32| #[trigger] out@.contains(id) <==> (self.ids@.take(k as int).contains(id)
                    && self.explorers@[id].current_planet_id == planet_id
                    && self.explorers@[id].status != Status::Dead),
            decreases self.ids@.len() - k,
        {
            let id = self.ids[k];
            proof {
                assert(self.ids@.take(k + 1) =~= self.ids@.take(k as int).push(id));
                assert(!self.ids@.take(k as int).contains(id)) by {
                    if self.ids@.take(k as int).contains(id) {
                        let q = choose|q: int| 0 <= q < k && #[trigger] self.ids@.take(k as int)[q] == id;
                        assert(self.ids@[q] == self.ids@[k as int]);
                    }
                }
                assert(self.ids@.contains(id));
                assert(self.ids@.to_set().contains(id));
            }
            let ghost before = out@;
            match self.explorers.get(&id) {
                Some(info) => {
                    if info.current_planet_id == planet_id && info.status != Status::Dead {
                        out.push(id);
                        proof {
                            lemma_push_no_dup(before, id);
                        }
                    }
                },
                None => {},
            }
            proof {
                assert forall|y: u32| #[trigger] out@.contains(y) <==> (self.ids@.take(k + 1).contains(y)
                    && self.explorers@[y].current_planet_id == planet_id
                    && self.explorers@[y].status != Status::Dead) by {
                    lemma_contains_push(self.ids@.take(k as int), id, y);
                    lemma_contains_push(before, id, y);
                }
            }
            k = k + 1;
        }
        proof {
            assert(self.ids@.take(self.ids@.len() as int) =~= self.ids@);
            assert forall|id: u32| out@.to_set().contains(id) <==> explorers_on(self.view(), planet_id).contains(id) by {
                if self.explorers@.dom().contains(id) {
                    assert(self.ids@.to_set().contains(id));
                }
            }
            assert(out@.to_set() =~= explorers_on(self.view(), planet_id));
        }
        out
    }

    /// The known explorers that are not dead, each once, in the order they
    /// were first registered.
    pub fn alive_ids(&self) -> (ids: Vec<u32>)
        requires
            self.wf(),
        ensures
            ids@.no_duplicates(),
            ids@.to_set() == self.view().dom().filter(|id: u32| self.view()[id].status != Status::Dead),
    {
        let mut out: Vec<u32> = Vec::new();
        let mut k: usize = 0;
        while k < self.ids.len()
            invariant
                0 <= k <= self.ids@.len(),
                self.ids@.no_duplicates(),
                self.ids@.to_set() == self.explorers@.dom(),
                out@.no_duplicates(),
                forall|id: u32| #[trigger] out@.contains(id) <==> (self.ids@.take(k as int).contains(id)
                    && self.explorers@[id].status != Status::Dead),
            decreases self.ids@.len() - k,
        {
            let id = self.ids[k];
            proof {
                assert(self.ids@.take(k + 1) =~= self.ids@.take(k as int).push(id));
                assert(!self.ids@.take(k as int).contains(id)) by {
                    if self.ids@.take(k as int).contains(id) {
                        let q = choose|q: int| 0 <= q < k && #[trigger] self.ids@.take(k as int)[q] == id;
                        assert(self.ids@[q] == self.ids@[k as int]);
                    }
                }
                assert(self.ids@.contains(id));
                assert(self.ids@.to_set().contains(id));
            }
            let ghost before = out@;
            match self.explorers.get(&id) {
                Some(info) => {
                    if info.status != Status::Dead {
                        out.push(id);
                        proof {
                            lemma_push_no_dup(before, id);
                        }
                    }
                },
                None => {},
            }
            proof {
                assert forall|y: u32| #[trigger] out@.contains(y) <==> (self.ids@.take(k + 1).contains(y)
                    && self.explorers@[y].status != Status::Dead) by {
                    lemma_contains_push(self.ids@.take(k as int), id, y);
                    lemma_contains_push(before, id, y);
                }
            }
            k = k + 1;
        }
        proof {
            assert(self.ids@.take(self.ids@.len() as int) =~= self.ids@);
            assert forall|id: u32| out@.to_set().contains(id) <==> self.view().dom().filter(
                |id: u32| self.view()[id].status != Status::Dead).contains(id) by {
                if self.explorers@.dom().contains(id) {
                    assert(self.ids@.to_set().contains(id));
                }
            }
            assert(out@.to_set() =~= self.view().dom().filter(|id: u32| self.view()[id].status != Status::Dead));
        }
        out
    }

    /// A copy of the registry: the same explorers, registered in the same
    /// order, with records of the same values.
    pub fn copy(&self) -> (c: ExplorerInfoMap)
        requires
            self.wf(),
        ensures
            c.wf(),
            same_explorers(c.view(), self.view()),
    {
        let mut explorers: HashMap<u32, ExplorerInfo> = HashMap::new();
        let mut ids: Vec<u32> = Vec::new();
        let mut k: usize = 0;
        proof {
            assert(ids@ =~= self.ids@.take(0));
            assert(explorers@.dom() =~= ids@.to_set());
        }
        while k < self.ids.len()
            invariant
                0 <= k <= self.ids@.len(),
                self.ids@.no_duplicates(),
                self.ids@.to_set() == self.explorers@.dom(),
                ids@ == self.ids@.take(k as int),
                explorers@.dom() == ids@.to_set(),
                forall|id: u32| #[trigger] explorers@.contains_key(id) ==> same_explorer_info(explorers@[id], self.explorers@[id]),
            decreases self.ids@.len() - k,
        {
            let id = self.ids[k];
            proof {
                assert(self.ids@.contains(id));
                assert(self.ids@.to_set().contains(id));
            }
            let ghost before_ids = ids@;
            let ghost before = explorers@;
            match self.explorers.get(&id) {
                Some(info) => {
                    explorers.insert(id, info.copy());
                },
                None => {},
            }
            ids.push(id);
            proof {
                assert(ids@ =~= self.ids@.take(k + 1));
                assert forall|y: u32| ids@.to_set().contains(y) == before_ids.to_set().insert(id).contains(y) by {
                    lemma_contains_push(before_ids, id, y);
                }
                assert(explorers@.dom() =~= ids@.to_set());
                assert forall|y: u32| #[trigger] explorers@.contains_key(y) implies same_explorer_info(explorers@[y], self.explorers@[y]) by {
                    if y != id {
                        assert(before.contains_key(y));
                    }
                }
            }
            k = k + 1;
        }
        proof {
            assert(ids@ =~= self.ids@);
            assert(explorers@.dom() =~= self.explorers@.dom());
        }
        ExplorerInfoMap { explorers, ids }
    }

    /// The number of known explorers.
    pub fn len(&self) -> (n: usize)
        ensures
            n == self.view().dom().len(),
    {
        self.explorers.len()
    }

    /// Whether no explorer is known.
    pub fn is_empty(&self) -> (b: bool)
        ensures
            b == (self.view().dom().len() == 0),
    {
        self.explorers.len() == 0
    }
}

} // verus!
