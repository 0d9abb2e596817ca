//! What the orchestrator does on the user interface's requests: which
//! planets a sunray or an asteroid goes to, how an explorer is moved by
//! hand, and the random events of the game.
use vstd::prelude::*;
use crate::dice::{choose_one, random_u32};
use crate::orchestrator::{OrchError, Orchestrator};
use crate::orchestrator_rules::{OrchAction, same_galaxy};
use crate::registry::{
    ExplorerInfo, ExplorerInfoMap, PlanetInfo, PlanetInfoMap, Status, alive_ids, same_explorers,
    same_planets, status_of,
};
use crate::topology::matrix_view;

verus! {

/// The ids of the list that name a planet the orchestrator knows and that is
/// not dead, in the list's order.
pub open spec fn alive_among(ids: Seq<u32>, pl: Map<u32, PlanetInfo>) -> Seq<u32>
    decreases ids.len(),
{
    if ids.len() == 0 {
        Seq::empty()
    } else {
        let prev = alive_among(ids.drop_last(), pl);
        if alive_ids(pl).contains(ids.last()) {
            prev.push(ids.last())
        } else {
            prev
        }
    }
}

/// The ids of the list up to the first one that does not name a known planet
/// that is not dead.
pub open spec fn alive_prefix(ids: Seq<u32>, pl: Map<u32, PlanetInfo>) -> Seq<u32>
    decreases ids.len(),
{
    if ids.len() == 0 {
        Seq::empty()
    } else {
        let prev = alive_prefix(ids.drop_last(), pl);
        if prev.len() == ids.len() - 1 && alive_ids(pl).contains(ids.last()) {
            prev.push(ids.last())
        } else {
            prev
        }
    }
}

/// What moving an explorer by hand does, once it was told to stop: an
/// unknown explorer is an error; a destination not linked to its planet's
/// matrix row, or dead, changes nothing; else the destination is recorded
/// and the destination planet is asked to let the explorer in.
pub open spec fn gui_move_step(
    pre: &Orchestrator,
    post: &Orchestrator,
    explorer_id: u32,
    dst: u32,
    r: Result<Option<OrchAction>, OrchError>,
) -> bool {
    let ex = pre.explorers_info.view();
    &&& same_galaxy(pre, post)
    &&& post.planets_info.view() == pre.planets_info.view()
    &&& post.gui_messages@ == pre.gui_messages@
    &&& if !ex.contains_key(explorer_id) {
        post.explorers_info.view() == ex && r == Err::<Option<OrchAction>, OrchError>(
            OrchError::UnknownExplorer(explorer_id),
        )
    } else {
        let cur = ex[explorer_id].current_planet_id;
        if !pre.galaxy_topology@[cur as int]@[dst as int] || status_of(pre.planets_info.view(), dst) == Some(
            Status::Dead,
        ) {
            post.explorers_info.view() == ex && r == Ok::<Option<OrchAction>, OrchError>(None)
        } else {
            &&& post.explorers_info.view() == ex.insert(
                explorer_id,
                ExplorerInfo { move_to_planet_id: dst as i32, ..ex[explorer_id] },
            )
            &&& r == Ok::<Option<OrchAction>, OrchError>(
                Some(OrchAction::IncomingExplorer { planet_id: dst, explorer_id }),
            )
        }
    }
}

/// Moving an explorer by hand reads the matrix at its planet's number and
/// the destination's number, which must be rows and columns of it.
pub open spec fn gui_move_in_bounds(o: &Orchestrator, explorer_id: u32, dst: u32) -> bool {
    let ex = o.explorers_info.view();
    ex.contains_key(explorer_id) ==> {
        let cur = ex[explorer_id].current_planet_id as int;
        cur < o.galaxy_topology@.len() && dst < o.galaxy_topology@[cur]@.len()
    }
}

impl Orchestrator {
    /// The planets a sunray or an asteroid sent from the user interface goes
    /// to: the listed ids of known planets that are not dead, in order.
    pub fn celestial_targets(&self, id_list: &Vec<u32>) -> (t: Vec<u32>)
        requires
            self.wf(),
        ensures
            t@ == alive_among(id_list@, self.planets_info.view()),
    {
        let alive = self.planets_info.get_list_id_alive();
        let ghost pl = self.planets_info.view();
        let mut out: Vec<u32> = Vec::new();
        let mut i: usize = 0;
        proof {
            assert(id_list@.take(0) =~= Seq::<u32>::empty());
        }
        while i < id_list.len()
            invariant
                0 <= i <= id_list@.len(),
                pl == self.planets_info.view(),
                alive@.to_set() == alive_ids(pl),
                out@ == alive_among(id_list@.take(i as int), pl),
            decreases id_list@.len() - i,
        {
            let id = id_list[i];
            proof {
                assert(id_list@.take(i + 1).drop_last() =~= id_list@.take(i as int));
            }
            if contains_id(&alive, id) {
                out.push(id);
            }
            i = i + 1;
        }
        proof {
            assert(id_list@.take(id_list@.len() as int) =~= id_list@);
        }
        out
    }

    /// The planets an asteroid sent from the user interface goes to: the
    /// listed ids up to the first that is not a known planet that is not
    /// dead (the request stops there).
    pub fn asteroid_targets(&self, id_list: &Vec<u32>) -> (t: Vec<u32>)
        requires
            self.wf(),
        ensures
            t@ == alive_prefix(id_list@, self.planets_info.view()),
    {
        let alive = self.planets_info.get_list_id_alive();
        let ghost pl = self.planets_info.view();
        let mut out: Vec<u32> = Vec::new();
        let mut i: usize = 0;
        proof {
            assert(id_list@.take(0) =~= Seq::<u32>::empty());
        }
        while i < id_list.len()
            invariant
                0 <= i <= id_list@.len(),
                pl == self.planets_info.view(),
                alive@.to_set() == alive_ids(pl),
                out@ == alive_prefix(id_list@.take(i as int), pl),
                out@.len() == i,
            decreases id_list@.len() - i,
        {
            let id = id_list[i];
            proof {
                assert(id_list@.take(i + 1).drop_last() =~= id_list@.take(i as int));
            }
            if !contains_id(&alive, id) {
                proof {
                    lemma_prefix_stops(id_list@, pl, i as int);
                    assert(id_list@.take(id_list@.len() as int) =~= id_list@);
                }
                return out;
            }
            out.push(id);
            i = i + 1;
        }
        proof {
            assert(id_list@.take(id_list@.len() as int) =~= id_list@);
        }
        out
    }

    /// Moves an explorer by hand, once it was told to stop; see
    /// `gui_move_step`. The action is sent by the caller, which shows the
    /// GUI that the move started only if it could be sent.
    pub fn plan_gui_move(&mut self, explorer_id: u32, destination_planet_id: u32) -> (r: Result<
        Option<OrchAction>,
        OrchError,
    >)
        requires
            old(self).wf(),
            gui_move_in_bounds(old(self), explorer_id, destination_planet_id),
        ensures
            final(self).wf(),
            gui_move_step(old(self), final(self), explorer_id, destination_planet_id, r),
    {
        let cur = match self.explorers_info.get_planet(&explorer_id) {
            Some(p) => p,
            None => {
                return Err(OrchError::UnknownExplorer(explorer_id));
            },
        };
        if !self.galaxy_topology[cur as usize][destination_planet_id as usize] {
            return Ok(None);
        }
        if self.planets_info.is_dead(&destination_planet_id) {
            return Ok(None);
        }
        self.explorers_info.set_move_to_planet(explorer_id, #[verifier::truncate] (destination_planet_id as i32));
        Ok(Some(OrchAction::IncomingExplorer { planet_id: destination_planet_id, explorer_id }))
    }

    /// A random planet among the known ones that are not dead, or none where
    /// there is none.
    pub fn random_alive_planet(&self) -> (r: Option<u32>)
        requires
            self.wf(),
        ensures
            r is None <==> alive_ids(self.planets_info.view()).is_empty(),
            r matches Some(id) ==> alive_ids(self.planets_info.view()).contains(id),
    {
        let alive = self.planets_info.get_list_id_alive();
        proof {
            if alive@.len() == 0 {
                assert(alive@.to_set() =~= Set::<u32>::empty());
            } else {
                assert(alive@.to_set().contains(alive@[0]));
            }
        }
        choose_one(&alive)
    }

    /// A copy of what is known of the planets, for the GUI.
    pub fn get_planets_info(&mut self) -> (info: PlanetInfoMap)
        requires
            old(self).wf(),
        ensures
            *final(self) == *old(self),
            info.wf(),
            same_planets(info.view(), old(self).planets_info.view()),
    {
        self.planets_info.copy()
    }

    /// A copy of what is known of the explorers, for the GUI.
    pub fn get_explorer_states(&self) -> (states: ExplorerInfoMap)
        requires
            self.wf(),
        ensures
            states.wf(),
            same_explorers(states.view(), self.explorers_info.view()),
    {
        self.explorers_info.copy()
    }

    /// How many random events a round of the game has: a random number
    /// below three.
    pub fn random_action_count() -> (n: u32)
        ensures
            n < 3,
    {
        random_u32() % 3
    }
}

/// Whether the list holds the id.
fn contains_id(v: &Vec<u32>, id: u32) -> (b: bool)
    ensures
        b == v@.contains(id),
{
    let mut i: usize = 0;
    while i < v.len()
        invariant
            0 <= i <= v@.len(),
            forall|j: int| 0 <= j < i ==> v@[j] != id,
        decreases v@.len() - i,
    {
        if v[i] == id {
            return true;
        }
        i = i + 1;
    }
    false
}

proof fn lemma_prefix_stops(ids: Seq<u32>, pl: Map<u32, PlanetInfo>, i: int)
    requires
        0 <= i < ids.len(),
        alive_prefix(ids.take(i), pl).len() == i,
        !alive_ids(pl).contains(ids[i]),
    ensures
        alive_prefix(ids, pl) == alive_prefix(ids.take(i), pl),
    decreases ids.len() - i,
{
    assert(ids.take(i + 1).drop_last() =~= ids.take(i));
    if i + 1 == ids.len() {
        assert(ids.take(i + 1) =~= ids);
    } else {
        lemma_prefix_stays(ids, pl, i + 1);
        assert(alive_prefix(ids.take(i + 1), pl) == alive_prefix(ids.take(i), pl));
    }
}

proof fn lemma_prefix_stays(ids: Seq<u32>, pl: Map<u32, PlanetInfo>, n: int)
    requires
        0 < n <= ids.len(),
        alive_prefix(ids.take(n), pl).len() < n,
    ensures
        alive_prefix(ids, pl) == alive_prefix(ids.take(n), pl),
    decreases ids.len() - n,
{
    if n == ids.len() {
        assert(ids.take(n) =~= ids);
    } else {
        assert(ids.take(n + 1).drop_last() =~= ids.take(n));
        lemma_prefix_len(ids.take(n), pl);
        lemma_prefix_stays(ids, pl, n + 1);
    }
}

proof fn lemma_prefix_len(ids: Seq<u32>, pl: Map<u32, PlanetInfo>)
    ensures
        alive_prefix(ids, pl).len() <= ids.len(),
    decreases ids.len(),
{
    if ids.len() > 0 {
        lemma_prefix_len(ids.drop_last(), pl);
    }
}

} // verus!
