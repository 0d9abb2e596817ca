//! Creating, starting and killing the planets. The planets of a list of ids
//! are created with the types the lookup table gives them. To start, every
//! planet that is not dead is asked to start, and the orchestrator waits for
//! each to answer; after a silence it asks the silent ones once more, and
//! after a second silence it gives up. To reset the game, every planet is
//! asked to die and the orchestrator waits until none is alive.
use vstd::prelude::*;
use crate::galaxy_file::PlanetType;
use crate::lookup_table::lookup_get;
use crate::orchestrator::{OrchError, Orchestrator};
use crate::orchestrator_rules::same_galaxy;
use crate::registry::{PlanetInfo, RegistryError, Status, alive_ids};

verus! {

/// What the orchestrator heard while waiting for the planets to start.
#[derive(Clone, Copy, Debug, PartialEq, Eq, Structural)]
pub enum StartupEvent {
    /// A planet answered that its AI started.
    Started { planet_id: u32 },
    /// Another message of a planet, which is ignored.
    Other,
    /// Nothing came within the waiting time.
    TimedOut,
}

/// What the orchestrator does next.
#[derive(Debug, PartialEq, Eq)]
pub enum StartupStep {
    /// Every planet started.
    Finished,
    /// Some planets have not answered yet: wait again.
    Waiting,
    /// Ask these planets to start once more (a failure to ask is ignored),
    /// then wait again.
    Retry { planets: Vec<u32> },
    /// These planets never answered: starting failed.
    GaveUp { planets: Vec<u32> },
}

/// The planets that have not answered yet, and whether they were asked a
/// second time.
pub struct PlanetStartup {
    pending: Vec<u32>,
    retried: bool,
}

impl PlanetStartup {
    /// The planets that have not answered yet.
    pub closed spec fn waiting_for(&self) -> Set<u32> {
        self.pending@.to_set()
    }

    /// Whether the silent planets were asked a second time.
    pub closed spec fn was_retried(&self) -> bool {
        self.retried
    }

    /// Each planet is waited for once.
    pub closed spec fn wf(&self) -> bool {
        self.pending@.no_duplicates()
    }

    /// Whether every planet answered.
    pub fn is_done(&self) -> (b: bool)
        requires
            self.wf(),
        ensures
            b == self.waiting_for().is_empty(),
    {
        proof {
            if self.pending@.len() > 0 {
                assert(self.pending@.to_set().contains(self.pending@[0]));
            } else {
                assert(self.pending@.to_set() =~= Set::<u32>::empty());
            }
        }
        self.pending.len() == 0
    }

    /// The planets that have not answered yet, in a list.
    fn pending_list(&self) -> (v: Vec<u32>)
        ensures
            v@ == self.pending@,
    {
        let mut v: Vec<u32> = Vec::new();
        let mut i: usize = 0;
        while i < self.pending.len()
            invariant
                0 <= i <= self.pending@.len(),
                v@ == self.pending@.take(i as int),
            decreases self.pending@.len() - i,
        {
            v.push(self.pending[i]);
            proof {
                assert(v@ =~= self.pending@.take(i + 1));
            }
            i = i + 1;
        }
        proof {
            assert(self.pending@.take(self.pending@.len() as int) =~= self.pending@);
        }
        v
    }

    /// Stops waiting for a planet.
    fn forget(&mut self, planet_id: u32)
        requires
            old(self).wf(),
        ensures
            final(self).wf(),
            final(self).waiting_for() == old(self).waiting_for().remove(planet_id),
            final(self).was_retried() == old(self).was_retried(),
    {
        let mut kept: Vec<u32> = Vec::new();
        let mut i: usize = 0;
        while i < self.pending.len()
            invariant
                0 <= i <= self.pending@.len(),
                self.pending@.no_duplicates(),
                kept@.no_duplicates(),
                forall|x: u32| #[trigger] kept@.contains(x) <==> (self.pending@.take(i as int).contains(x) && x != planet_id),
            decreases self.pending@.len() - i,
        {
            let x = self.pending[i];
            proof {
                assert(self.pending@.take(i + 1) =~= self.pending@.take(i as int).push(x));
                assert forall|y: u32| #[trigger] self.pending@.take(i + 1).contains(y) == (self.pending@.take(
                    i as int,
                ).contains(y) || y == x) by {
                    crate::registry::lemma_contains_push(self.pending@.take(i as int), x, y);
                }
            }
            if x != planet_id {
                let ghost before = kept@;
                proof {
                    if before.contains(x) {
                        let q = choose|q: int| 0 <= q < i && self.pending@.take(i as int)[q] == x;
                        assert(self.pending@[q] == self.pending@[i as int]);
                    }
                }
                kept.push(x);
                proof {
                    crate::registry::lemma_push_no_dup(before, x);
                    assert forall|y: u32| #[trigger] kept@.contains(y) == (before.contains(y) || y == x) by {
                        crate::registry::lemma_contains_push(before, x, y);
                    }
                }
            }
            i = i + 1;
        }
        proof {
            assert(self.pending@.take(self.pending@.len() as int) =~= self.pending@);
        }
        self.pending = kept;
        proof {
            assert(self.pending@.to_set() =~= old(self).pending@.to_set().remove(planet_id));
        }
    }
}

/// What an event of the start-up does: a planet that started is `Running`
/// (one the orchestrator has no record of is an error, and nothing changes)
/// and no longer waited for; once none is waited for the start-up is over.
/// A first silence asks the silent planets again; a second one gives up.
pub open spec fn startup_step(
    pre_o: &Orchestrator,
    post_o: &Orchestrator,
    pre: PlanetStartup,
    post: PlanetStartup,
    ev: StartupEvent,
    r: Result<StartupStep, OrchError>,
) -> bool {
    let pl = pre_o.planets_info.view();
    &&& same_galaxy(pre_o, post_o)
    &&& post_o.explorers_info.view() == pre_o.explorers_info.view()
    &&& post_o.gui_messages@ == pre_o.gui_messages@
    &&& post.was_retried() == (pre.was_retried() || ev == StartupEvent::TimedOut)
    &&& match ev {
        StartupEvent::Started { planet_id } => if !pl.contains_key(planet_id) {
            &&& r == Err::<StartupStep, OrchError>(OrchError::UnknownPlanet(planet_id))
            &&& post_o.planets_info.view() == pl
            &&& post.waiting_for() == pre.waiting_for()
        } else {
            &&& post_o.planets_info.view() == pl.insert(planet_id, PlanetInfo { status: Status::Running, ..pl[planet_id] })
            &&& post.waiting_for() == pre.waiting_for().remove(planet_id)
            &&& r == Ok::<StartupStep, OrchError>(
                if post.waiting_for().is_empty() {
                    StartupStep::Finished
                } else {
                    StartupStep::Waiting
                },
            )
        },
        StartupEvent::Other => {
            &&& post_o.planets_info.view() == pl
            &&& post.waiting_for() == pre.waiting_for()
            &&& r == Ok::<StartupStep, OrchError>(
                if pre.waiting_for().is_empty() {
                    StartupStep::Finished
                } else {
                    StartupStep::Waiting
                },
            )
        },
        StartupEvent::TimedOut => {
            &&& post_o.planets_info.view() == pl
            &&& post.waiting_for() == pre.waiting_for()
            &&& r matches Ok(step) && if pre.waiting_for().is_empty() {
                step == StartupStep::Finished
            } else if !pre.was_retried() {
                step matches StartupStep::Retry { planets } && planets@.to_set() == pre.waiting_for()
                    && planets@.no_duplicates()
            } else {
                step matches StartupStep::GaveUp { planets } && planets@.to_set() == pre.waiting_for()
                    && planets@.no_duplicates()
            }
        },
    }
}

impl Orchestrator {
    /// The planets asked to start: every known planet that is not dead, none
    /// of them answered yet.
    pub fn begin_planet_startup(&self) -> (st: PlanetStartup)
        requires
            self.wf(),
        ensures
            st.wf(),
            st.waiting_for() == alive_ids(self.planets_info.view()),
            !st.was_retried(),
    {
        let pending = self.planets_info.get_list_id_alive();
        PlanetStartup { pending, retried: false }
    }

    /// Takes in what was heard while the planets start; see `startup_step`.
    pub fn advance_planet_startup(&mut self, st: &mut PlanetStartup, ev: StartupEvent) -> (r: Result<StartupStep, OrchError>)
        requires
            old(self).wf(),
            old(st).wf(),
        ensures
            final(self).wf(),
            final(st).wf(),
            startup_step(old(self), final(self), *old(st), *final(st), ev, r),
    {
        match ev {
            StartupEvent::Started { planet_id } => {
                match self.planets_info.update_status(planet_id, Status::Running) {
                    Ok(()) => {},
                    Err(RegistryError::UnknownPlanet(p)) => {
                        return Err(OrchError::UnknownPlanet(p));
                    },
                }
                st.forget(planet_id);
                if st.is_done() {
                    Ok(StartupStep::Finished)
                } else {
                    Ok(StartupStep::Waiting)
                }
            },
            StartupEvent::Other => {
                if st.is_done() {
                    Ok(StartupStep::Finished)
                } else {
                    Ok(StartupStep::Waiting)
                }
            },
            StartupEvent::TimedOut => {
                let was_retried = st.retried;
                st.retried = true;
                if st.is_done() {
                    return Ok(StartupStep::Finished);
                }
                let planets = st.pending_list();
                if !was_retried {
                    Ok(StartupStep::Retry { planets })
                } else {
                    Ok(StartupStep::GaveUp { planets })
                }
            },
        }
    }
}

/// The planets to create for a list of ids: each id of the list, with the
/// type the lookup table gives it, up to the first id that the table does
/// not hold.
pub open spec fn creatable_prefix(ids: Seq<u32>, lookup: Map<u32, (u32, PlanetType)>) -> Seq<(u32, PlanetType)>
    decreases ids.len(),
{
    if ids.len() == 0 {
        Seq::empty()
    } else {
        let prev = creatable_prefix(ids.drop_last(), lookup);
        if prev.len() == ids.len() - 1 && lookup.contains_key(ids.last()) {
            prev.push((ids.last(), lookup[ids.last()].1))
        } else {
            prev
        }
    }
}

impl Orchestrator {
    /// The planets to create for a list of ids, with their types; see
    /// `creatable_prefix`. Where an id is missing from the lookup table it
    /// comes back as an error, after the planets before it.
    pub fn planets_to_create(&self, ids_list: &Vec<u32>) -> (r: (Vec<(u32, PlanetType)>, Result<(), OrchError>))
        ensures
            r.0@ == creatable_prefix(ids_list@, self.galaxy_lookup@),
            r.1 is Ok <==> r.0@.len() == ids_list@.len(),
            r.1 is Err ==> r.1 == Err::<(), OrchError>(OrchError::PlanetNotInLookup(ids_list@[r.0@.len() as int])),
    {
        let ghost lk = self.galaxy_lookup@;
        let mut out: Vec<(u32, PlanetType)> = Vec::new();
        let mut i: usize = 0;
        proof {
            assert(ids_list@.take(0) =~= Seq::<u32>::empty());
        }
        while i < ids_list.len()
            invariant
                0 <= i <= ids_list@.len(),
                lk == self.galaxy_lookup@,
                out@ == creatable_prefix(ids_list@.take(i as int), lk),
                out@.len() == i,
            decreases ids_list@.len() - i,
        {
            let id = ids_list[i];
            proof {
                assert(ids_list@.take(i + 1).drop_last() =~= ids_list@.take(i as int));
            }
            match lookup_get(&self.galaxy_lookup, id) {
                Some(entry) => {
                    out.push((id, entry.1));
                },
                None => {
                    proof {
                        lemma_creatable_stops(ids_list@, lk, i as int);
                    }
                    return (out, Err(OrchError::PlanetNotInLookup(id)));
                },
            }
            i = i + 1;
        }
        proof {
            assert(ids_list@.take(ids_list@.len() as int) =~= ids_list@);
        }
        (out, Ok(()))
    }
}

proof fn lemma_creatable_len(ids: Seq<u32>, lookup: Map<u32, (u32, PlanetType)>)
    ensures
        creatable_prefix(ids, lookup).len() <= ids.len(),
    decreases ids.len(),
{
    if ids.len() > 0 {
        lemma_creatable_len(ids.drop_last(), lookup);
    }
}

proof fn lemma_creatable_stays(ids: Seq<u32>, lookup: Map<u32, (u32, PlanetType)>, n: int)
    requires
        0 < n <= ids.len(),
        creatable_prefix(ids.take(n), lookup).len() < n,
    ensures
        creatable_prefix(ids, lookup) == creatable_prefix(ids.take(n), lookup),
    decreases ids.len() - n,
{
    if n == ids.len() {
        assert(ids.take(n) =~= ids);
    } else {
        assert(ids.take(n + 1).drop_last() =~= ids.take(n));
        lemma_creatable_len(ids.take(n), lookup);
        lemma_creatable_stays(ids, lookup, n + 1);
    }
}

proof fn lemma_creatable_stops(ids: Seq<u32>, lookup: Map<u32, (u32, PlanetType)>, i: int)
    requires
        0 <= i < ids.len(),
        creatable_prefix(ids.take(i), lookup).len() == i,
        !lookup.contains_key(ids[i]),
    ensures
        creatable_prefix(ids, lookup) == creatable_prefix(ids.take(i), lookup),
{
    assert(ids.take(i + 1).drop_last() =~= ids.take(i));
    if i + 1 == ids.len() {
        assert(ids.take(i + 1) =~= ids);
    } else {
        lemma_creatable_stays(ids, lookup, i + 1);
    }
}

/// What the orchestrator heard while waiting for the planets to die.
#[derive(Clone, Copy, Debug, PartialEq, Eq, Structural)]
pub enum ShutdownEvent {
    /// A planet answered that it was killed.
    Killed { planet_id: u32 },
    /// Another message of a planet, which is ignored.
    Other,
    /// Nothing came within the waiting time.
    TimedOut,
}

/// Where waiting for the planets to die stands.
#[derive(Clone, Copy, Debug, PartialEq, Eq, Structural)]
pub enum ShutdownStep {
    /// No planet is alive.
    AllDead,
    /// Some planet is still alive: wait again.
    Waiting,
}

/// What an event of the reset does: a planet that was killed is `Dead` (one
/// the orchestrator has no record of is ignored); the reset goes on until no
/// known planet is alive. A silence with a planet still alive is an error.
pub open spec fn shutdown_step(
    pre: &Orchestrator,
    post: &Orchestrator,
    ev: ShutdownEvent,
    r: Result<ShutdownStep, OrchError>,
) -> bool {
    let pl = pre.planets_info.view();
    let pl2 = post.planets_info.view();
    &&& same_galaxy(pre, post)
    &&& post.explorers_info.view() == pre.explorers_info.view()
    &&& post.gui_messages@ == pre.gui_messages@
    &&& match ev {
        ShutdownEvent::Killed { planet_id } => {
            &&& pl2 == if pl.contains_key(planet_id) {
                pl.insert(planet_id, PlanetInfo { status: Status::Dead, ..pl[planet_id] })
            } else {
                pl
            }
            &&& r == Ok::<ShutdownStep, OrchError>(
                if alive_ids(pl2).is_empty() {
                    ShutdownStep::AllDead
                } else {
                    ShutdownStep::Waiting
                },
            )
        },
        ShutdownEvent::Other => pl2 == pl && r == Ok::<ShutdownStep, OrchError>(ShutdownStep::Waiting),
        ShutdownEvent::TimedOut => {
            &&& pl2 == pl
            &&& r == if alive_ids(pl).is_empty() {
                Ok::<ShutdownStep, OrchError>(ShutdownStep::AllDead)
            } else {
                Err::<ShutdownStep, OrchError>(OrchError::PlanetsStillAlive)
            }
        },
    }
}

impl Orchestrator {
    /// Takes in what was heard while the planets die; see `shutdown_step`.
    pub fn advance_shutdown(&mut self, ev: ShutdownEvent) -> (r: Result<ShutdownStep, OrchError>)
        requires
            old(self).wf(),
        ensures
            final(self).wf(),
            shutdown_step(old(self), final(self), ev, r),
    {
        match ev {
            ShutdownEvent::Killed { planet_id } => {
                let _ = self.planets_info.update_status(planet_id, Status::Dead);
                if self.planets_info.count_survivors() == 0 {
                    Ok(ShutdownStep::AllDead)
                } else {
                    Ok(ShutdownStep::Waiting)
                }
            },
            ShutdownEvent::Other => Ok(ShutdownStep::Waiting),
            ShutdownEvent::TimedOut => {
                if self.planets_info.count_survivors() == 0 {
                    Ok(ShutdownStep::AllDead)
                } else {
                    Err(OrchError::PlanetsStillAlive)
                }
            },
        }
    }
}

} // verus!
