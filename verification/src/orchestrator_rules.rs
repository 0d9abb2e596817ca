//! How the orchestrator answers the messages of planets and explorers: each
//! message updates the orchestrator's state and yields the messages to send,
//! in order, and the outcome to report.
use vstd::prelude::*;
use crate::orchestrator::{
    OrchError, Orchestrator, OrchestratorEvent, cleared, neighbour_ids, position_of,
};
use crate::registry::{
    ExplorerInfo, PlanetInfo, RegistryError, Status, explorers_on, status_of,
};
use crate::resources::{BasicSet, ComplexSet, ResourceKind};
use crate::topology::matrix_view;

verus! {

/// A planet's message to the orchestrator, as plain values.
#[derive(Debug)]
pub enum PlanetEvent {
    SunrayAck { planet_id: u32 },
    AsteroidAck { planet_id: u32, has_rocket: bool },
    StartPlanetAIResult { planet_id: u32 },
    StopPlanetAIResult { planet_id: u32 },
    KillPlanetResult { planet_id: u32 },
    InternalStateResponse {
        planet_id: u32,
        energy_cells: Vec<bool>,
        charged_cells_count: usize,
        has_rocket: bool,
    },
    IncomingExplorerResponse { planet_id: u32, explorer_id: u32, accepted: bool },
    OutgoingExplorerResponse { planet_id: u32, explorer_id: u32, accepted: bool },
    Stopped { planet_id: u32 },
}

/// An explorer's message to the orchestrator, as plain values.
#[derive(Debug)]
pub enum ExplorerEvent {
    StartExplorerAIResult { explorer_id: u32 },
    KillExplorerResult { explorer_id: u32 },
    ResetExplorerAIResult { explorer_id: u32 },
    StopExplorerAIResult { explorer_id: u32 },
    MovedToPlanetResult { explorer_id: u32, planet_id: u32 },
    CurrentPlanetResult { explorer_id: u32, planet_id: u32 },
    SupportedResourceResult { explorer_id: u32, supported_resources: BasicSet },
    SupportedCombinationResult { explorer_id: u32, combination_list: ComplexSet },
    GenerateResourceResponse { explorer_id: u32, generated: Result<(), String> },
    CombineResourceResponse { explorer_id: u32, generated: Result<(), String> },
    BagContentResponse { explorer_id: u32, bag_content: Vec<ResourceKind> },
    NeighborsRequest { explorer_id: u32, current_planet_id: u32 },
    TravelToPlanetRequest { explorer_id: u32, current_planet_id: u32, dst_planet_id: u32 },
}

impl ExplorerEvent {
    pub open spec fn spec_explorer_id(&self) -> u32 {
        match self {
            ExplorerEvent::StartExplorerAIResult { explorer_id } => *explorer_id,
            ExplorerEvent::KillExplorerResult { explorer_id } => *explorer_id,
            ExplorerEvent::ResetExplorerAIResult { explorer_id } => *explorer_id,
            ExplorerEvent::StopExplorerAIResult { explorer_id } => *explorer_id,
            ExplorerEvent::MovedToPlanetResult { explorer_id, .. } => *explorer_id,
            ExplorerEvent::CurrentPlanetResult { explorer_id, .. } => *explorer_id,
            ExplorerEvent::SupportedResourceResult { explorer_id, .. } => *explorer_id,
            ExplorerEvent::SupportedCombinationResult { explorer_id, .. } => *explorer_id,
            ExplorerEvent::GenerateResourceResponse { explorer_id, .. } => *explorer_id,
            ExplorerEvent::CombineResourceResponse { explorer_id, .. } => *explorer_id,
            ExplorerEvent::BagContentResponse { explorer_id, .. } => *explorer_id,
            ExplorerEvent::NeighborsRequest { explorer_id, .. } => *explorer_id,
            ExplorerEvent::TravelToPlanetRequest { explorer_id, .. } => *explorer_id,
        }
    }

    /// The explorer that sent the message.
    #[verifier::when_used_as_spec(spec_explorer_id)]
    pub fn explorer_id(&self) -> (id: u32)
        ensures
            id == self.spec_explorer_id(),
    {
        match self {
            ExplorerEvent::StartExplorerAIResult { explorer_id } => *explorer_id,
            ExplorerEvent::KillExplorerResult { explorer_id } => *explorer_id,
            ExplorerEvent::ResetExplorerAIResult { explorer_id } => *explorer_id,
            ExplorerEvent::StopExplorerAIResult { explorer_id } => *explorer_id,
            ExplorerEvent::MovedToPlanetResult { explorer_id, .. } => *explorer_id,
            ExplorerEvent::CurrentPlanetResult { explorer_id, .. } => *explorer_id,
            ExplorerEvent::SupportedResourceResult { explorer_id, .. } => *explorer_id,
            ExplorerEvent::SupportedCombinationResult { explorer_id, .. } => *explorer_id,
            ExplorerEvent::GenerateResourceResponse { explorer_id, .. } => *explorer_id,
            ExplorerEvent::CombineResourceResponse { explorer_id, .. } => *explorer_id,
            ExplorerEvent::BagContentResponse { explorer_id, .. } => *explorer_id,
            ExplorerEvent::NeighborsRequest { explorer_id, .. } => *explorer_id,
            ExplorerEvent::TravelToPlanetRequest { explorer_id, .. } => *explorer_id,
        }
    }
}

/// Which failures of a message's delivery are reported.
#[derive(Clone, Copy, Debug, PartialEq, Eq, Structural)]
pub enum Delivery {
    /// A missing channel and a failed send are both errors.
    Checked,
    /// A missing channel is an error; a failed send is ignored.
    ChannelChecked,
    /// Nothing is reported: without a channel nothing is sent.
    BestEffort,
}

/// A message the orchestrator sends.
#[derive(Debug)]
pub enum OrchAction {
    /// `KillPlanet` to the planet; a failure to send is reported. Once it is
    /// sent, `record_planet_kill` applies the planet's death.
    KillPlanet { planet_id: u32 },
    /// `KillExplorer` to the explorer; a failure to send is ignored.
    KillExplorer { explorer_id: u32 },
    /// `MoveToPlanet` with no sender, which refuses a move; `delivery` says
    /// which failures are reported.
    RefuseMove { explorer_id: u32, planet_id: u32, delivery: Delivery },
    /// `MoveToPlanet` with the planet's sender for explorers, if the planet has
    /// channels.
    MoveExplorer { explorer_id: u32, planet_id: u32 },
    /// `OutgoingExplorerRequest` to the planet the explorer leaves.
    OutgoingExplorer { planet_id: u32, explorer_id: u32 },
    /// `IncomingExplorerRequest` to the planet the explorer goes to.
    IncomingExplorer { planet_id: u32, explorer_id: u32 },
    /// `BagContentRequest` to the explorer.
    AskBagContent { explorer_id: u32 },
    /// `NeighborsResponse` with these planet ids to the explorer.
    SendNeighbours { explorer_id: u32, neighbors: Vec<u32> },
    /// `CurrentPlanetRequest` to the explorer.
    AskCurrentPlanet { explorer_id: u32 },
}

/// What the GUI is shown when an explorer reports its arrival on a planet:
/// nothing where it is travelling to another planet, else its arrival.
pub open spec fn arrival_event(ex: Map<u32, ExplorerInfo>, explorer_id: u32, planet_id: u32) -> Seq<OrchestratorEvent> {
    let mv = if ex.contains_key(explorer_id) {
        ex[explorer_id].move_to_planet_id
    } else {
        -1i32
    };
    if mv >= 0 && mv as u32 != planet_id {
        Seq::empty()
    } else {
        seq![OrchestratorEvent::ExplorerMoved { explorer_id, destination: planet_id }]
    }
}

/// The topology and the lookup tables are as they were.
pub open spec fn same_galaxy(pre: &Orchestrator, post: &Orchestrator) -> bool {
    &&& post.galaxy_topology@ == pre.galaxy_topology@
    &&& post.galaxy_lookup@ == pre.galaxy_lookup@
    &&& post.galaxy_reverse_lookup@ == pre.galaxy_reverse_lookup@
}

/// Nothing changed.
pub open spec fn unchanged(pre: &Orchestrator, post: &Orchestrator) -> bool {
    &&& same_galaxy(pre, post)
    &&& post.planets_info.view() == pre.planets_info.view()
    &&& post.explorers_info.view() == pre.explorers_info.view()
    &&& post.gui_messages@ == pre.gui_messages@
}

/// The actions are one `KillExplorer` for each alive explorer on the planet.
pub open spec fn kills_explorers_on(actions: Seq<OrchAction>, explorers: Map<u32, ExplorerInfo>, planet_id: u32) -> bool {
    &&& forall|k: int| 0 <= k < actions.len() ==> #[trigger] actions[k] is KillExplorer
    &&& actions.map_values(|a: OrchAction| a->KillExplorer_explorer_id).no_duplicates()
    &&& actions.map_values(|a: OrchAction| a->KillExplorer_explorer_id).to_set() == explorers_on(explorers, planet_id)
}

/// The planet record with another status.
pub open spec fn with_status(p: PlanetInfo, status: Status) -> PlanetInfo {
    PlanetInfo { status, ..p }
}

/// A planet has died: its links are destroyed (an error where its matrix row
/// is past the end, with nothing else changed), its status becomes `Dead`
/// (an error where it is unknown), and the alive explorers on it are killed.
/// `first` is what must be sent before anything else; `event` is shown to the
/// GUI.
pub open spec fn planet_death(
    pre: &Orchestrator,
    post: &Orchestrator,
    planet_id: u32,
    first: Seq<OrchAction>,
    event: Seq<OrchestratorEvent>,
    actions: Seq<OrchAction>,
    outcome: Result<(), OrchError>,
) -> bool {
    let pos = position_of(pre.galaxy_lookup@, planet_id as usize);
    let m = matrix_view(pre.galaxy_topology@);
    &&& post.galaxy_lookup@ == pre.galaxy_lookup@
    &&& post.galaxy_reverse_lookup@ == pre.galaxy_reverse_lookup@
    &&& post.explorers_info.view() == pre.explorers_info.view()
    &&& actions.take(first.len() as int) == first
    &&& if pos >= m.len() {
        &&& outcome == Err::<(), OrchError>(OrchError::IndexOutOfBounds)
        &&& actions == first
        &&& post.galaxy_topology@ == pre.galaxy_topology@
        &&& post.planets_info.view() == pre.planets_info.view()
        &&& post.gui_messages@ == pre.gui_messages@
    } else if !pre.planets_info.view().contains_key(planet_id) {
        &&& outcome == Err::<(), OrchError>(OrchError::UnknownPlanet(planet_id))
        &&& actions == first
        &&& matrix_view(post.galaxy_topology@) == cleared(m, pos)
        &&& post.planets_info.view() == pre.planets_info.view()
        &&& post.gui_messages@ == pre.gui_messages@
    } else {
        &&& outcome is Ok
        &&& matrix_view(post.galaxy_topology@) == cleared(m, pos)
        &&& post.planets_info.view() == pre.planets_info.view().insert(
            planet_id,
            with_status(pre.planets_info.view()[planet_id], Status::Dead),
        )
        &&& post.gui_messages@ == pre.gui_messages@ + event
        &&& kills_explorers_on(actions.skip(first.len() as int), pre.explorers_info.view(), planet_id)
    }
}

/// The AI of a planet that is not dead has started or stopped: its status
/// becomes the given one; an unknown planet is an error.
pub open spec fn planet_status_change(
    pre: &Orchestrator,
    post: &Orchestrator,
    planet_id: u32,
    status: Status,
    actions: Seq<OrchAction>,
    outcome: Result<(), OrchError>,
) -> bool {
    &&& actions.len() == 0
    &&& same_galaxy(pre, post)
    &&& post.explorers_info.view() == pre.explorers_info.view()
    &&& post.gui_messages@ == pre.gui_messages@
    &&& if status_of(pre.planets_info.view(), planet_id) == Some(Status::Dead) {
        &&& outcome is Ok
        &&& post.planets_info.view() == pre.planets_info.view()
    } else if !pre.planets_info.view().contains_key(planet_id) {
        &&& outcome == Err::<(), OrchError>(OrchError::UnknownPlanet(planet_id))
        &&& post.planets_info.view() == pre.planets_info.view()
    } else {
        &&& outcome is Ok
        &&& post.planets_info.view() == pre.planets_info.view().insert(
            planet_id,
            with_status(pre.planets_info.view()[planet_id], status),
        )
    }
}

/// The answer to a planet that let an explorer in: nothing changes; a move
/// to a planet that is not running is refused; an explorer whose own planet
/// is dead is left alone; otherwise the planet it leaves is asked to let it
/// go, or, when it stays where it is, the move is refused.
pub open spec fn incoming_response(
    pre: &Orchestrator,
    post: &Orchestrator,
    explorer_id: u32,
    accepted: bool,
    actions: Seq<OrchAction>,
    outcome: Result<(), OrchError>,
) -> bool {
    let ex = pre.explorers_info.view();
    let pl = pre.planets_info.view();
    &&& unchanged(pre, post)
    &&& if !accepted || (ex.contains_key(explorer_id) && ex[explorer_id].status == Status::Dead) {
        actions.len() == 0 && outcome is Ok
    } else if !ex.contains_key(explorer_id) {
        actions.len() == 0 && outcome == Err::<(), OrchError>(OrchError::UnknownExplorer(explorer_id))
    } else {
        let cur = ex[explorer_id].current_planet_id;
        let mv = ex[explorer_id].move_to_planet_id;
        if mv >= 0 && status_of(pl, mv as u32) != Some(Status::Running) {
            &&& outcome is Ok
            &&& actions.len() == 1
            &&& actions[0] matches OrchAction::RefuseMove { explorer_id: e, planet_id: p, delivery: d }
                && e == explorer_id && p == mv as u32 && d == Delivery::Checked
        } else if status_of(pl, cur) == Some(Status::Dead) {
            actions.len() == 0 && outcome is Ok
        } else if !pl.contains_key(cur) {
            actions.len() == 0 && outcome == Err::<(), OrchError>(OrchError::UnknownPlanet(cur))
        } else if mv >= 0 && mv as u32 != cur {
            &&& outcome is Ok
            &&& actions.len() == 1
            &&& actions[0] matches OrchAction::OutgoingExplorer { planet_id: p, explorer_id: e } && p == cur
                && e == explorer_id
        } else if mv as u32 == cur {
            &&& outcome is Ok
            &&& actions.len() == 1
            &&& actions[0] matches OrchAction::RefuseMove { explorer_id: e, planet_id: p, delivery: d }
                && e == explorer_id && p == cur && d == Delivery::Checked
        } else {
            actions.len() == 0 && outcome is Ok
        }
    }
}

/// Answering a planet that let an explorer go, where the explorer or the
/// planet it left is dead, reaches for the explorer's destination, which
/// must then be a planet the orchestrator knows.
pub open spec fn outgoing_response_admissible(o: &Orchestrator, planet_id: u32, explorer_id: u32, accepted: bool) -> bool {
    let ex = o.explorers_info.view();
    let pl = o.planets_info.view();
    accepted && ex.contains_key(explorer_id) && (ex[explorer_id].status == Status::Dead || status_of(pl, planet_id)
        == Some(Status::Dead)) ==> pl.contains_key(ex[explorer_id].move_to_planet_id as u32)
}

/// The answer to a planet that let an explorer go: where the explorer or the
/// planet it left is dead, the destination is asked to let it go; where the
/// destination is dead, the explorer goes back to the planet it left; else
/// the explorer is moved to its destination.
pub open spec fn outgoing_response(
    pre: &Orchestrator,
    post: &Orchestrator,
    planet_id: u32,
    explorer_id: u32,
    accepted: bool,
    actions: Seq<OrchAction>,
    outcome: Result<(), OrchError>,
) -> bool {
    let ex = pre.explorers_info.view();
    let pl = pre.planets_info.view();
    &&& same_galaxy(pre, post)
    &&& post.planets_info.view() == pl
    &&& post.gui_messages@ == pre.gui_messages@
    &&& if !accepted {
        actions.len() == 0 && outcome is Ok && post.explorers_info.view() == ex
    } else if !ex.contains_key(explorer_id) {
        &&& actions.len() == 0
        &&& outcome == Err::<(), OrchError>(OrchError::UnknownExplorer(explorer_id))
        &&& post.explorers_info.view() == ex
    } else {
        let dst = ex[explorer_id].move_to_planet_id;
        if ex[explorer_id].status == Status::Dead || status_of(pl, planet_id) == Some(Status::Dead) {
            &&& outcome is Ok
            &&& post.explorers_info.view() == ex
            &&& actions.len() == 1
            &&& actions[0] matches OrchAction::OutgoingExplorer { planet_id: p, explorer_id: e } && p == dst as u32
                && e == explorer_id
        } else if status_of(pl, dst as u32) == Some(Status::Dead) {
            &&& post.explorers_info.view() == ex.insert(
                explorer_id,
                ExplorerInfo { move_to_planet_id: planet_id as i32, ..ex[explorer_id] },
            )
            &&& if !pl.contains_key(planet_id) {
                actions.len() == 0 && outcome == Err::<(), OrchError>(OrchError::UnknownPlanet(planet_id))
            } else {
                &&& outcome is Ok
                &&& actions.len() == 1
                &&& actions[0] matches OrchAction::IncomingExplorer { planet_id: p, explorer_id: e } && p
                    == planet_id && e == explorer_id
            }
        } else {
            &&& outcome is Ok
            &&& post.explorers_info.view() == ex
            &&& actions.len() == 1
            &&& actions[0] matches OrchAction::MoveExplorer { explorer_id: e, planet_id: p } && e == explorer_id
                && p == dst as u32
        }
    }
}

/// What the orchestrator does with each planet message.
pub open spec fn planet_step(
    pre: &Orchestrator,
    post: &Orchestrator,
    msg: PlanetEvent,
    actions: Seq<OrchAction>,
    outcome: Result<(), OrchError>,
) -> bool {
    match msg {
        PlanetEvent::SunrayAck { planet_id } => {
            &&& actions.len() == 0
            &&& outcome is Ok
            &&& same_galaxy(pre, post)
            &&& post.planets_info.view() == pre.planets_info.view()
            &&& post.explorers_info.view() == pre.explorers_info.view()
            &&& post.gui_messages@ == pre.gui_messages@.push(OrchestratorEvent::SunrayReceived { planet_id })
        },
        PlanetEvent::AsteroidAck { planet_id, has_rocket } => {
            if has_rocket || status_of(pre.planets_info.view(), planet_id) == Some(Status::Dead) {
                actions.len() == 0 && outcome is Ok && unchanged(pre, post)
            } else if !pre.planets_info.view().contains_key(planet_id) {
                &&& actions.len() == 0
                &&& outcome == Err::<(), OrchError>(OrchError::UnknownPlanet(planet_id))
                &&& unchanged(pre, post)
            } else {
                &&& actions == seq![OrchAction::KillPlanet { planet_id }]
                &&& outcome is Ok
                &&& unchanged(pre, post)
            }
        },
        PlanetEvent::KillPlanetResult { planet_id } => {
            if status_of(pre.planets_info.view(), planet_id) == Some(Status::Dead) {
                actions.len() == 0 && outcome is Ok && unchanged(pre, post)
            } else {
                planet_death(
                    pre,
                    post,
                    planet_id,
                    Seq::empty(),
                    seq![OrchestratorEvent::PlanetDestroyed { planet_id }],
                    actions,
                    outcome,
                )
            }
        },
        PlanetEvent::StartPlanetAIResult { planet_id } => planet_status_change(
            pre,
            post,
            planet_id,
            Status::Running,
            actions,
            outcome,
        ),
        PlanetEvent::StopPlanetAIResult { planet_id } => planet_status_change(
            pre,
            post,
            planet_id,
            Status::Paused,
            actions,
            outcome,
        ),
        PlanetEvent::InternalStateResponse { planet_id, energy_cells, charged_cells_count, has_rocket } => {
            &&& actions.len() == 0
            &&& outcome is Ok
            &&& same_galaxy(pre, post)
            &&& post.explorers_info.view() == pre.explorers_info.view()
            &&& post.gui_messages@ == pre.gui_messages@
            &&& if pre.planets_info.view().contains_key(planet_id) {
                post.planets_info.view() == pre.planets_info.view().insert(
                    planet_id,
                    PlanetInfo {
                        energy_cells,
                        charged_cells_count,
                        has_rocket,
                        ..pre.planets_info.view()[planet_id]
                    },
                )
            } else {
                post.planets_info.view() == pre.planets_info.view()
            }
        },
        PlanetEvent::IncomingExplorerResponse { planet_id, explorer_id, accepted } => incoming_response(
            pre,
            post,
            explorer_id,
            accepted,
            actions,
            outcome,
        ),
        PlanetEvent::OutgoingExplorerResponse { planet_id, explorer_id, accepted } => outgoing_response(
            pre,
            post,
            planet_id,
            explorer_id,
            accepted,
            actions,
            outcome,
        ),
        PlanetEvent::Stopped { planet_id } => actions.len() == 0 && outcome is Ok && unchanged(pre, post),
    }
}

/// The planet message does not make the orchestrator look up a planet it has
/// no record of.
pub open spec fn planet_event_admissible(o: &Orchestrator, msg: PlanetEvent) -> bool {
    match msg {
        PlanetEvent::OutgoingExplorerResponse { planet_id, explorer_id, accepted } => outgoing_response_admissible(
            o,
            planet_id,
            explorer_id,
            accepted,
        ),
        _ => true,
    }
}

impl Orchestrator {
    /// Whether answering the planet message needs no record that is missing;
    /// the one case where it would: a planet letting go of an explorer that
    /// is dead, or whose planet is dead, towards a destination the
    /// orchestrator has no record of.
    pub fn planet_event_is_admissible(&self, msg: &PlanetEvent) -> (b: bool)
        ensures
            b == planet_event_admissible(self, *msg),
    {
        match msg {
            PlanetEvent::OutgoingExplorerResponse { planet_id, explorer_id, accepted } => {
                if !*accepted {
                    return true;
                }
                match self.explorers_info.get(explorer_id) {
                    None => true,
                    Some(info) => {
                        if info.status == Status::Dead || self.planets_info.is_dead(planet_id) {
                            self.planets_info.contains(&(info.move_to_planet_id as u32))
                        } else {
                            true
                        }
                    },
                }
            },
            _ => true,
        }
    }

    /// Records the death of a planet and yields what follows from it; see
    /// `planet_death`.
    fn kill_planet(
        &mut self,
        planet_id: u32,
        first: Vec<OrchAction>,
        event: Vec<OrchestratorEvent>,
    ) -> (r: (Vec<OrchAction>, Result<(), OrchError>))
        requires
            old(self).wf(),
        ensures
            final(self).wf(),
            planet_death(old(self), final(self), planet_id, first@, event@, r.0@, r.1),
    {
        let mut actions = first;
        let ghost first_v = actions@;
        let pos = self.planet_position(planet_id);
        if let Err(e) = self.destroy_topology_link(pos) {
            proof {
                assert(actions@.take(first_v.len() as int) =~= first_v);
            }
            return (actions, Err(e));
        }
        if let Err(RegistryError::UnknownPlanet(p)) = self.planets_info.update_status(planet_id, Status::Dead) {
            proof {
                assert(actions@.take(first_v.len() as int) =~= first_v);
            }
            return (actions, Err(OrchError::UnknownPlanet(p)));
        }
        let mut k: usize = 0;
        let ghost g0 = self.gui_messages@;
        let ghost t0 = self.galaxy_topology@;
        let ghost l0 = self.galaxy_lookup@;
        let ghost r0 = self.galaxy_reverse_lookup@;
        let ghost p0 = self.planets_info.view();
        let ghost e0 = self.explorers_info.view();
        while k < event.len()
            invariant
                0 <= k <= event@.len(),
                self.gui_messages@ == g0 + event@.take(k as int),
                self.wf(),
                self.galaxy_topology@ == t0,
                self.galaxy_lookup@ == l0,
                self.galaxy_reverse_lookup@ == r0,
                self.planets_info.view() == p0,
                self.explorers_info.view() == e0,
            decreases event@.len() - k,
        {
            self.gui_messages.push(event[k]);
            proof {
                assert(g0 + event@.take(k + 1) =~= (g0 + event@.take(k as int)).push(event@[k as int]));
            }
            k = k + 1;
        }
        proof {
            assert(event@.take(event@.len() as int) =~= event@);
        }
        let victims = self.explorers_info.explorers_on_planet(planet_id);
        let mut j: usize = 0;
        let ghost base = actions@;
        proof {
            assert(actions@.skip(base.len() as int) =~= Seq::<OrchAction>::empty());
        }
        while j < victims.len()
            invariant
                0 <= j <= victims@.len(),
                actions@.len() == base.len() + j,
                actions@.take(base.len() as int) == base,
                forall|q: int| 0 <= q < j ==> #[trigger] actions@[base.len() + q] == (OrchAction::KillExplorer {
                    explorer_id: victims@[q],
                }),
            decreases victims@.len() - j,
        {
            let ghost prev = actions@;
            actions.push(OrchAction::KillExplorer { explorer_id: victims[j] });
            proof {
                assert forall|q: int| 0 <= q < j + 1 implies #[trigger] actions@[base.len() + q]
                    == (OrchAction::KillExplorer { explorer_id: victims@[q] }) by {
                    if q < j {
                        assert(actions@[base.len() + q] == prev[base.len() + q]);
                    }
                }
                assert(actions@.take(base.len() as int) =~= base);
            }
            j = j + 1;
        }
        proof {
            let tail = actions@.skip(base.len() as int);
            assert forall|q: int| 0 <= q < tail.len() implies #[trigger] tail[q] == (OrchAction::KillExplorer {
                explorer_id: victims@[q],
            }) by {
                assert(tail[q] == actions@[base.len() + q]);
            }
            assert(tail.map_values(|a: OrchAction| a->KillExplorer_explorer_id) =~= victims@);
            assert(base == first_v);
        }
        (actions, Ok(()))
    }

    /// A planet hit by an asteroid it could not deflect was sent its kill:
    /// its links are destroyed, it is marked dead and the alive explorers on
    /// it are killed; see `planet_death`.
    pub fn record_planet_kill(&mut self, planet_id: u32) -> (r: (Vec<OrchAction>, Result<(), OrchError>))
        requires
            old(self).wf(),
        ensures
            final(self).wf(),
            planet_death(old(self), final(self), planet_id, Seq::empty(), Seq::empty(), r.0@, r.1),
    {
        let no_event: Vec<OrchestratorEvent> = Vec::new();
        proof {
            assert(no_event@ =~= Seq::<OrchestratorEvent>::empty());
        }
        let none: Vec<OrchAction> = Vec::new();
        proof {
            assert(none@ =~= Seq::<OrchAction>::empty());
        }
        self.kill_planet(planet_id, none, no_event)
    }

    /// Applies a status change to a planet that is not dead.
    fn change_planet_status(&mut self, planet_id: u32, status: Status) -> (r: (Vec<OrchAction>, Result<(), OrchError>))
        requires
            old(self).wf(),
        ensures
            final(self).wf(),
            planet_status_change(old(self), final(self), planet_id, status, r.0@, r.1),
    {
        if self.planets_info.is_dead(&planet_id) {
            return (Vec::new(), Ok(()));
        }
        match self.planets_info.update_status(planet_id, status) {
            Ok(()) => (Vec::new(), Ok(())),
            Err(RegistryError::UnknownPlanet(p)) => (Vec::new(), Err(OrchError::UnknownPlanet(p))),
        }
    }

    /// Handles a planet's message: updates what the orchestrator knows and
    /// yields the messages to send, in order, and the outcome to report. See
    /// `planet_step` for each message.
    pub fn handle_planet_message(&mut self, msg: PlanetEvent) -> (r: (Vec<OrchAction>, Result<(), OrchError>))
        requires
            old(self).wf(),
            planet_event_admissible(old(self), msg),
        ensures
            final(self).wf(),
            planet_step(old(self), final(self), msg, r.0@, r.1),
    {
        match msg {
            PlanetEvent::SunrayAck { planet_id } => {
                self.emit_sunray_ack(planet_id);
                (Vec::new(), Ok(()))
            },
            PlanetEvent::AsteroidAck { planet_id, has_rocket } => {
                if has_rocket || self.planets_info.is_dead(&planet_id) {
                    return (Vec::new(), Ok(()));
                }
                if !self.planets_info.contains(&planet_id) {
                    return (Vec::new(), Err(OrchError::UnknownPlanet(planet_id)));
                }
                let mut actions: Vec<OrchAction> = Vec::new();
                actions.push(OrchAction::KillPlanet { planet_id });
                proof {
                    assert(actions@ =~= seq![OrchAction::KillPlanet { planet_id }]);
                }
                (actions, Ok(()))
            },
            PlanetEvent::KillPlanetResult { planet_id } => {
                if self.planets_info.is_dead(&planet_id) {
                    return (Vec::new(), Ok(()));
                }
                let mut event: Vec<OrchestratorEvent> = Vec::new();
                event.push(OrchestratorEvent::PlanetDestroyed { planet_id });
                proof {
                    assert(event@ =~= seq![OrchestratorEvent::PlanetDestroyed { planet_id }]);
                }
                self.kill_planet(planet_id, Vec::new(), event)
            },
            PlanetEvent::StartPlanetAIResult { planet_id } => self.change_planet_status(planet_id, Status::Running),
            PlanetEvent::StopPlanetAIResult { planet_id } => self.change_planet_status(planet_id, Status::Paused),
            PlanetEvent::InternalStateResponse { planet_id, energy_cells, charged_cells_count, has_rocket } => {
                self.planets_info.update_from_planet_state(planet_id, energy_cells, charged_cells_count, has_rocket);
                (Vec::new(), Ok(()))
            },
            PlanetEvent::IncomingExplorerResponse { planet_id, explorer_id, accepted } => {
                self.answer_incoming_response(explorer_id, accepted)
            },
            PlanetEvent::OutgoingExplorerResponse { planet_id, explorer_id, accepted } => {
                self.answer_outgoing_response(planet_id, explorer_id, accepted)
            },
            PlanetEvent::Stopped { planet_id } => (Vec::new(), Ok(())),
        }
    }

    /// See `incoming_response`.
    fn answer_incoming_response(&mut self, explorer_id: u32, accepted: bool) -> (r: (Vec<OrchAction>, Result<(), OrchError>))
        requires
            old(self).wf(),
        ensures
            final(self).wf(),
            incoming_response(old(self), final(self), explorer_id, accepted, r.0@, r.1),
    {
        let mut actions: Vec<OrchAction> = Vec::new();
        if !accepted || self.explorers_info.is_dead(&explorer_id) {
            return (actions, Ok(()));
        }
        let (cur, mv) = match self.explorers_info.get(&explorer_id) {
            Some(info) => (info.current_planet_id, info.move_to_planet_id),
            None => {
                return (actions, Err(OrchError::UnknownExplorer(explorer_id)));
            },
        };
        if mv >= 0 && !self.planets_info.is_running(&(mv as u32)) {
            actions.push(OrchAction::RefuseMove { explorer_id, planet_id: mv as u32, delivery: Delivery::Checked });
            return (actions, Ok(()));
        }
        if self.planets_info.is_dead(&cur) {
            return (actions, Ok(()));
        }
        if !self.planets_info.contains(&cur) {
            return (actions, Err(OrchError::UnknownPlanet(cur)));
        }
        if mv >= 0 && (mv as u32) != cur {
            actions.push(OrchAction::OutgoingExplorer { planet_id: cur, explorer_id });
        } else if #[verifier::truncate] (mv as u32) == cur {
            actions.push(OrchAction::RefuseMove { explorer_id, planet_id: cur, delivery: Delivery::Checked });
        }
        (actions, Ok(()))
    }

    /// See `outgoing_response`.
    fn answer_outgoing_response(&mut self, planet_id: u32, explorer_id: u32, accepted: bool) -> (r: (
        Vec<OrchAction>,
        Result<(), OrchError>,
    ))
        requires
            old(self).wf(),
        ensures
            final(self).wf(),
            outgoing_response(old(self), final(self), planet_id, explorer_id, accepted, r.0@, r.1),
    {
        let mut actions: Vec<OrchAction> = Vec::new();
        if !accepted {
            return (actions, Ok(()));
        }
        let dst = match self.explorers_info.get(&explorer_id) {
            Some(info) => info.move_to_planet_id,
            None => {
                return (actions, Err(OrchError::UnknownExplorer(explorer_id)));
            },
        };
        let explorer_alive = !self.explorers_info.is_dead(&explorer_id);
        let dst_alive = !self.planets_info.is_dead(&(#[verifier::truncate] (dst as u32)));
        let current_alive = !self.planets_info.is_dead(&planet_id);
        if !explorer_alive || !current_alive {
            actions.push(OrchAction::OutgoingExplorer { planet_id: #[verifier::truncate] (dst as u32), explorer_id });
            return (actions, Ok(()));
        }
        if !dst_alive {
            self.explorers_info.set_move_to_planet(explorer_id, #[verifier::truncate] (planet_id as i32));
            if !self.planets_info.contains(&planet_id) {
                return (actions, Err(OrchError::UnknownPlanet(planet_id)));
            }
            actions.push(OrchAction::IncomingExplorer { planet_id, explorer_id });
            return (actions, Ok(()));
        }
        actions.push(OrchAction::MoveExplorer { explorer_id, planet_id: #[verifier::truncate] (dst as u32) });
        (actions, Ok(()))
    }

    /// Shows the GUI that a planet's links are gone with it.
    pub fn emit_planet_death(&mut self, planet_id: u32)
        ensures
            final(self).gui_messages@ == old(self).gui_messages@.push(OrchestratorEvent::PlanetDestroyed { planet_id }),
            same_galaxy(old(self), final(self)),
            final(self).planets_info == old(self).planets_info,
            final(self).explorers_info == old(self).explorers_info,
    {
        self.gui_messages.push(OrchestratorEvent::PlanetDestroyed { planet_id });
    }

    /// Shows the GUI that a planet took a sunray.
    pub fn emit_sunray_ack(&mut self, planet_id: u32)
        ensures
            final(self).gui_messages@ == old(self).gui_messages@.push(OrchestratorEvent::SunrayReceived { planet_id }),
            same_galaxy(old(self), final(self)),
            final(self).planets_info == old(self).planets_info,
            final(self).explorers_info == old(self).explorers_info,
    {
        self.gui_messages.push(OrchestratorEvent::SunrayReceived { planet_id });
    }

    /// Shows the GUI that a sunray was sent to a planet.
    pub fn emit_sunray_send(&mut self, planet_id: u32)
        ensures
            final(self).gui_messages@ == old(self).gui_messages@.push(OrchestratorEvent::SunraySent { planet_id }),
            same_galaxy(old(self), final(self)),
            final(self).planets_info == old(self).planets_info,
            final(self).explorers_info == old(self).explorers_info,
    {
        self.gui_messages.push(OrchestratorEvent::SunraySent { planet_id });
    }

    /// Shows the GUI that an asteroid was sent to a planet.
    pub fn emit_asteroid_send(&mut self, planet_id: u32)
        ensures
            final(self).gui_messages@ == old(self).gui_messages@.push(OrchestratorEvent::AsteroidSent { planet_id }),
            same_galaxy(old(self), final(self)),
            final(self).planets_info == old(self).planets_info,
            final(self).explorers_info == old(self).explorers_info,
    {
        self.gui_messages.push(OrchestratorEvent::AsteroidSent { planet_id });
    }

    /// Shows the GUI that an explorer set off towards a planet.
    pub fn emit_explorer_move_started(&mut self, explorer_id: u32, planet_id: u32)
        ensures
            final(self).gui_messages@ == old(self).gui_messages@.push(
                OrchestratorEvent::ExplorerMoveStarted { explorer_id, destination: planet_id },
            ),
            same_galaxy(old(self), final(self)),
            final(self).planets_info == old(self).planets_info,
            final(self).explorers_info == old(self).explorers_info,
    {
        self.gui_messages.push(OrchestratorEvent::ExplorerMoveStarted { explorer_id, destination: planet_id });
    }

    /// Shows the GUI that an explorer arrived on a planet, unless the explorer
    /// is travelling somewhere else (it was put in manual mode while a move
    /// was under way).
    pub fn emit_explorer_move(&mut self, explorer_id: u32, planet_id: u32)
        ensures
            same_galaxy(old(self), final(self)),
            final(self).planets_info == old(self).planets_info,
            final(self).explorers_info == old(self).explorers_info,
            final(self).gui_messages@ == old(self).gui_messages@ + arrival_event(
                old(self).explorers_info.view(),
                explorer_id,
                planet_id,
            ),
    {
        let move_to_id: i32 = match self.explorers_info.get(&explorer_id) {
            Some(info) => info.move_to_planet_id,
            None => -1,
        };
        if move_to_id >= 0 && (move_to_id as u32) != planet_id {
            proof {
                assert(self.gui_messages@ =~= old(self).gui_messages@ + Seq::<OrchestratorEvent>::empty());
            }
            return;
        }
        self.gui_messages.push(OrchestratorEvent::ExplorerMoved { explorer_id, destination: planet_id });
        proof {
            assert(self.gui_messages@ =~= old(self).gui_messages@ + seq![
                OrchestratorEvent::ExplorerMoved { explorer_id, destination: planet_id },
            ]);
        }
    }
}

} // verus!
