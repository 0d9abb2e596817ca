//! How the orchestrator answers the messages of explorers: each message
//! updates what the orchestrator knows and yields the messages to send, in
//! order, and the outcome to report.
use vstd::prelude::*;
use crate::lookup_table::lookup_get;
use crate::orchestrator::{OrchError, Orchestrator, neighbour_list, planets_linked};
use crate::orchestrator_rules::{
    Delivery, ExplorerEvent, OrchAction, arrival_event, same_galaxy, unchanged,
};
use crate::registry::{ExplorerInfo, PlanetInfo, Status, status_of};

verus! {

/// The explorer registry with the explorer's record changed by `f`, where the
/// explorer is known.
pub open spec fn update_known(
    ex: Map<u32, ExplorerInfo>,
    explorer_id: u32,
    f: spec_fn(ExplorerInfo) -> ExplorerInfo,
) -> Map<u32, ExplorerInfo> {
    if ex.contains_key(explorer_id) {
        ex.insert(explorer_id, f(ex[explorer_id]))
    } else {
        ex
    }
}

/// An explorer reported that its AI started, reset or stopped: a known
/// explorer takes the status; an unknown one is asked where it is.
pub open spec fn status_report(
    pre: &Orchestrator,
    post: &Orchestrator,
    explorer_id: u32,
    status: Status,
    actions: Seq<OrchAction>,
    outcome: Result<(), OrchError>,
) -> bool {
    let ex = pre.explorers_info.view();
    &&& outcome is Ok
    &&& same_galaxy(pre, post)
    &&& post.planets_info.view() == pre.planets_info.view()
    &&& post.gui_messages@ == pre.gui_messages@
    &&& if ex.contains_key(explorer_id) {
        &&& actions.len() == 0
        &&& post.explorers_info.view() == ex.insert(explorer_id, ExplorerInfo { status, ..ex[explorer_id] })
    } else {
        &&& post.explorers_info.view() == ex
        &&& actions.len() == 1
        &&& actions[0] matches OrchAction::AskCurrentPlanet { explorer_id: e } && e == explorer_id
    }
}

/// Only the explorer registry changed, by `f` on a known explorer; nothing
/// is sent.
pub open spec fn explorer_record_update(
    pre: &Orchestrator,
    post: &Orchestrator,
    explorer_id: u32,
    f: spec_fn(ExplorerInfo) -> ExplorerInfo,
    actions: Seq<OrchAction>,
    outcome: Result<(), OrchError>,
) -> bool {
    &&& actions.len() == 0
    &&& outcome is Ok
    &&& same_galaxy(pre, post)
    &&& post.planets_info.view() == pre.planets_info.view()
    &&& post.explorers_info.view() == update_known(pre.explorers_info.view(), explorer_id, f)
}

/// An explorer reported what the planet it stands on supports: the record of
/// that planet changes by `f`. An unknown explorer, or a planet the
/// orchestrator has no record of, is an error and changes nothing.
pub open spec fn planet_report(
    pre: &Orchestrator,
    post: &Orchestrator,
    explorer_id: u32,
    f: spec_fn(PlanetInfo) -> PlanetInfo,
    actions: Seq<OrchAction>,
    outcome: Result<(), OrchError>,
) -> bool {
    let ex = pre.explorers_info.view();
    let pl = pre.planets_info.view();
    &&& actions.len() == 0
    &&& same_galaxy(pre, post)
    &&& post.explorers_info.view() == ex
    &&& post.gui_messages@ == pre.gui_messages@
    &&& if !ex.contains_key(explorer_id) {
        &&& outcome == Err::<(), OrchError>(OrchError::UnknownExplorer(explorer_id))
        &&& post.planets_info.view() == pl
    } else {
        let p = ex[explorer_id].current_planet_id;
        if !pl.contains_key(p) {
            &&& outcome == Err::<(), OrchError>(OrchError::UnknownPlanet(p))
            &&& post.planets_info.view() == pl
        } else {
            &&& outcome is Ok
            &&& post.planets_info.view() == pl.insert(p, f(pl[p]))
        }
    }
}

/// An explorer asked to travel: a destination the lookup table does not
/// hold is refused, whether or not the refusal arrives; a destination that
/// is not linked to the explorer's planet, or either planet not running, is
/// refused (a missing channel is an error); else the explorer's destination
/// is recorded and the destination is asked to let it in.
pub open spec fn travel_request(
    pre: &Orchestrator,
    post: &Orchestrator,
    explorer_id: u32,
    current_planet_id: u32,
    dst_planet_id: u32,
    actions: Seq<OrchAction>,
    outcome: Result<(), OrchError>,
) -> bool {
    let ex = pre.explorers_info.view();
    let pl = pre.planets_info.view();
    &&& same_galaxy(pre, post)
    &&& post.planets_info.view() == pl
    &&& post.gui_messages@ == pre.gui_messages@
    &&& if !pre.galaxy_lookup@.contains_key(dst_planet_id) {
        &&& outcome is Ok
        &&& post.explorers_info.view() == ex
        &&& actions.len() == 1
        &&& actions[0] matches OrchAction::RefuseMove { explorer_id: e, planet_id: p, delivery: d } && e
            == explorer_id && p == dst_planet_id && d == Delivery::BestEffort
    } else if !planets_linked(pre, current_planet_id, dst_planet_id) || status_of(pl, dst_planet_id) != Some(
        Status::Running,
    ) || status_of(pl, current_planet_id) != Some(Status::Running) {
        &&& outcome is Ok
        &&& post.explorers_info.view() == ex
        &&& actions.len() == 1
        &&& actions[0] matches OrchAction::RefuseMove { explorer_id: e, planet_id: p, delivery: d } && e
            == explorer_id && p == dst_planet_id && d == Delivery::ChannelChecked
    } else if !ex.contains_key(explorer_id) {
        &&& outcome == Err::<(), OrchError>(OrchError::UnknownExplorer(explorer_id))
        &&& post.explorers_info.view() == ex
        &&& actions.len() == 0
    } else {
        &&& outcome is Ok
        &&& post.explorers_info.view() == ex.insert(
            explorer_id,
            ExplorerInfo { move_to_planet_id: dst_planet_id as i32, ..ex[explorer_id] },
        )
        &&& actions.len() == 1
        &&& actions[0] matches OrchAction::IncomingExplorer { planet_id: p, explorer_id: e } && p == dst_planet_id
            && e == explorer_id
    }
}

/// What the orchestrator does with each explorer message. A message from a
/// dead explorer is ignored, but for the one that reports its death.
pub open spec fn explorer_step(
    pre: &Orchestrator,
    post: &Orchestrator,
    msg: ExplorerEvent,
    actions: Seq<OrchAction>,
    outcome: Result<(), OrchError>,
) -> bool {
    let ex = pre.explorers_info.view();
    let id = msg.explorer_id();
    if msg !is KillExplorerResult && ex.contains_key(id) && ex[id].status == Status::Dead {
        actions.len() == 0 && outcome is Ok && unchanged(pre, post)
    } else {
        match msg {
            ExplorerEvent::StartExplorerAIResult { explorer_id } => status_report(
                pre,
                post,
                explorer_id,
                Status::Running,
                actions,
                outcome,
            ),
            ExplorerEvent::ResetExplorerAIResult { explorer_id } => status_report(
                pre,
                post,
                explorer_id,
                Status::Running,
                actions,
                outcome,
            ),
            ExplorerEvent::StopExplorerAIResult { explorer_id } => status_report(
                pre,
                post,
                explorer_id,
                Status::Paused,
                actions,
                outcome,
            ),
            ExplorerEvent::KillExplorerResult { explorer_id } => {
                &&& explorer_record_update(
                    pre,
                    post,
                    explorer_id,
                    |e: ExplorerInfo| ExplorerInfo { status: Status::Dead, ..e },
                    actions,
                    outcome,
                )
                &&& post.gui_messages@ == pre.gui_messages@
            },
            ExplorerEvent::MovedToPlanetResult { explorer_id, planet_id } => {
                &&& explorer_record_update(
                    pre,
                    post,
                    explorer_id,
                    |e: ExplorerInfo| ExplorerInfo { current_planet_id: planet_id, ..e },
                    actions,
                    outcome,
                )
                &&& post.gui_messages@ == pre.gui_messages@ + arrival_event(ex, explorer_id, planet_id)
            },
            ExplorerEvent::CurrentPlanetResult { explorer_id, planet_id } => {
                &&& explorer_record_update(
                    pre,
                    post,
                    explorer_id,
                    |e: ExplorerInfo| ExplorerInfo { current_planet_id: planet_id, ..e },
                    actions,
                    outcome,
                )
                &&& post.gui_messages@ == pre.gui_messages@
            },
            ExplorerEvent::SupportedResourceResult { explorer_id, supported_resources } => planet_report(
                pre,
                post,
                explorer_id,
                |p: PlanetInfo| PlanetInfo { supported_resources: Some(supported_resources), ..p },
                actions,
                outcome,
            ),
            ExplorerEvent::SupportedCombinationResult { explorer_id, combination_list } => planet_report(
                pre,
                post,
                explorer_id,
                |p: PlanetInfo| PlanetInfo { supported_combination: Some(combination_list), ..p },
                actions,
                outcome,
            ),
            ExplorerEvent::GenerateResourceResponse { explorer_id, generated } => {
                &&& unchanged(pre, post)
                &&& outcome is Ok
                &&& if generated is Ok {
                    &&& actions.len() == 1
                    &&& actions[0] matches OrchAction::AskBagContent { explorer_id: e } && e == explorer_id
                } else {
                    actions.len() == 0
                }
            },
            ExplorerEvent::CombineResourceResponse { explorer_id, generated } => {
                &&& unchanged(pre, post)
                &&& outcome is Ok
                &&& if generated is Ok {
                    &&& actions.len() == 1
                    &&& actions[0] matches OrchAction::AskBagContent { explorer_id: e } && e == explorer_id
                } else {
                    actions.len() == 0
                }
            },
            ExplorerEvent::BagContentResponse { explorer_id, bag_content } => {
                &&& explorer_record_update(
                    pre,
                    post,
                    explorer_id,
                    |e: ExplorerInfo| ExplorerInfo { bag: bag_content, ..e },
                    actions,
                    outcome,
                )
                &&& post.gui_messages@ == pre.gui_messages@
            },
            ExplorerEvent::NeighborsRequest { explorer_id, current_planet_id } => {
                &&& unchanged(pre, post)
                &&& if !pre.galaxy_lookup@.contains_key(current_planet_id) {
                    &&& outcome == Err::<(), OrchError>(OrchError::PlanetNotInLookup(current_planet_id))
                    &&& actions.len() == 0
                } else {
                    &&& outcome is Ok
                    &&& actions.len() == 1
                    &&& actions[0] matches OrchAction::SendNeighbours { explorer_id: e, neighbors: n } && e
                        == explorer_id && n@ == neighbour_list(pre, current_planet_id)
                }
            },
            ExplorerEvent::TravelToPlanetRequest { explorer_id, current_planet_id, dst_planet_id } => travel_request(
                pre,
                post,
                explorer_id,
                current_planet_id,
                dst_planet_id,
                actions,
                outcome,
            ),
        }
    }
}

impl Orchestrator {
    /// Handles an explorer's message: updates what the orchestrator knows and
    /// yields the messages to send, in order, and the outcome to report. See
    /// `explorer_step` for each message.
    pub fn handle_explorer_message(&mut self, msg: ExplorerEvent) -> (r: (Vec<OrchAction>, Result<(), OrchError>))
        requires
            old(self).wf(),
        ensures
            final(self).wf(),
            explorer_step(old(self), final(self), msg, r.0@, r.1),
    {
        let id = msg.explorer_id();
        let reports_death = match &msg {
            ExplorerEvent::KillExplorerResult { .. } => true,
            _ => false,
        };
        if !reports_death && self.explorers_info.is_dead(&id) {
            return (Vec::new(), Ok(()));
        }
        match msg {
            ExplorerEvent::StartExplorerAIResult { explorer_id } => self.record_explorer_status(
                explorer_id,
                Status::Running,
            ),
            ExplorerEvent::ResetExplorerAIResult { explorer_id } => self.record_explorer_status(
                explorer_id,
                Status::Running,
            ),
            ExplorerEvent::StopExplorerAIResult { explorer_id } => self.record_explorer_status(
                explorer_id,
                Status::Paused,
            ),
            ExplorerEvent::KillExplorerResult { explorer_id } => {
                self.explorers_info.insert_status(explorer_id, Status::Dead);
                proof {
                    assert(self.explorers_info.view() =~= update_known(
                        old(self).explorers_info.view(),
                        explorer_id,
                        |e: ExplorerInfo| ExplorerInfo { status: Status::Dead, ..e },
                    ));
                }
                (Vec::new(), Ok(()))
            },
            ExplorerEvent::MovedToPlanetResult { explorer_id, planet_id } => {
                self.explorers_info.update_current_planet(explorer_id, planet_id);
                proof {
                    assert(self.explorers_info.view() =~= update_known(
                        old(self).explorers_info.view(),
                        explorer_id,
                        |e: ExplorerInfo| ExplorerInfo { current_planet_id: planet_id, ..e },
                    ));
                    assert(arrival_event(self.explorers_info.view(), explorer_id, planet_id) == arrival_event(
                        old(self).explorers_info.view(),
                        explorer_id,
                        planet_id,
                    ));
                }
                self.emit_explorer_move(explorer_id, planet_id);
                (Vec::new(), Ok(()))
            },
            ExplorerEvent::CurrentPlanetResult { explorer_id, planet_id } => {
                self.explorers_info.update_current_planet(explorer_id, planet_id);
                proof {
                    assert(self.explorers_info.view() =~= update_known(
                        old(self).explorers_info.view(),
                        explorer_id,
                        |e: ExplorerInfo| ExplorerInfo { current_planet_id: planet_id, ..e },
                    ));
                }
                (Vec::new(), Ok(()))
            },
            ExplorerEvent::SupportedResourceResult { explorer_id, supported_resources } => {
                let planet_id = match self.explorers_info.get_current_planet(&explorer_id) {
                    Some(p) => p,
                    None => {
                        return (Vec::new(), Err(OrchError::UnknownExplorer(explorer_id)));
                    },
                };
                match self.planets_info.update_supported_resources(planet_id, supported_resources) {
                    Ok(()) => (Vec::new(), Ok(())),
                    Err(_) => (Vec::new(), Err(OrchError::UnknownPlanet(planet_id))),
                }
            },
            ExplorerEvent::SupportedCombinationResult { explorer_id, combination_list } => {
                let planet_id = match self.explorers_info.get_current_planet(&explorer_id) {
                    Some(p) => p,
                    None => {
                        return (Vec::new(), Err(OrchError::UnknownExplorer(explorer_id)));
                    },
                };
                match self.planets_info.update_supported_combination(planet_id, combination_list) {
                    Ok(()) => (Vec::new(), Ok(())),
                    Err(_) => (Vec::new(), Err(OrchError::UnknownPlanet(planet_id))),
                }
            },
            ExplorerEvent::GenerateResourceResponse { explorer_id, generated } => {
                let mut actions: Vec<OrchAction> = Vec::new();
                if generated.is_ok() {
                    actions.push(OrchAction::AskBagContent { explorer_id });
                }
                (actions, Ok(()))
            },
            ExplorerEvent::CombineResourceResponse { explorer_id, generated } => {
                let mut actions: Vec<OrchAction> = Vec::new();
                if generated.is_ok() {
                    actions.push(OrchAction::AskBagContent { explorer_id });
                }
                (actions, Ok(()))
            },
            ExplorerEvent::BagContentResponse { explorer_id, bag_content } => {
                let ghost bag = bag_content;
                self.explorers_info.update_bag(explorer_id, bag_content);
                proof {
                    assert(self.explorers_info.view() =~= update_known(
                        old(self).explorers_info.view(),
                        explorer_id,
                        |e: ExplorerInfo| ExplorerInfo { bag: bag, ..e },
                    ));
                }
                (Vec::new(), Ok(()))
            },
            ExplorerEvent::NeighborsRequest { explorer_id, current_planet_id } => {
                match self.neighbours_of(current_planet_id) {
                    Ok(neighbors) => {
                        let mut actions: Vec<OrchAction> = Vec::new();
                        actions.push(OrchAction::SendNeighbours { explorer_id, neighbors });
                        (actions, Ok(()))
                    },
                    Err(e) => (Vec::new(), Err(e)),
                }
            },
            ExplorerEvent::TravelToPlanetRequest { explorer_id, current_planet_id, dst_planet_id } => {
                self.answer_travel_request(explorer_id, current_planet_id, dst_planet_id)
            },
        }
    }

    /// See `status_report`.
    fn record_explorer_status(&mut self, explorer_id: u32, status: Status) -> (r: (
        Vec<OrchAction>,
        Result<(), OrchError>,
    ))
        requires
            old(self).wf(),
        ensures
            final(self).wf(),
            status_report(old(self), final(self), explorer_id, status, r.0@, r.1),
    {
        self.explorers_info.insert_status(explorer_id, status);
        let mut actions: Vec<OrchAction> = Vec::new();
        if !self.explorers_info.contains(&explorer_id) {
            actions.push(OrchAction::AskCurrentPlanet { explorer_id });
        }
        (actions, Ok(()))
    }

    /// See `travel_request`.
    fn answer_travel_request(&mut self, explorer_id: u32, current_planet_id: u32, dst_planet_id: u32) -> (r: (
        Vec<OrchAction>,
        Result<(), OrchError>,
    ))
        requires
            old(self).wf(),
        ensures
            final(self).wf(),
            travel_request(old(self), final(self), explorer_id, current_planet_id, dst_planet_id, r.0@, r.1),
    {
        let mut actions: Vec<OrchAction> = Vec::new();
        if lookup_get(&self.galaxy_lookup, dst_planet_id).is_none() {
            actions.push(OrchAction::RefuseMove { explorer_id, planet_id: dst_planet_id, delivery: Delivery::BestEffort });
            return (actions, Ok(()));
        }
        let linked = self.are_neighbours(current_planet_id, dst_planet_id);
        if !linked || !self.planets_info.is_running(&dst_planet_id) || !self.planets_info.is_running(
            &current_planet_id,
        ) {
            actions.push(
                OrchAction::RefuseMove { explorer_id, planet_id: dst_planet_id, delivery: Delivery::ChannelChecked },
            );
            return (actions, Ok(()));
        }
        if !self.explorers_info.set_move_to_planet(explorer_id, #[verifier::truncate] (dst_planet_id as i32)) {
            return (actions, Err(OrchError::UnknownExplorer(explorer_id)));
        }
        actions.push(OrchAction::IncomingExplorer { planet_id: dst_planet_id, explorer_id });
        (actions, Ok(()))
    }
}

} // verus!
