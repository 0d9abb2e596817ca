//! An explorer's decisions. Each message it takes in changes what it knows
//! and yields a `Reaction`: the messages to send, in order, and what holds
//! when one of them cannot be sent. Sending, and the AI's scores (which are
//! floating point), are left to the caller.
use vstd::prelude::*;
use std::collections::HashMap;
use std::collections::VecDeque;
use crate::bag::{Bag, CraftError, craft_error_text, crafted, inserted, same_items};
use crate::explorer_state::{
    EnergyReading, ExplorerState, OrchMsgKind, PlanetMsgKind, SurveyedPlanet, after_reading,
    fresh_planet, inferred_class, orch_match, orch_msg_match_state, planet_match, planet_msg_match_state,
};
use crate::orchestrator_rules::ExplorerEvent;
use crate::resources::{BasicKind, BasicSet, ComplexKind, ComplexSet, ResourceKind};

verus! {

broadcast use vstd::std_specs::hash::group_hash_axioms;

/// A message an explorer sends its planet.
#[derive(Debug)]
#[allow(inconsistent_fields)]
pub enum ToPlanet<T> {
    SupportedResourceRequest { explorer_id: u32 },
    SupportedCombinationRequest { explorer_id: u32 },
    AvailableEnergyCellRequest { explorer_id: u32 },
    GenerateResourceRequest { explorer_id: u32, resource: BasicKind },
    /// The two ingredients of `resource`, taken out of the bag.
    CombineResourceRequest { explorer_id: u32, resource: ComplexKind, first: T, second: T },
}

/// A message an explorer sends.
#[derive(Debug)]
pub enum Outgoing<T> {
    ToOrchestrator(ExplorerEvent),
    ToPlanet(ToPlanet<T>),
}

/// What an explorer does after taking in a message.
#[derive(Debug)]
pub struct Reaction<T> {
    /// The messages to send, in order; after one that cannot be sent, the
    /// rest are not sent.
    pub sends: Vec<Outgoing<T>>,
    /// Whether a message that cannot be sent is an error (else it is only
    /// reported in the log).
    pub failure_is_error: bool,
    /// The explorer's state where a message cannot be sent.
    pub state_if_undelivered: ExplorerState,
    /// A recipe the explorer could not make.
    pub error: Option<CraftError>,
}

/// A message of the orchestrator to an explorer, with its planet sender
/// reduced to whether there is one (the caller keeps it).
#[derive(Debug)]
#[allow(inconsistent_fields)]
pub enum OrchCommand {
    StartExplorerAI,
    ResetExplorerAI,
    StopExplorerAI,
    KillExplorer,
    MoveToPlanet { has_sender: bool, planet_id: u32 },
    CurrentPlanetRequest,
    SupportedResourceRequest,
    SupportedCombinationRequest,
    GenerateResourceRequest { to_generate: BasicKind },
    CombineResourceRequest { to_generate: ComplexKind },
    BagContentRequest,
    NeighborsResponse { neighbors: Vec<u32> },
}

/// A planet's message to an explorer; the resources it hands over come with
/// their kinds.
#[derive(Debug)]
pub enum PlanetReply<T> {
    SupportedResourceResponse { resource_list: BasicSet },
    SupportedCombinationResponse { combination_list: ComplexSet },
    GenerateResourceResponse { resource: Option<(BasicKind, T)> },
    /// The resource made, or the two ingredients handed back.
    CombineResourceResponse { complex_response: Result<(ComplexKind, T), ((ResourceKind, T), (ResourceKind, T))> },
    AvailableEnergyCellResponse { available_cells: u32 },
    Stopped,
}

/// The kind of an orchestrator command.
pub open spec fn command_kind(cmd: OrchCommand) -> OrchMsgKind {
    match cmd {
        OrchCommand::StartExplorerAI => OrchMsgKind::StartExplorerAI,
        OrchCommand::ResetExplorerAI => OrchMsgKind::ResetExplorerAI,
        OrchCommand::StopExplorerAI => OrchMsgKind::StopExplorerAI,
        OrchCommand::KillExplorer => OrchMsgKind::KillExplorer,
        OrchCommand::MoveToPlanet { .. } => OrchMsgKind::MoveToPlanet,
        OrchCommand::CurrentPlanetRequest => OrchMsgKind::CurrentPlanetRequest,
        OrchCommand::SupportedResourceRequest => OrchMsgKind::SupportedResourceRequest,
        OrchCommand::SupportedCombinationRequest => OrchMsgKind::SupportedCombinationRequest,
        OrchCommand::GenerateResourceRequest { .. } => OrchMsgKind::GenerateResourceRequest,
        OrchCommand::CombineResourceRequest { .. } => OrchMsgKind::CombineResourceRequest,
        OrchCommand::BagContentRequest => OrchMsgKind::BagContentRequest,
        OrchCommand::NeighborsResponse { .. } => OrchMsgKind::NeighborsResponse,
    }
}

/// The kind of a planet's message.
pub open spec fn reply_kind<T>(reply: PlanetReply<T>) -> PlanetMsgKind {
    match reply {
        PlanetReply::SupportedResourceResponse { .. } => PlanetMsgKind::SupportedResourceResponse,
        PlanetReply::SupportedCombinationResponse { .. } => PlanetMsgKind::SupportedCombinationResponse,
        PlanetReply::GenerateResourceResponse { .. } => PlanetMsgKind::GenerateResourceResponse,
        PlanetReply::CombineResourceResponse { .. } => PlanetMsgKind::CombineResourceResponse,
        PlanetReply::AvailableEnergyCellResponse { .. } => PlanetMsgKind::AvailableEnergyCellResponse,
        PlanetReply::Stopped => PlanetMsgKind::Stopped,
    }
}

impl OrchCommand {
    /// The kind of the command.
    pub fn kind(&self) -> (k: OrchMsgKind)
        ensures
            k == command_kind(*self),
    {
        match self {
            OrchCommand::StartExplorerAI => OrchMsgKind::StartExplorerAI,
            OrchCommand::ResetExplorerAI => OrchMsgKind::ResetExplorerAI,
            OrchCommand::StopExplorerAI => OrchMsgKind::StopExplorerAI,
            OrchCommand::KillExplorer => OrchMsgKind::KillExplorer,
            OrchCommand::MoveToPlanet { .. } => OrchMsgKind::MoveToPlanet,
            OrchCommand::CurrentPlanetRequest => OrchMsgKind::CurrentPlanetRequest,
            OrchCommand::SupportedResourceRequest => OrchMsgKind::SupportedResourceRequest,
            OrchCommand::SupportedCombinationRequest => OrchMsgKind::SupportedCombinationRequest,
            OrchCommand::GenerateResourceRequest { .. } => OrchMsgKind::GenerateResourceRequest,
            OrchCommand::CombineResourceRequest { .. } => OrchMsgKind::CombineResourceRequest,
            OrchCommand::BagContentRequest => OrchMsgKind::BagContentRequest,
            OrchCommand::NeighborsResponse { .. } => OrchMsgKind::NeighborsResponse,
        }
    }
}

impl<T> PlanetReply<T> {
    /// The kind of the message.
    pub fn kind(&self) -> (k: PlanetMsgKind)
        ensures
            k == reply_kind(*self),
    {
        match self {
            PlanetReply::SupportedResourceResponse { .. } => PlanetMsgKind::SupportedResourceResponse,
            PlanetReply::SupportedCombinationResponse { .. } => PlanetMsgKind::SupportedCombinationResponse,
            PlanetReply::GenerateResourceResponse { .. } => PlanetMsgKind::GenerateResourceResponse,
            PlanetReply::CombineResourceResponse { .. } => PlanetMsgKind::CombineResourceResponse,
            PlanetReply::AvailableEnergyCellResponse { .. } => PlanetMsgKind::AvailableEnergyCellResponse,
            PlanetReply::Stopped => PlanetMsgKind::Stopped,
        }
    }
}

/// The requests a surveying explorer sends its planet: for the supported
/// resources, the supported combinations and the energy cells, each where
/// its flag is set, in that order.
pub open spec fn survey_requests<T>(id: u32, resources: bool, combinations: bool, energy_cells: bool) -> Seq<Outgoing<T>> {
    (if resources {
        seq![Outgoing::ToPlanet(ToPlanet::SupportedResourceRequest { explorer_id: id })]
    } else {
        Seq::empty()
    }) + (if combinations {
        seq![Outgoing::ToPlanet(ToPlanet::SupportedCombinationRequest { explorer_id: id })]
    } else {
        Seq::empty()
    }) + (if energy_cells {
        seq![Outgoing::ToPlanet(ToPlanet::AvailableEnergyCellRequest { explorer_id: id })]
    } else {
        Seq::empty()
    })
}

/// A reaction that sends one message, whose failure is an error and leaves
/// the explorer in `fallback`.
pub open spec fn sends_one<T>(r: Reaction<T>, msg: Outgoing<T>, fallback: ExplorerState) -> bool {
    &&& r.sends@ == seq![msg]
    &&& r.failure_is_error
    &&& r.state_if_undelivered == fallback
    &&& r.error is None
}

/// A reaction that sends nothing.
pub open spec fn sends_nothing<T>(r: Reaction<T>) -> bool {
    r.sends@.len() == 0 && r.error is None
}


/// What an explorer knows and is doing.
pub struct ExplorerCore<T> {
    pub explorer_id: u32,
    /// The planet the explorer stands on.
    pub planet_id: u32,
    /// What the explorer knows of each planet it has heard of.
    pub topology_info: HashMap<u32, SurveyedPlanet>,
    pub state: ExplorerState,
    pub bag: Bag<T>,
    /// Orchestrator messages that the state did not answer yet, oldest first.
    pub buffer_orchestrator_msg: VecDeque<OrchCommand>,
    /// Planet messages that the state did not answer yet, oldest first.
    pub buffer_planet_msg: VecDeque<PlanetReply<T>>,
    /// The explorer's clock, in ticks.
    pub time: u64,
    /// Whether the neighbours of the current planet must be asked for.
    pub current_planet_neighbors_update: bool,
    /// Whether the AI is off and only the orchestrator drives the explorer.
    pub manual_mode: bool,
}

/// The planets known after hearing of those in `ns` at tick `time`: the
/// known ones keep their record, the new ones get a fresh one.
pub open spec fn with_fresh(m: Map<u32, SurveyedPlanet>, ns: Seq<u32>, time: u64) -> Map<u32, SurveyedPlanet> {
    Map::new(
        |k: u32| m.contains_key(k) || ns.contains(k),
        |k: u32|
            if m.contains_key(k) {
                m[k]
            } else {
                fresh_planet(time)
            },
    )
}

/// The survey state of an explorer arriving on a planet it knows: it asks
/// for what it does not know of the planet, and for its energy cells.
pub open spec fn arrival_survey(p: SurveyedPlanet) -> ExplorerState {
    ExplorerState::Surveying {
        resources: p.basic_resources is None,
        combinations: p.complex_resources is None,
        energy_cells: true,
        orch_resource: false,
        orch_combination: false,
    }
}

/// The survey state of an explorer arriving on a planet it never heard of:
/// it asks for everything.
pub open spec fn full_survey() -> ExplorerState {
    ExplorerState::Surveying {
        resources: true,
        combinations: true,
        energy_cells: true,
        orch_resource: false,
        orch_combination: false,
    }
}

/// The requests that a survey state sends.
pub open spec fn requests_of<T>(id: u32, s: ExplorerState) -> Seq<Outgoing<T>> {
    match s {
        ExplorerState::Surveying { resources, combinations, energy_cells, .. } => survey_requests(
            id,
            resources,
            combinations,
            energy_cells,
        ),
        _ => Seq::empty(),
    }
}

/// The stack of kind `j` after an item `x` of kind `k` was put in.
pub open spec fn pushed<T>(b: Bag<T>, k: ResourceKind, x: T, j: ResourceKind) -> Seq<T> {
    if j == k {
        b.stack(j).push(x)
    } else {
        b.stack(j)
    }
}

/// `post` is `pre` with `x1` of kind `k1`, then `x2` of kind `k2`, put in.
pub open spec fn inserted_two<T>(pre: Bag<T>, post: Bag<T>, k1: ResourceKind, x1: T, k2: ResourceKind, x2: T) -> bool {
    forall|j: ResourceKind|
        #[trigger] post.stack(j) == if j == k2 {
            pushed(pre, k1, x1, j).push(x2)
        } else {
            pushed(pre, k1, x1, j)
        }
}

/// The planet records after learning the basic resources of planet `p`
/// (heard of at tick `time` if it had no record): where its combinations
/// are known too, its class is inferred.
pub open spec fn with_basic(m: Map<u32, SurveyedPlanet>, p: u32, list: BasicSet, time: u64) -> Map<u32, SurveyedPlanet> {
    if m.contains_key(p) {
        let q = SurveyedPlanet { basic_resources: Some(list), ..m[p] };
        m.insert(
            p,
            match q.complex_resources {
                Some(c) => SurveyedPlanet { inferred_planet_type: Some(inferred_class(list.size(), c.size())), ..q },
                None => q,
            },
        )
    } else {
        m.insert(p, SurveyedPlanet { basic_resources: Some(list), ..fresh_planet(time) })
    }
}

/// The planet records after learning the combinations of planet `p`; see
/// `with_basic`.
pub open spec fn with_complex(m: Map<u32, SurveyedPlanet>, p: u32, list: ComplexSet, time: u64) -> Map<u32, SurveyedPlanet> {
    if m.contains_key(p) {
        let q = SurveyedPlanet { complex_resources: Some(list), ..m[p] };
        m.insert(
            p,
            match q.basic_resources {
                Some(b) => SurveyedPlanet { inferred_planet_type: Some(inferred_class(b.size(), list.size())), ..q },
                None => q,
            },
        )
    } else {
        m.insert(p, SurveyedPlanet { complex_resources: Some(list), ..fresh_planet(time) })
    }
}

/// The planet records after the orchestrator listed the neighbours `ns` of
/// planet `p` at tick `time`; see `neighbours_response`.
pub open spec fn with_neighbours(m: Map<u32, SurveyedPlanet>, p: u32, ns: Vec<u32>, time: u64) -> Map<u32, SurveyedPlanet> {
    let m1 = with_fresh(m, ns@, time);
    if m1.contains_key(p) {
        m1.insert(p, SurveyedPlanet { neighbors: Some(ns), timestamp_neighbors: time, ..m1[p] })
    } else {
        m1.insert(p, SurveyedPlanet { neighbors: Some(ns), ..fresh_planet(time) })
    }
}

/// A reaction that sends `msg` where `send` holds, else nothing; a failure
/// is an error and leaves the explorer in `fallback`.
pub open spec fn sends_if<T>(r: Reaction<T>, send: bool, msg: Outgoing<T>, fallback: ExplorerState) -> bool {
    &&& r.sends@ == (if send {
        seq![msg]
    } else {
        Seq::empty()
    })
    &&& r.failure_is_error
    &&& r.state_if_undelivered == fallback
    &&& r.error is None
}

/// The planet answered with its basic resources. An explorer surveying
/// them records them, answers the orchestrator if it asked, and goes on
/// with the rest of its survey (idle when nothing is left); if the answer
/// cannot be sent it is left surveying as it was. Any other explorer
/// ignores the message.
pub open spec fn resource_response_step<T>(pre: ExplorerCore<T>, post: ExplorerCore<T>, list: BasicSet, r: Reaction<T>) -> bool {
    match pre.state {
        ExplorerState::Surveying { resources: true, combinations, energy_cells, orch_resource, orch_combination } => {
            let st = if !combinations && !energy_cells {
                ExplorerState::Idle
            } else {
                ExplorerState::Surveying {
                    resources: false,
                    combinations,
                    energy_cells,
                    orch_resource: false,
                    orch_combination,
                }
            };
            &&& post == (ExplorerCore { state: st, topology_info: post.topology_info, ..pre })
            &&& post.topology_info@ == with_basic(pre.topology_info@, pre.planet_id, list, pre.time)
            &&& sends_if(
                r,
                orch_resource,
                Outgoing::ToOrchestrator(
                    ExplorerEvent::SupportedResourceResult { explorer_id: pre.explorer_id, supported_resources: list },
                ),
                pre.state,
            )
        },
        _ => post == pre && sends_nothing(r),
    }
}

/// The planet answered with its combinations; as `resource_response_step`.
pub open spec fn combination_response_step<T>(
    pre: ExplorerCore<T>,
    post: ExplorerCore<T>,
    list: ComplexSet,
    r: Reaction<T>,
) -> bool {
    match pre.state {
        ExplorerState::Surveying { resources, combinations: true, energy_cells, orch_resource, orch_combination } => {
            let st = if !resources && !energy_cells {
                ExplorerState::Idle
            } else {
                ExplorerState::Surveying {
                    resources,
                    combinations: false,
                    energy_cells,
                    orch_resource,
                    orch_combination: false,
                }
            };
            &&& post == (ExplorerCore { state: st, topology_info: post.topology_info, ..pre })
            &&& post.topology_info@ == with_complex(pre.topology_info@, pre.planet_id, list, pre.time)
            &&& sends_if(
                r,
                orch_combination,
                Outgoing::ToOrchestrator(
                    ExplorerEvent::SupportedCombinationResult { explorer_id: pre.explorer_id, combination_list: list },
                ),
                pre.state,
            )
        },
        _ => post == pre && sends_nothing(r),
    }
}

/// The planet answered a request for a basic resource. An explorer waiting
/// for it puts what it got in its bag, answers the orchestrator if it asked
/// (an error where nothing came), and is idle again; if the answer cannot be
/// sent it is left waiting. Any other explorer ignores the message.
pub open spec fn generate_response_step<T>(
    pre: ExplorerCore<T>,
    post: ExplorerCore<T>,
    resource: Option<(BasicKind, T)>,
    r: Reaction<T>,
) -> bool {
    match pre.state {
        ExplorerState::GeneratingResource { orchestrator_response } => {
            &&& post == (ExplorerCore { state: ExplorerState::Idle, bag: post.bag, ..pre })
            &&& match resource {
                Some((k, x)) => inserted(pre.bag, post.bag, ResourceKind::Basic(k), x),
                None => same_items(post.bag, pre.bag),
            }
            &&& r.sends@.len() == (if orchestrator_response {
                1int
            } else {
                0int
            })
            &&& orchestrator_response ==> (r.sends@[0] matches Outgoing::ToOrchestrator(
                ExplorerEvent::GenerateResourceResponse { explorer_id: e, generated: g },
            ) && e == pre.explorer_id && (g is Ok <==> resource is Some) && (resource is None ==> g->Err_0@
                == "Cannot generate resource"@))
            &&& r.failure_is_error && r.state_if_undelivered == pre.state && r.error is None
        },
        _ => post == pre && sends_nothing(r),
    }
}

/// The planet answered a request to combine. An explorer waiting for it puts
/// what it got in its bag (the resource made, or the two ingredients handed
/// back), tells the orchestrator that it is done if it asked, and is idle
/// again; if the answer cannot be sent it is left waiting. The orchestrator
/// is told `Ok` in both cases: a planet that hands the ingredients back is
/// not reported as a failure. Any other explorer ignores the message.
pub open spec fn combine_response_step<T>(
    pre: ExplorerCore<T>,
    post: ExplorerCore<T>,
    response: Result<(ComplexKind, T), ((ResourceKind, T), (ResourceKind, T))>,
    r: Reaction<T>,
) -> bool {
    match pre.state {
        ExplorerState::CombiningResources { orchestrator_response } => {
            &&& post == (ExplorerCore { state: ExplorerState::Idle, bag: post.bag, ..pre })
            &&& match response {
                Ok((k, x)) => inserted(pre.bag, post.bag, ResourceKind::Complex(k), x),
                Err(((k1, x1), (k2, x2))) => inserted_two(pre.bag, post.bag, k1, x1, k2, x2),
            }
            &&& sends_if(
                r,
                orchestrator_response,
                Outgoing::ToOrchestrator(
                    ExplorerEvent::CombineResourceResponse { explorer_id: pre.explorer_id, generated: Ok(()) },
                ),
                pre.state,
            )
        },
        _ => post == pre && sends_nothing(r),
    }
}

/// The planet told how many energy cells it has charged. An explorer that
/// asked records the reading on its planet's record, if it has one (the
/// reading for the charge rate estimate comes back), and goes on with its
/// survey (idle when nothing is left). Any other explorer ignores it.
pub open spec fn energy_response_step<T>(
    pre: ExplorerCore<T>,
    post: ExplorerCore<T>,
    available_cells: u32,
    reading: Option<EnergyReading>,
) -> bool {
    match pre.state {
        ExplorerState::Surveying { resources, combinations, energy_cells: true, orch_resource, orch_combination } => {
            let st = if !resources && !combinations {
                ExplorerState::Idle
            } else {
                ExplorerState::Surveying {
                    resources,
                    combinations,
                    energy_cells: false,
                    orch_resource,
                    orch_combination,
                }
            };
            let m = pre.topology_info@;
            let p = pre.planet_id;
            &&& post == (ExplorerCore { state: st, topology_info: post.topology_info, ..pre })
            &&& if m.contains_key(p) {
                let (q, rd) = after_reading(m[p], available_cells, pre.time);
                post.topology_info@ == m.insert(p, q) && reading == Some(rd)
            } else {
                post.topology_info@ == m && reading is None
            }
        },
        _ => post == pre && reading is None,
    }
}

/// What `ExplorerCore::start_explorer_ai` does.
pub open spec fn start_step<T>(pre: ExplorerCore<T>, post: ExplorerCore<T>, r: Reaction<T>) -> bool {
    &&& post == (ExplorerCore { state: ExplorerState::Idle, manual_mode: false, ..pre })
    &&& sends_one(
        r,
        Outgoing::ToOrchestrator(ExplorerEvent::StartExplorerAIResult { explorer_id: pre.explorer_id }),
        ExplorerState::Idle,
    )
}

/// What `ExplorerCore::reset_explorer_ai` does.
pub open spec fn reset_step<T>(pre: ExplorerCore<T>, post: ExplorerCore<T>, r: Reaction<T>) -> bool {
    &&& post == (ExplorerCore {
        topology_info: post.topology_info,
        state: ExplorerState::Idle,
        current_planet_neighbors_update: false,
        manual_mode: false,
        ..pre
    })
    &&& post.topology_info@ == Map::<u32, SurveyedPlanet>::empty().insert(
        pre.planet_id,
        fresh_planet(0),
    )
    &&& sends_one(
        r,
        Outgoing::ToOrchestrator(ExplorerEvent::ResetExplorerAIResult { explorer_id: pre.explorer_id }),
        ExplorerState::Idle,
    )
}

/// What `ExplorerCore::stop_explorer_ai` does.
pub open spec fn stop_step<T>(pre: ExplorerCore<T>, post: ExplorerCore<T>, r: Reaction<T>) -> bool {
    &&& post == (ExplorerCore { manual_mode: true, ..pre })
    &&& sends_one(
        r,
        Outgoing::ToOrchestrator(ExplorerEvent::StopExplorerAIResult { explorer_id: pre.explorer_id }),
        pre.state,
    )
}

/// What `ExplorerCore::kill_explorer` does.
pub open spec fn kill_step<T>(pre: ExplorerCore<T>, post: ExplorerCore<T>, r: Reaction<T>) -> bool {
    &&& post == (ExplorerCore { state: ExplorerState::Killed, ..pre })
    &&& sends_one(
        r,
        Outgoing::ToOrchestrator(ExplorerEvent::KillExplorerResult { explorer_id: pre.explorer_id }),
        ExplorerState::Killed,
    )
}

/// What `ExplorerCore::current_planet_request` does.
pub open spec fn current_planet_step<T>(pre: ExplorerCore<T>, post: ExplorerCore<T>, r: Reaction<T>) -> bool {
    &&& post == (ExplorerCore { state: ExplorerState::Idle, ..pre })
    &&& sends_one(
        r,
        Outgoing::ToOrchestrator(
            ExplorerEvent::CurrentPlanetResult {
                explorer_id: pre.explorer_id,
                planet_id: pre.planet_id,
            },
        ),
        ExplorerState::Idle,
    )
}

/// What `ExplorerCore::generate_resource_request` does.
pub open spec fn generate_request_step<T>(pre: ExplorerCore<T>, post: ExplorerCore<T>, to_generate: BasicKind, to_orchestrator: bool, r: Reaction<T>) -> bool {
    &&& post == (ExplorerCore {
        state: ExplorerState::GeneratingResource { orchestrator_response: to_orchestrator },
        ..pre
    })
    &&& sends_one(
        r,
        Outgoing::ToPlanet(
            ToPlanet::GenerateResourceRequest { explorer_id: pre.explorer_id, resource: to_generate },
        ),
        ExplorerState::GeneratingResource { orchestrator_response: to_orchestrator },
    )
}

/// What `ExplorerCore::combine_resource_request` does: with the recipe's
/// ingredients in the bag, the explorer takes them out, hands them to its
/// planet to combine and waits for the answer; lacking one, it stays idle,
/// keeps its bag and tells the orchestrator the ingredients are missing.
pub open spec fn combine_request_step<T>(pre: ExplorerCore<T>, post: ExplorerCore<T>, to_generate: ComplexKind, to_orchestrator: bool, r: Reaction<T>) -> bool {
    if pre.bag.craftable(to_generate) {
        let st = ExplorerState::CombiningResources { orchestrator_response: to_orchestrator };
        &&& post == (ExplorerCore { state: st, bag: post.bag, ..pre })
        &&& r.sends@.len() == 1
        &&& r.sends@[0] matches Outgoing::ToPlanet(
            ToPlanet::CombineResourceRequest { explorer_id: e, resource: rk, first: a, second: b },
        ) && e == pre.explorer_id && rk == to_generate && crafted(pre.bag, post.bag, to_generate, a, b)
        &&& r.failure_is_error
        &&& r.state_if_undelivered == st
        &&& r.error is None
    } else {
        &&& post == (ExplorerCore { state: ExplorerState::Idle, bag: post.bag, ..pre })
        &&& same_items(post.bag, pre.bag)
        &&& r.sends@.len() == 1
        &&& r.sends@[0] matches Outgoing::ToOrchestrator(
            ExplorerEvent::CombineResourceResponse { explorer_id: e, generated: g },
        ) && e == pre.explorer_id && g is Err && g->Err_0@ == craft_error_text(CraftError::MissingResources(to_generate))
        &&& r.failure_is_error
        &&& r.state_if_undelivered == ExplorerState::Idle
        &&& r.error is None
    }
}

/// What `ExplorerCore::move_to_planet` does.
pub open spec fn move_step<T>(pre: ExplorerCore<T>, post: ExplorerCore<T>, has_sender: bool, planet_id: u32, r: Reaction<T>) -> bool {
    &&& has_sender && pre.topology_info@.contains_key(planet_id) ==> {
        let st = arrival_survey(pre.topology_info@[planet_id]);
        &&& post == (ExplorerCore { planet_id, state: st, ..pre })
        &&& r.sends@ == requests_of::<T>(pre.explorer_id, st)
        &&& r.failure_is_error && r.state_if_undelivered == st && r.error is None
    }
    &&& has_sender && !pre.topology_info@.contains_key(planet_id) ==> {
        &&& post == (ExplorerCore {
            planet_id,
            state: full_survey(),
            topology_info: post.topology_info,
            current_planet_neighbors_update: true,
            ..pre
        })
        &&& post.topology_info@ == pre.topology_info@.insert(planet_id, fresh_planet(0))
        &&& r.sends@ == requests_of::<T>(pre.explorer_id, full_survey())
        &&& r.failure_is_error && r.state_if_undelivered == full_survey() && r.error is None
    }
    &&& !has_sender ==> {
        &&& post == (ExplorerCore {
            state: ExplorerState::Idle,
            current_planet_neighbors_update: true,
            ..pre
        })
        &&& sends_nothing(r)
    }
}

/// What `ExplorerCore::supported_resource_request` does.
pub open spec fn resource_request_step<T>(pre: ExplorerCore<T>, post: ExplorerCore<T>, r: Reaction<T>) -> bool {
    &&& ({
        let m = pre.topology_info@;
        let p = pre.planet_id;
        let id = pre.explorer_id;
        if m.contains_key(p) && m[p].basic_resources is Some {
            &&& post == pre
            &&& r.sends@ == seq![
                Outgoing::<T>::ToOrchestrator(
                    ExplorerEvent::SupportedResourceResult {
                        explorer_id: id,
                        supported_resources: m[p].basic_resources->0,
                    },
                ),
            ]
            &&& !r.failure_is_error && r.state_if_undelivered == pre.state && r.error is None
        } else if pre.state == ExplorerState::Idle {
            let st = ExplorerState::Surveying {
                resources: true,
                combinations: !m.contains_key(p),
                energy_cells: !m.contains_key(p),
                orch_resource: true,
                orch_combination: false,
            };
            &&& post == (ExplorerCore { state: st, ..pre })
            &&& r.sends@ == requests_of::<T>(id, st)
            &&& r.failure_is_error && r.state_if_undelivered == st && r.error is None
        } else {
            post == pre && sends_nothing(r)
        }
    })
}

/// What `ExplorerCore::supported_combination_request` does.
pub open spec fn combination_request_step<T>(pre: ExplorerCore<T>, post: ExplorerCore<T>, r: Reaction<T>) -> bool {
    &&& ({
        let m = pre.topology_info@;
        let p = pre.planet_id;
        let id = pre.explorer_id;
        if m.contains_key(p) && m[p].complex_resources is Some {
            &&& post == pre
            &&& r.sends@ == seq![
                Outgoing::<T>::ToOrchestrator(
                    ExplorerEvent::SupportedCombinationResult {
                        explorer_id: id,
                        combination_list: m[p].complex_resources->0,
                    },
                ),
            ]
            &&& !r.failure_is_error && r.state_if_undelivered == pre.state && r.error is None
        } else if pre.state == ExplorerState::Idle {
            let st = ExplorerState::Surveying {
                resources: !m.contains_key(p),
                combinations: true,
                energy_cells: !m.contains_key(p),
                orch_resource: false,
                orch_combination: true,
            };
            &&& post == (ExplorerCore { state: st, ..pre })
            &&& r.sends@ == requests_of::<T>(id, st)
            &&& r.failure_is_error && r.state_if_undelivered == st && r.error is None
        } else {
            post == pre && sends_nothing(r)
        }
    })
}

/// What `ExplorerCore::neighbours_response` does.
pub open spec fn neighbours_step<T>(pre: ExplorerCore<T>, post: ExplorerCore<T>, neighbors: Vec<u32>, known: bool) -> bool {
    &&& known == with_fresh(pre.topology_info@, neighbors@, pre.time).contains_key(pre.planet_id)
    &&& post == (ExplorerCore {
        state: ExplorerState::Idle,
        topology_info: post.topology_info,
        current_planet_neighbors_update: if known {
            false
        } else {
            pre.current_planet_neighbors_update
        },
        ..pre
    })
    &&& post.topology_info@ == with_neighbours(
        pre.topology_info@,
        pre.planet_id,
        neighbors,
        pre.time,
    )
}

/// What `ExplorerCore::bag_content_request` yields.
pub open spec fn bag_content_step<T>(pre: ExplorerCore<T>, r: Reaction<T>) -> bool {
    &&& r.sends@.len() == 1
    &&& r.sends@[0] matches Outgoing::ToOrchestrator(ExplorerEvent::BagContentResponse { explorer_id: e, bag_content: v })
        && e == pre.explorer_id && v@ == pre.bag.listing()
    &&& r.failure_is_error
    &&& r.state_if_undelivered == pre.state
    &&& r.error is None
}

/// What the AI chose, once it scored every action (the scores are floating
/// point and stay with the caller).
#[derive(Clone, Copy, Debug, PartialEq, Eq, Structural)]
pub enum AiChoice {
    /// Ask the planet for a basic resource; the request names explorer 0.
    Produce(BasicKind),
    Combine(ComplexKind),
    MoveTo(u32),
    SurveyNeighbors,
    SurveyEnergy,
    Wait,
    /// Run away to the best scored neighbour; 0 where there is none.
    RunAway { destination: u32 },
}

/// Why the AI cannot run.
#[derive(Clone, Copy, Debug, PartialEq, Eq, Structural)]
pub enum AiError {
    /// The explorer has no record of the planet it stands on.
    PlanetNotFound,
}

/// Why an explorer could not survey its planet.
#[derive(Clone, Copy, Debug, PartialEq, Eq, Structural)]
pub enum GatherError {
    /// The explorer is not surveying; its state comes with the error.
    NotSurveying(ExplorerState),
}

/// What an explorer with no incoming message does.
#[derive(Clone, Copy, Debug, PartialEq, Eq, Structural)]
pub enum IdleChoice {
    /// Answer the waiting messages that the state now allows.
    ManageBuffers,
    /// Let the AI act.
    RunAi,
    Nothing,
}

/// What the AI does before scoring anything: on a planet without a record it
/// fails; where the neighbours must be asked for (or are unknown) it asks
/// the orchestrator and waits (idle again if the request cannot be sent);
/// where the planet's resources or combinations are unknown it surveys them;
/// else it changes nothing and the caller scores the actions (`Ok(None)`).
pub open spec fn ai_prelude_step<T>(
    pre: ExplorerCore<T>,
    post: ExplorerCore<T>,
    r: Result<Option<Reaction<T>>, AiError>,
) -> bool {
    let m = pre.topology_info@;
    let p = pre.planet_id;
    if !m.contains_key(p) {
        post == pre && r == Err::<Option<Reaction<T>>, AiError>(AiError::PlanetNotFound)
    } else if pre.current_planet_neighbors_update || m[p].neighbors is None {
        &&& post == (ExplorerCore {
            current_planet_neighbors_update: false,
            state: ExplorerState::WaitingForNeighbours,
            ..pre
        })
        &&& r matches Ok(Some(rc)) && sends_one(
            rc,
            Outgoing::ToOrchestrator(
                ExplorerEvent::NeighborsRequest { explorer_id: pre.explorer_id, current_planet_id: p },
            ),
            ExplorerState::Idle,
        )
    } else if m[p].basic_resources is None || m[p].complex_resources is None {
        let st = ExplorerState::Surveying {
            resources: m[p].basic_resources is None,
            combinations: m[p].complex_resources is None,
            energy_cells: false,
            orch_resource: false,
            orch_combination: false,
        };
        &&& post == (ExplorerCore { state: st, ..pre })
        &&& r matches Ok(Some(rc)) && rc.sends@ == requests_of::<T>(pre.explorer_id, st) && rc.failure_is_error
            && rc.state_if_undelivered == st && rc.error is None
    } else {
        post == pre && r matches Ok(None)
    }
}

/// What the explorer does with the AI's choice; a failure to send leaves it
/// idle. Travelling, it asks the orchestrator to move it (running away with
/// no destination does nothing); surveying, it asks for its neighbours or
/// its planet's energy cells; producing, it asks the planet for a resource
/// (the request names explorer 0, not the explorer's own id);
/// combining, it takes the ingredients out of its bag and hands them to the
/// planet, or, lacking one, is idle and reports the recipe it cannot make;
/// waiting, it does nothing.
pub open spec fn ai_action_step<T>(pre: ExplorerCore<T>, post: ExplorerCore<T>, choice: AiChoice, r: Reaction<T>) -> bool {
    let id = pre.explorer_id;
    let p = pre.planet_id;
    match choice {
        AiChoice::MoveTo(d) => {
            &&& post == (ExplorerCore { state: ExplorerState::Traveling, ..pre })
            &&& sends_one(
                r,
                Outgoing::ToOrchestrator(
                    ExplorerEvent::TravelToPlanetRequest { explorer_id: id, current_planet_id: p, dst_planet_id: d },
                ),
                ExplorerState::Idle,
            )
        },
        AiChoice::RunAway { destination } => if destination == 0 {
            post == pre && sends_nothing(r)
        } else {
            &&& post == (ExplorerCore { state: ExplorerState::Traveling, ..pre })
            &&& sends_one(
                r,
                Outgoing::ToOrchestrator(
                    ExplorerEvent::TravelToPlanetRequest {
                        explorer_id: id,
                        current_planet_id: p,
                        dst_planet_id: destination,
                    },
                ),
                ExplorerState::Idle,
            )
        },
        AiChoice::SurveyNeighbors => {
            &&& post == (ExplorerCore { state: ExplorerState::WaitingForNeighbours, ..pre })
            &&& sends_one(
                r,
                Outgoing::ToOrchestrator(ExplorerEvent::NeighborsRequest { explorer_id: id, current_planet_id: p }),
                ExplorerState::Idle,
            )
        },
        AiChoice::SurveyEnergy => {
            let st = ExplorerState::Surveying {
                resources: false,
                combinations: false,
                energy_cells: true,
                orch_resource: false,
                orch_combination: false,
            };
            &&& post == (ExplorerCore { state: st, ..pre })
            &&& r.sends@ == requests_of::<T>(id, st)
            &&& r.failure_is_error && r.state_if_undelivered == ExplorerState::Idle && r.error is None
        },
        AiChoice::Produce(k) => {
            &&& post == (ExplorerCore {
                state: ExplorerState::GeneratingResource { orchestrator_response: false },
                ..pre
            })
            &&& sends_one(
                r,
                Outgoing::ToPlanet(ToPlanet::GenerateResourceRequest { explorer_id: 0, resource: k }),
                ExplorerState::Idle,
            )
        },
        AiChoice::Combine(k) => if pre.bag.craftable(k) {
            &&& post == (ExplorerCore {
                state: ExplorerState::CombiningResources { orchestrator_response: false },
                bag: post.bag,
                ..pre
            })
            &&& r.sends@.len() == 1
            &&& r.sends@[0] matches Outgoing::ToPlanet(
                ToPlanet::CombineResourceRequest { explorer_id: e, resource: rk, first: a, second: b },
            ) && e == id && rk == k && crafted(pre.bag, post.bag, k, a, b)
            &&& r.failure_is_error && r.state_if_undelivered == ExplorerState::Idle && r.error is None
        } else {
            &&& post == (ExplorerCore { state: ExplorerState::Idle, bag: post.bag, ..pre })
            &&& same_items(post.bag, pre.bag)
            &&& r.sends@.len() == 0
            &&& r.error == Some(CraftError::MissingResources(k))
        },
        AiChoice::Wait => post == pre && sends_nothing(r),
    }
}

/// What the explorer does with an orchestrator message it answers: the
/// handler of its kind (a request of the orchestrator to generate or combine
/// waits for its answer too); the neighbour list also says whether the
/// current planet had a record.
pub open spec fn orch_command_step<T>(
    pre: ExplorerCore<T>,
    post: ExplorerCore<T>,
    cmd: OrchCommand,
    r: Reaction<T>,
    known: Option<bool>,
) -> bool {
    match cmd {
        OrchCommand::NeighborsResponse { neighbors } => known matches Some(k) && neighbours_step(
            pre,
            post,
            neighbors,
            k,
        ) && sends_nothing(r),
        _ => known is None && match cmd {
            OrchCommand::StartExplorerAI => start_step(pre, post, r),
            OrchCommand::ResetExplorerAI => reset_step(pre, post, r),
            OrchCommand::StopExplorerAI => stop_step(pre, post, r),
            OrchCommand::KillExplorer => kill_step(pre, post, r),
            OrchCommand::MoveToPlanet { has_sender, planet_id } => move_step(pre, post, has_sender, planet_id, r),
            OrchCommand::CurrentPlanetRequest => current_planet_step(pre, post, r),
            OrchCommand::SupportedResourceRequest => resource_request_step(pre, post, r),
            OrchCommand::SupportedCombinationRequest => combination_request_step(pre, post, r),
            OrchCommand::GenerateResourceRequest { to_generate } => generate_request_step(
                pre,
                post,
                to_generate,
                true,
                r,
            ),
            OrchCommand::CombineResourceRequest { to_generate } => combine_request_step(
                pre,
                post,
                to_generate,
                true,
                r,
            ),
            OrchCommand::BagContentRequest => post == pre && bag_content_step(pre, r),
            _ => false,
        },
    }
}

/// What the explorer does with a planet message it answers: the handler of
/// its kind; a stopped planet leaves the explorer idle.
pub open spec fn planet_reply_step<T>(
    pre: ExplorerCore<T>,
    post: ExplorerCore<T>,
    reply: PlanetReply<T>,
    r: Reaction<T>,
    reading: Option<EnergyReading>,
) -> bool {
    match reply {
        PlanetReply::AvailableEnergyCellResponse { available_cells } => energy_response_step(
            pre,
            post,
            available_cells,
            reading,
        ) && sends_nothing(r),
        _ => reading is None && match reply {
            PlanetReply::SupportedResourceResponse { resource_list } => resource_response_step(
                pre,
                post,
                resource_list,
                r,
            ),
            PlanetReply::SupportedCombinationResponse { combination_list } => combination_response_step(
                pre,
                post,
                combination_list,
                r,
            ),
            PlanetReply::GenerateResourceResponse { resource } => generate_response_step(pre, post, resource, r),
            PlanetReply::CombineResourceResponse { complex_response } => combine_response_step(
                pre,
                post,
                complex_response,
                r,
            ),
            PlanetReply::Stopped => post == (ExplorerCore { state: ExplorerState::Idle, ..pre }) && sends_nothing(r),
            _ => false,
        },
    }
}

impl<T> ExplorerCore<T> {
    /// A new explorer on a planet: idle, with an empty bag, at tick 1,
    /// knowing only that its planet exists.
    pub fn new(explorer_id: u32, planet_id: u32) -> (e: ExplorerCore<T>)
        ensures
            e.explorer_id == explorer_id,
            e.planet_id == planet_id,
            e.topology_info@ == Map::<u32, SurveyedPlanet>::empty().insert(planet_id, fresh_planet(0)),
            e.state == ExplorerState::Idle,
            forall|k: ResourceKind| #[trigger] e.bag.stack(k) == Seq::<T>::empty(),
            e.buffer_orchestrator_msg@.len() == 0,
            e.buffer_planet_msg@.len() == 0,
            e.time == 1,
            !e.current_planet_neighbors_update,
            !e.manual_mode,
    {
        let mut topology_info: HashMap<u32, SurveyedPlanet> = HashMap::new();
        topology_info.insert(planet_id, SurveyedPlanet::new(0));
        proof {
            assert(topology_info@ =~= Map::<u32, SurveyedPlanet>::empty().insert(planet_id, fresh_planet(0)));
        }
        ExplorerCore {
            explorer_id,
            planet_id,
            topology_info,
            state: ExplorerState::Idle,
            bag: Bag::new(),
            buffer_orchestrator_msg: VecDeque::new(),
            buffer_planet_msg: VecDeque::new(),
            time: 1,
            current_planet_neighbors_update: false,
            manual_mode: false,
        }
    }

    /// The explorer's id.
    pub fn id(&self) -> (id: u32)
        ensures
            id == self.explorer_id,
    {
        self.explorer_id
    }

    /// One more tick of the explorer's clock, wrapping at the end.
    pub fn tick(&mut self)
        ensures
            *final(self) == (ExplorerCore { time: if old(self).time == u64::MAX { 0 } else { (old(self).time + 1) as u64 }, ..*old(self) }),
    {
        self.time = self.time.wrapping_add(1);
    }

    /// The AI starts: the explorer is idle and out of manual mode, and says so.
    pub fn start_explorer_ai(&mut self) -> (r: Reaction<T>)
        ensures
            start_step(*old(self), *final(self), r),
    {
        self.state = ExplorerState::Idle;
        self.manual_mode = false;
        self.reply_one(Outgoing::ToOrchestrator(ExplorerEvent::StartExplorerAIResult { explorer_id: self.explorer_id }))
    }

    /// The AI starts afresh: the explorer is idle, out of manual mode, forgets
    /// every planet but a fresh record of its own, and says so.
    pub fn reset_explorer_ai(&mut self) -> (r: Reaction<T>)
        ensures
            reset_step(*old(self), *final(self), r),
    {
        self.state = ExplorerState::Idle;
        let mut topology_info: HashMap<u32, SurveyedPlanet> = HashMap::new();
        topology_info.insert(self.planet_id, SurveyedPlanet::new(0));
        proof {
            assert(topology_info@ =~= Map::<u32, SurveyedPlanet>::empty().insert(self.planet_id, fresh_planet(0)));
        }
        self.topology_info = topology_info;
        self.current_planet_neighbors_update = false;
        self.manual_mode = false;
        self.reply_one(Outgoing::ToOrchestrator(ExplorerEvent::ResetExplorerAIResult { explorer_id: self.explorer_id }))
    }

    /// The AI stops: the explorer goes into manual mode and says so.
    pub fn stop_explorer_ai(&mut self) -> (r: Reaction<T>)
        ensures
            stop_step(*old(self), *final(self), r),
    {
        self.manual_mode = true;
        self.reply_one(Outgoing::ToOrchestrator(ExplorerEvent::StopExplorerAIResult { explorer_id: self.explorer_id }))
    }

    /// The explorer is killed and says so.
    pub fn kill_explorer(&mut self) -> (r: Reaction<T>)
        ensures
            kill_step(*old(self), *final(self), r),
    {
        self.state = ExplorerState::Killed;
        self.reply_one(Outgoing::ToOrchestrator(ExplorerEvent::KillExplorerResult { explorer_id: self.explorer_id }))
    }

    /// The explorer becomes idle and tells the orchestrator which planet it
    /// stands on.
    pub fn current_planet_request(&mut self) -> (r: Reaction<T>)
        ensures
            current_planet_step(*old(self), *final(self), r),
    {
        self.state = ExplorerState::Idle;
        self.reply_one(
            Outgoing::ToOrchestrator(
                ExplorerEvent::CurrentPlanetResult { explorer_id: self.explorer_id, planet_id: self.planet_id },
            ),
        )
    }

    /// The explorer asks its planet for a basic resource and waits for it;
    /// `to_orchestrator` marks a request of the orchestrator, which waits
    /// for the answer too.
    pub fn generate_resource_request(&mut self, to_generate: BasicKind, to_orchestrator: bool) -> (r: Reaction<T>)
        ensures
            generate_request_step(*old(self), *final(self), to_generate, to_orchestrator, r),
    {
        self.state = ExplorerState::GeneratingResource { orchestrator_response: to_orchestrator };
        self.reply_one(
            Outgoing::ToPlanet(ToPlanet::GenerateResourceRequest { explorer_id: self.explorer_id, resource: to_generate }),
        )
    }

    /// The orchestrator asks for a complex resource: the explorer takes the
    /// recipe's ingredients out of its bag, hands them to its planet and
    /// waits for the result; lacking one, it stays idle and tells the
    /// orchestrator so.
    pub fn combine_resource_request(&mut self, to_generate: ComplexKind, to_orchestrator: bool) -> (r: Reaction<T>)
        ensures
            combine_request_step(*old(self), *final(self), to_generate, to_orchestrator, r),
    {
        match self.bag.make_request(to_generate) {
            Ok((first, second)) => {
                self.state = ExplorerState::CombiningResources { orchestrator_response: to_orchestrator };
                self.reply_one(
                    Outgoing::ToPlanet(
                        ToPlanet::CombineResourceRequest {
                            explorer_id: self.explorer_id,
                            resource: to_generate,
                            first,
                            second,
                        },
                    ),
                )
            },
            Err(e) => {
                self.state = ExplorerState::Idle;
                self.reply_one(
                    Outgoing::ToOrchestrator(
                        ExplorerEvent::CombineResourceResponse { explorer_id: self.explorer_id, generated: Err(e.message()) },
                    ),
                )
            },
        }
    }

    /// The explorer tells the orchestrator the kinds of the items in its bag.
    pub fn bag_content_request(&self) -> (r: Reaction<T>)
        ensures
            bag_content_step(*self, r),
    {
        let bag_content = self.bag.to_resource_types();
        self.reply_one(Outgoing::ToOrchestrator(ExplorerEvent::BagContentResponse { explorer_id: self.explorer_id, bag_content }))
    }

    /// The orchestrator moved the explorer, or refused to. With a sender to
    /// the new planet, the explorer stands on it and surveys it (everything,
    /// for a planet it never heard of, which it now knows as fresh and whose
    /// neighbours it must ask for). Without one it stays where it is, idle,
    /// and will ask for its neighbours again.
    pub fn move_to_planet(&mut self, has_sender: bool, planet_id: u32) -> (r: Reaction<T>)
        ensures
            move_step(*old(self), *final(self), has_sender, planet_id, r),
    {
        self.state = ExplorerState::Idle;
        if !has_sender {
            self.current_planet_neighbors_update = true;
            return self.reply_none();
        }
        self.planet_id = planet_id;
        match self.topology_info.get(&planet_id) {
            Some(info) => {
                self.state = ExplorerState::Surveying {
                    resources: info.basic_resources.is_none(),
                    combinations: info.complex_resources.is_none(),
                    energy_cells: true,
                    orch_resource: false,
                    orch_combination: false,
                };
            },
            None => {
                self.current_planet_neighbors_update = true;
                self.topology_info.insert(planet_id, SurveyedPlanet::new(0));
                self.state = ExplorerState::Surveying {
                    resources: true,
                    combinations: true,
                    energy_cells: true,
                    orch_resource: false,
                    orch_combination: false,
                };
            },
        }
        self.survey()
    }

    /// The orchestrator asks which basic resources the explorer's planet
    /// supports. Known, they are sent back (a failure to send is only
    /// logged). Unknown, an idle explorer asks the planet (everything, for a
    /// planet it has no record of) and answers the orchestrator when the
    /// planet does; a busy explorer does nothing.
    pub fn supported_resource_request(&mut self) -> (r: Reaction<T>)
        ensures
            resource_request_step(*old(self), *final(self), r),
    {
        let known: Option<Option<BasicSet>> = match self.topology_info.get(&self.planet_id) {
            Some(info) => Some(info.basic_resources),
            None => None,
        };
        match known {
            Some(Some(set)) => {
                let mut r = self.reply_one(
                    Outgoing::ToOrchestrator(
                        ExplorerEvent::SupportedResourceResult { explorer_id: self.explorer_id, supported_resources: set },
                    ),
                );
                r.failure_is_error = false;
                r
            },
            _ => {
                if self.state != ExplorerState::Idle {
                    return self.reply_none();
                }
                let unknown_planet = known.is_none();
                self.state = ExplorerState::Surveying {
                    resources: true,
                    combinations: unknown_planet,
                    energy_cells: unknown_planet,
                    orch_resource: true,
                    orch_combination: false,
                };
                self.survey()
            },
        }
    }

    /// The orchestrator asks which combinations the explorer's planet
    /// supports; as `supported_resource_request`, for combinations.
    pub fn supported_combination_request(&mut self) -> (r: Reaction<T>)
        ensures
            combination_request_step(*old(self), *final(self), r),
    {
        let known: Option<Option<ComplexSet>> = match self.topology_info.get(&self.planet_id) {
            Some(info) => Some(info.complex_resources),
            None => None,
        };
        match known {
            Some(Some(set)) => {
                let mut r = self.reply_one(
                    Outgoing::ToOrchestrator(
                        ExplorerEvent::SupportedCombinationResult { explorer_id: self.explorer_id, combination_list: set },
                    ),
                );
                r.failure_is_error = false;
                r
            },
            _ => {
                if self.state != ExplorerState::Idle {
                    return self.reply_none();
                }
                let unknown_planet = known.is_none();
                self.state = ExplorerState::Surveying {
                    resources: unknown_planet,
                    combinations: true,
                    energy_cells: unknown_planet,
                    orch_resource: false,
                    orch_combination: true,
                };
                self.survey()
            },
        }
    }

    /// The orchestrator listed the neighbours of the explorer's planet: the
    /// explorer is idle, knows of each neighbour (a fresh record for a new
    /// one) and stores the list with the tick; see `with_neighbours`. Where
    /// the planet had a record, its neighbours need no asking any more, and
    /// `true` comes back.
    pub fn neighbours_response(&mut self, neighbors: Vec<u32>) -> (known: bool)
        ensures
            neighbours_step(*old(self), *final(self), neighbors, known),
    {
        self.state = ExplorerState::Idle;
        let ghost s0 = *self;
        let ghost m0 = self.topology_info@;
        let time = self.time;
        let mut i: usize = 0;
        proof {
            assert(self.topology_info@ =~= with_fresh(m0, neighbors@.take(0), time));
        }
        while i < neighbors.len()
            invariant
                0 <= i <= neighbors@.len(),
                time == s0.time,
                m0 == s0.topology_info@,
                *self == (ExplorerCore { topology_info: self.topology_info, ..s0 }),
                self.topology_info@ == with_fresh(m0, neighbors@.take(i as int), time),
            decreases neighbors@.len() - i,
        {
            let n = neighbors[i];
            if !self.topology_info.contains_key(&n) {
                self.topology_info.insert(n, SurveyedPlanet::new(time));
            }
            proof {
                assert(neighbors@.take(i + 1) =~= neighbors@.take(i as int).push(n));
                assert forall|k: u32| #[trigger] neighbors@.take(i + 1).contains(k) == (neighbors@.take(i as int).contains(k)
                    || k == n) by {
                    crate::registry::lemma_contains_push(neighbors@.take(i as int), n, k);
                }
                assert(self.topology_info@ =~= with_fresh(m0, neighbors@.take(i + 1), time));
            }
            i = i + 1;
        }
        proof {
            assert(neighbors@.take(neighbors@.len() as int) =~= neighbors@);
        }
        let p = self.planet_id;
        match self.topology_info.remove(&p) {
            Some(info) => {
                self.current_planet_neighbors_update = false;
                self.topology_info.insert(p, SurveyedPlanet { neighbors: Some(neighbors), timestamp_neighbors: time, ..info });
                proof {
                    assert(self.topology_info@ =~= with_neighbours(m0, p, neighbors, time));
                }
                true
            },
            None => {
                let mut fresh = SurveyedPlanet::new(time);
                fresh.neighbors = Some(neighbors);
                self.topology_info.insert(p, fresh);
                proof {
                    assert(self.topology_info@ =~= with_neighbours(m0, p, neighbors, time));
                }
                false
            },
        }
    }

    /// See `resource_response_step`.
    pub fn manage_supported_resource_response(&mut self, resource_list: BasicSet) -> (r: Reaction<T>)
        ensures
            resource_response_step(*old(self), *final(self), resource_list, r),
    {
        match self.state {
            ExplorerState::Surveying { resources: true, combinations, energy_cells, orch_resource, orch_combination } => {
                let ghost m0 = self.topology_info@;
                let p = self.planet_id;
                match self.topology_info.remove(&p) {
                    Some(info) => {
                        let mut updated = SurveyedPlanet { basic_resources: Some(resource_list), ..info };
                        if updated.complex_resources.is_some() {
                            let _ = updated.calculate_planet_type();
                        }
                        self.topology_info.insert(p, updated);
                    },
                    None => {
                        let mut fresh = SurveyedPlanet::new(self.time);
                        fresh.basic_resources = Some(resource_list);
                        self.topology_info.insert(p, fresh);
                    },
                }
                proof {
                    assert(self.topology_info@ =~= with_basic(m0, p, resource_list, self.time));
                }
                let mut sends: Vec<Outgoing<T>> = Vec::new();
                if orch_resource {
                    sends.push(
                        Outgoing::ToOrchestrator(
                            ExplorerEvent::SupportedResourceResult {
                                explorer_id: self.explorer_id,
                                supported_resources: resource_list,
                            },
                        ),
                    );
                }
                let fallback = self.state;
                if !combinations && !energy_cells {
                    self.state = ExplorerState::Idle;
                } else {
                    self.state = ExplorerState::Surveying {
                        resources: false,
                        combinations,
                        energy_cells,
                        orch_resource: false,
                        orch_combination,
                    };
                }
                proof {
                    if orch_resource {
                        assert(sends@ =~= seq![
                            Outgoing::<T>::ToOrchestrator(
                                ExplorerEvent::SupportedResourceResult {
                                    explorer_id: self.explorer_id,
                                    supported_resources: resource_list,
                                },
                            ),
                        ]);
                    } else {
                        assert(sends@ =~= Seq::<Outgoing<T>>::empty());
                    }
                }
                Reaction { sends, failure_is_error: true, state_if_undelivered: fallback, error: None }
            },
            _ => self.reply_none(),
        }
    }

    /// See `combination_response_step`.
    pub fn manage_supported_combination_response(&mut self, combination_list: ComplexSet) -> (r: Reaction<T>)
        ensures
            combination_response_step(*old(self), *final(self), combination_list, r),
    {
        match self.state {
            ExplorerState::Surveying { resources, combinations: true, energy_cells, orch_resource, orch_combination } => {
                let ghost m0 = self.topology_info@;
                let p = self.planet_id;
                match self.topology_info.remove(&p) {
                    Some(info) => {
                        let mut updated = SurveyedPlanet { complex_resources: Some(combination_list), ..info };
                        if updated.basic_resources.is_some() {
                            let _ = updated.calculate_planet_type();
                        }
                        self.topology_info.insert(p, updated);
                    },
                    None => {
                        let mut fresh = SurveyedPlanet::new(self.time);
                        fresh.complex_resources = Some(combination_list);
                        self.topology_info.insert(p, fresh);
                    },
                }
                proof {
                    assert(self.topology_info@ =~= with_complex(m0, p, combination_list, self.time));
                }
                let mut sends: Vec<Outgoing<T>> = Vec::new();
                if orch_combination {
                    sends.push(
                        Outgoing::ToOrchestrator(
                            ExplorerEvent::SupportedCombinationResult {
                                explorer_id: self.explorer_id,
                                combination_list,
                            },
                        ),
                    );
                }
                let fallback = self.state;
                if !resources && !energy_cells {
                    self.state = ExplorerState::Idle;
                } else {
                    self.state = ExplorerState::Surveying {
                        resources,
                        combinations: false,
                        energy_cells,
                        orch_resource,
                        orch_combination: false,
                    };
                }
                proof {
                    if orch_combination {
                        assert(sends@ =~= seq![
                            Outgoing::<T>::ToOrchestrator(
                                ExplorerEvent::SupportedCombinationResult {
                                    explorer_id: self.explorer_id,
                                    combination_list,
                                },
                            ),
                        ]);
                    } else {
                        assert(sends@ =~= Seq::<Outgoing<T>>::empty());
                    }
                }
                Reaction { sends, failure_is_error: true, state_if_undelivered: fallback, error: None }
            },
            _ => self.reply_none(),
        }
    }

    /// See `generate_response_step`.
    pub fn manage_generate_response(&mut self, resource: Option<(BasicKind, T)>) -> (r: Reaction<T>)
        ensures
            generate_response_step(*old(self), *final(self), resource, r),
    {
        match self.state {
            ExplorerState::GeneratingResource { orchestrator_response } => {
                let got = resource.is_some();
                match resource {
                    Some((k, x)) => self.bag.insert(ResourceKind::Basic(k), x),
                    None => {},
                }
                let mut sends: Vec<Outgoing<T>> = Vec::new();
                if orchestrator_response {
                    let generated: Result<(), String> = if got {
                        Ok(())
                    } else {
                        Err("Cannot generate resource".to_owned())
                    };
                    sends.push(
                        Outgoing::ToOrchestrator(
                            ExplorerEvent::GenerateResourceResponse { explorer_id: self.explorer_id, generated },
                        ),
                    );
                }
                let fallback = self.state;
                self.state = ExplorerState::Idle;
                Reaction { sends, failure_is_error: true, state_if_undelivered: fallback, error: None }
            },
            _ => self.reply_none(),
        }
    }

    /// See `combine_response_step`.
    pub fn manage_combine_response(
        &mut self,
        complex_response: Result<(ComplexKind, T), ((ResourceKind, T), (ResourceKind, T))>,
    ) -> (r: Reaction<T>)
        ensures
            combine_response_step(*old(self), *final(self), complex_response, r),
    {
        match self.state {
            ExplorerState::CombiningResources { orchestrator_response } => {
                let ghost b0 = self.bag;
                match complex_response {
                    Ok((k, x)) => self.bag.insert(ResourceKind::Complex(k), x),
                    Err(((k1, x1), (k2, x2))) => {
                        let ghost g1 = x1;
                        let ghost g2 = x2;
                        self.bag.insert(k1, x1);
                        let ghost b1 = self.bag;
                        self.bag.insert(k2, x2);
                        proof {
                            assert forall|j: ResourceKind| #[trigger] self.bag.stack(j) == (if j == k2 {
                                pushed(b0, k1, g1, j).push(g2)
                            } else {
                                pushed(b0, k1, g1, j)
                            }) by {
                                assert(b1.stack(j) == pushed(b0, k1, g1, j));
                            }
                        }
                    },
                }
                let mut sends: Vec<Outgoing<T>> = Vec::new();
                if orchestrator_response {
                    sends.push(
                        Outgoing::ToOrchestrator(
                            ExplorerEvent::CombineResourceResponse { explorer_id: self.explorer_id, generated: Ok(()) },
                        ),
                    );
                }
                proof {
                    if orchestrator_response {
                        assert(sends@ =~= seq![
                            Outgoing::<T>::ToOrchestrator(
                                ExplorerEvent::CombineResourceResponse { explorer_id: self.explorer_id, generated: Ok(()) },
                            ),
                        ]);
                    } else {
                        assert(sends@ =~= Seq::<Outgoing<T>>::empty());
                    }
                }
                let fallback = self.state;
                self.state = ExplorerState::Idle;
                Reaction { sends, failure_is_error: true, state_if_undelivered: fallback, error: None }
            },
            _ => self.reply_none(),
        }
    }

    /// See `energy_response_step`.
    pub fn manage_available_energy_cell_response(&mut self, available_cells: u32) -> (reading: Option<EnergyReading>)
        ensures
            energy_response_step(*old(self), *final(self), available_cells, reading),
    {
        match self.state {
            ExplorerState::Surveying { resources, combinations, energy_cells: true, orch_resource, orch_combination } => {
                let p = self.planet_id;
                let ghost m0 = self.topology_info@;
                let reading = match self.topology_info.remove(&p) {
                    Some(info) => {
                        let mut updated = info;
                        let rd = updated.record_energy(available_cells, self.time);
                        self.topology_info.insert(p, updated);
                        proof {
                            assert(self.topology_info@ =~= m0.insert(p, after_reading(m0[p], available_cells, self.time).0));
                        }
                        Some(rd)
                    },
                    None => {
                        proof {
                            assert(self.topology_info@ =~= m0);
                        }
                        None
                    },
                };
                if !resources && !combinations {
                    self.state = ExplorerState::Idle;
                } else {
                    self.state = ExplorerState::Surveying {
                        resources,
                        combinations,
                        energy_cells: false,
                        orch_resource,
                        orch_combination,
                    };
                }
                reading
            },
            _ => None,
        }
    }

    /// The planet stopped: the explorer is idle.
    pub fn planet_stopped(&mut self)
        ensures
            *final(self) == (ExplorerCore { state: ExplorerState::Idle, ..*old(self) }),
    {
        self.state = ExplorerState::Idle;
    }

    /// See `ai_prelude_step`.
    pub fn ai_core_function(&mut self) -> (r: Result<Option<Reaction<T>>, AiError>)
        ensures
            ai_prelude_step(*old(self), *final(self), r),
    {
        let p = self.planet_id;
        let (neighbors_unknown, basic_unknown, complex_unknown) = match self.topology_info.get(&p) {
            Some(info) => (info.neighbors.is_none(), info.basic_resources.is_none(), info.complex_resources.is_none()),
            None => {
                return Err(AiError::PlanetNotFound);
            },
        };
        if self.current_planet_neighbors_update || neighbors_unknown {
            self.current_planet_neighbors_update = false;
            self.state = ExplorerState::WaitingForNeighbours;
            let mut r = self.reply_one(
                Outgoing::ToOrchestrator(ExplorerEvent::NeighborsRequest { explorer_id: self.explorer_id, current_planet_id: p }),
            );
            r.state_if_undelivered = ExplorerState::Idle;
            return Ok(Some(r));
        }
        if basic_unknown || complex_unknown {
            self.state = ExplorerState::Surveying {
                resources: basic_unknown,
                combinations: complex_unknown,
                energy_cells: false,
                orch_resource: false,
                orch_combination: false,
            };
            return Ok(Some(self.survey()));
        }
        Ok(None)
    }

    /// See `ai_action_step`.
    pub fn apply_ai_choice(&mut self, choice: AiChoice) -> (r: Reaction<T>)
        ensures
            ai_action_step(*old(self), *final(self), choice, r),
    {
        let id = self.explorer_id;
        let p = self.planet_id;
        let mut r = match choice {
            AiChoice::MoveTo(d) => {
                self.state = ExplorerState::Traveling;
                self.reply_one(
                    Outgoing::ToOrchestrator(
                        ExplorerEvent::TravelToPlanetRequest { explorer_id: id, current_planet_id: p, dst_planet_id: d },
                    ),
                )
            },
            AiChoice::RunAway { destination } => {
                if destination == 0 {
                    return self.reply_none();
                }
                self.state = ExplorerState::Traveling;
                self.reply_one(
                    Outgoing::ToOrchestrator(
                        ExplorerEvent::TravelToPlanetRequest {
                            explorer_id: id,
                            current_planet_id: p,
                            dst_planet_id: destination,
                        },
                    ),
                )
            },
            AiChoice::SurveyNeighbors => {
                self.state = ExplorerState::WaitingForNeighbours;
                self.reply_one(
                    Outgoing::ToOrchestrator(ExplorerEvent::NeighborsRequest { explorer_id: id, current_planet_id: p }),
                )
            },
            AiChoice::SurveyEnergy => {
                self.state = ExplorerState::Surveying {
                    resources: false,
                    combinations: false,
                    energy_cells: true,
                    orch_resource: false,
                    orch_combination: false,
                };
                self.survey()
            },
            AiChoice::Produce(k) => {
                self.state = ExplorerState::GeneratingResource { orchestrator_response: false };
                self.reply_one(Outgoing::ToPlanet(ToPlanet::GenerateResourceRequest { explorer_id: 0, resource: k }))
            },
            AiChoice::Combine(k) => {
                self.state = ExplorerState::CombiningResources { orchestrator_response: false };
                match self.bag.make_request(k) {
                    Ok((a, b)) => self.reply_one(
                        Outgoing::ToPlanet(
                            ToPlanet::CombineResourceRequest { explorer_id: id, resource: k, first: a, second: b },
                        ),
                    ),
                    Err(e) => {
                        self.state = ExplorerState::Idle;
                        return Reaction {
                            sends: Vec::new(),
                            failure_is_error: true,
                            state_if_undelivered: ExplorerState::Idle,
                            error: Some(e),
                        };
                    },
                }
            },
            AiChoice::Wait => {
                return self.reply_none();
            },
        };
        r.state_if_undelivered = ExplorerState::Idle;
        r
    }

    /// Takes in an orchestrator message: one the state answers comes back to
    /// be handled now; any other waits at the end of the buffer.
    pub fn accept_orchestrator_message(&mut self, cmd: OrchCommand) -> (r: Option<OrchCommand>)
        ensures
            orch_match(old(self).state, command_kind(cmd)) ==> r == Some(cmd) && *final(self) == *old(self),
            !orch_match(old(self).state, command_kind(cmd)) ==> r is None && *final(self) == (ExplorerCore {
                buffer_orchestrator_msg: final(self).buffer_orchestrator_msg,
                ..*old(self)
            }) && final(self).buffer_orchestrator_msg@ == old(self).buffer_orchestrator_msg@.push(cmd),
    {
        if orch_msg_match_state(&self.state, cmd.kind()) {
            Some(cmd)
        } else {
            self.buffer_orchestrator_msg.push_back(cmd);
            None
        }
    }

    /// Takes in a planet message; as `accept_orchestrator_message`.
    pub fn accept_planet_message(&mut self, reply: PlanetReply<T>) -> (r: Option<PlanetReply<T>>)
        ensures
            planet_match(old(self).state, reply_kind(reply)) ==> r == Some(reply) && *final(self) == *old(self),
            !planet_match(old(self).state, reply_kind(reply)) ==> r is None && *final(self) == (ExplorerCore {
                buffer_planet_msg: final(self).buffer_planet_msg,
                ..*old(self)
            }) && final(self).buffer_planet_msg@ == old(self).buffer_planet_msg@.push(reply),
    {
        if planet_msg_match_state(&self.state, reply.kind()) {
            Some(reply)
        } else {
            self.buffer_planet_msg.push_back(reply);
            None
        }
    }

    /// The oldest waiting orchestrator message, taken out of the buffer, if
    /// the state now answers it; else nothing changes.
    pub fn next_buffered_orchestrator_msg(&mut self) -> (r: Option<OrchCommand>)
        ensures
            ({
                let q = old(self).buffer_orchestrator_msg@;
                if q.len() > 0 && orch_match(old(self).state, command_kind(q[0])) {
                    &&& r == Some(q[0])
                    &&& *final(self) == (ExplorerCore {
                        buffer_orchestrator_msg: final(self).buffer_orchestrator_msg,
                        ..*old(self)
                    })
                    &&& final(self).buffer_orchestrator_msg@ == q.drop_first()
                } else {
                    r is None && *final(self) == *old(self)
                }
            }),
    {
        if self.buffer_orchestrator_msg.len() == 0 {
            return None;
        }
        let k = self.buffer_orchestrator_msg[0].kind();
        if !orch_msg_match_state(&self.state, k) {
            return None;
        }
        self.buffer_orchestrator_msg.pop_front()
    }

    /// The oldest waiting planet message, taken out of the buffer, if the
    /// state now answers it; else nothing changes.
    pub fn next_buffered_planet_msg(&mut self) -> (r: Option<PlanetReply<T>>)
        ensures
            ({
                let q = old(self).buffer_planet_msg@;
                if q.len() > 0 && planet_match(old(self).state, reply_kind(q[0])) {
                    &&& r == Some(q[0])
                    &&& *final(self) == (ExplorerCore { buffer_planet_msg: final(self).buffer_planet_msg, ..*old(self) })
                    &&& final(self).buffer_planet_msg@ == q.drop_first()
                } else {
                    r is None && *final(self) == *old(self)
                }
            }),
    {
        if self.buffer_planet_msg.len() == 0 {
            return None;
        }
        let k = self.buffer_planet_msg[0].kind();
        if !planet_msg_match_state(&self.state, k) {
            return None;
        }
        self.buffer_planet_msg.pop_front()
    }

    /// What the explorer does when no message came: answer waiting messages
    /// if there are any; else, out of manual mode and idle, let the AI act;
    /// else nothing.
    pub fn idle_choice(&self) -> (c: IdleChoice)
        ensures
            c == (if self.buffer_planet_msg@.len() > 0 || self.buffer_orchestrator_msg@.len() > 0 {
                IdleChoice::ManageBuffers
            } else if !self.manual_mode && self.state == ExplorerState::Idle {
                IdleChoice::RunAi
            } else {
                IdleChoice::Nothing
            }),
    {
        if self.buffer_planet_msg.len() > 0 || self.buffer_orchestrator_msg.len() > 0 {
            IdleChoice::ManageBuffers
        } else if !self.manual_mode && self.state == ExplorerState::Idle {
            IdleChoice::RunAi
        } else {
            IdleChoice::Nothing
        }
    }

    /// Handles an orchestrator message that the state answers; see
    /// `orch_command_step`.
    pub fn handle_orchestrator_message(&mut self, cmd: OrchCommand) -> (r: (Reaction<T>, Option<bool>))
        ensures
            orch_command_step(*old(self), *final(self), cmd, r.0, r.1),
    {
        match cmd {
            OrchCommand::StartExplorerAI => (self.start_explorer_ai(), None),
            OrchCommand::ResetExplorerAI => (self.reset_explorer_ai(), None),
            OrchCommand::StopExplorerAI => (self.stop_explorer_ai(), None),
            OrchCommand::KillExplorer => (self.kill_explorer(), None),
            OrchCommand::MoveToPlanet { has_sender, planet_id } => (self.move_to_planet(has_sender, planet_id), None),
            OrchCommand::CurrentPlanetRequest => (self.current_planet_request(), None),
            OrchCommand::SupportedResourceRequest => (self.supported_resource_request(), None),
            OrchCommand::SupportedCombinationRequest => (self.supported_combination_request(), None),
            OrchCommand::GenerateResourceRequest { to_generate } => (
                self.generate_resource_request(to_generate, true),
                None,
            ),
            OrchCommand::CombineResourceRequest { to_generate } => (
                self.combine_resource_request(to_generate, true),
                None,
            ),
            OrchCommand::BagContentRequest => (self.bag_content_request(), None),
            OrchCommand::NeighborsResponse { neighbors } => {
                let known = self.neighbours_response(neighbors);
                (self.reply_none(), Some(known))
            },
        }
    }

    /// Handles a planet message that the state answers; see
    /// `planet_reply_step`.
    pub fn handle_planet_message(&mut self, reply: PlanetReply<T>) -> (r: (Reaction<T>, Option<EnergyReading>))
        ensures
            planet_reply_step(*old(self), *final(self), reply, r.0, r.1),
    {
        match reply {
            PlanetReply::SupportedResourceResponse { resource_list } => (
                self.manage_supported_resource_response(resource_list),
                None,
            ),
            PlanetReply::SupportedCombinationResponse { combination_list } => (
                self.manage_supported_combination_response(combination_list),
                None,
            ),
            PlanetReply::GenerateResourceResponse { resource } => (self.manage_generate_response(resource), None),
            PlanetReply::CombineResourceResponse { complex_response } => (
                self.manage_combine_response(complex_response),
                None,
            ),
            PlanetReply::AvailableEnergyCellResponse { available_cells } => {
                let reading = self.manage_available_energy_cell_response(available_cells);
                (self.reply_none(), reading)
            },
            PlanetReply::Stopped => {
                self.planet_stopped();
                (self.reply_none(), None)
            },
        }
    }

    /// Puts a basic resource handed over by a planet, if any, in the bag.
    pub fn put_basic_resource_in_the_bag(&mut self, resource: Option<(BasicKind, T)>)
        ensures
            *final(self) == (ExplorerCore { bag: final(self).bag, ..*old(self) }),
            match resource {
                Some((k, x)) => inserted(old(self).bag, final(self).bag, ResourceKind::Basic(k), x),
                None => same_items(final(self).bag, old(self).bag),
            },
    {
        match resource {
            Some((k, x)) => self.bag.insert(ResourceKind::Basic(k), x),
            None => {},
        }
    }

    /// Puts a complex resource made by a planet, if it was made, in the bag;
    /// a failed combination puts nothing in.
    pub fn put_complex_resource_in_the_bag<E>(&mut self, complex_response: Result<(ComplexKind, T), E>)
        ensures
            *final(self) == (ExplorerCore { bag: final(self).bag, ..*old(self) }),
            match complex_response {
                Ok((k, x)) => inserted(old(self).bag, final(self).bag, ResourceKind::Complex(k), x),
                Err(_) => same_items(final(self).bag, old(self).bag),
            },
    {
        match complex_response {
            Ok((k, x)) => self.bag.insert(ResourceKind::Complex(k), x),
            Err(_) => {},
        }
    }

    /// The requests a surveying explorer sends its planet, each failure an
    /// error that leaves it surveying; see `survey_requests`. An explorer in
    /// any other state has nothing to survey: that is an error, and nothing
    /// is sent.
    fn gather_info_from_planet(&self) -> (r: Result<Reaction<T>, GatherError>)
        ensures
            !(self.state is Surveying) ==> r == Err::<Reaction<T>, GatherError>(GatherError::NotSurveying(self.state)),
            self.state is Surveying ==> (r matches Ok(reaction) && {
                &&& reaction.sends@ == requests_of::<T>(self.explorer_id, self.state)
                &&& reaction.failure_is_error
                &&& reaction.state_if_undelivered == self.state
                &&& reaction.error is None
            }),
    {
        let mut sends: Vec<Outgoing<T>> = Vec::new();
        match self.state {
            ExplorerState::Surveying { resources, combinations, energy_cells, .. } => {
                let id = self.explorer_id;
                if resources {
                    sends.push(Outgoing::ToPlanet(ToPlanet::SupportedResourceRequest { explorer_id: id }));
                }
                if combinations {
                    sends.push(Outgoing::ToPlanet(ToPlanet::SupportedCombinationRequest { explorer_id: id }));
                }
                if energy_cells {
                    sends.push(Outgoing::ToPlanet(ToPlanet::AvailableEnergyCellRequest { explorer_id: id }));
                }
                proof {
                    assert(sends@ =~= survey_requests::<T>(id, resources, combinations, energy_cells));
                }
            },
            _ => {
                return Err(GatherError::NotSurveying(self.state));
            },
        }
        Ok(Reaction { sends, failure_is_error: true, state_if_undelivered: self.state, error: None })
    }

    /// The survey requests of an explorer that was just set to survey.
    fn survey(&self) -> (r: Reaction<T>)
        requires
            self.state is Surveying,
        ensures
            r.sends@ == requests_of::<T>(self.explorer_id, self.state),
            r.failure_is_error,
            r.state_if_undelivered == self.state,
            r.error is None,
    {
        match self.gather_info_from_planet() {
            Ok(r) => r,
            Err(_) => self.reply_none(),
        }
    }

    /// A reaction that sends nothing.
    fn reply_none(&self) -> (r: Reaction<T>)
        ensures
            sends_nothing(r),
            r.failure_is_error,
            r.state_if_undelivered == self.state,
    {
        Reaction { sends: Vec::new(), failure_is_error: true, state_if_undelivered: self.state, error: None }
    }

    /// A reaction that sends one message; a failure to send it is an error
    /// and leaves the explorer as it is now.
    fn reply_one(&self, msg: Outgoing<T>) -> (r: Reaction<T>)
        ensures
            sends_one(r, msg, self.state),
    {
        let mut sends: Vec<Outgoing<T>> = Vec::new();
        sends.push(msg);
        proof {
            assert(sends@ =~= seq![msg]);
        }
        Reaction { sends, failure_is_error: true, state_if_undelivered: self.state, error: None }
    }
}

} // verus!
