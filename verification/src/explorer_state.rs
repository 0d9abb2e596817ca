//! The explorer's state machine: its states, which incoming message each
//! state answers at once (the others wait in a buffer), and what the
//! explorer knows of each planet it has heard of.
use vstd::prelude::*;
use crate::resources::{BasicSet, ComplexSet};

verus! {

/// What the explorer is doing.
#[derive(Clone, Copy, Debug, PartialEq, Eq, Structural)]
pub enum ExplorerState {
    Idle,
    WaitingForNeighbours,
    Traveling,
    GeneratingResource { orchestrator_response: bool },
    CombiningResources { orchestrator_response: bool },
    /// Asking the planet for what is still `true`; the `orch_` flags mark
    /// answers that the orchestrator waits for too.
    Surveying {
        resources: bool,
        combinations: bool,
        energy_cells: bool,
        orch_resource: bool,
        orch_combination: bool,
    },
    Killed,
}

/// The kinds of message the orchestrator sends an explorer.
#[derive(Clone, Copy, Debug, PartialEq, Eq, Structural)]
pub enum OrchMsgKind {
    StartExplorerAI,
    ResetExplorerAI,
    StopExplorerAI,
    KillExplorer,
    MoveToPlanet,
    CurrentPlanetRequest,
    SupportedResourceRequest,
    SupportedCombinationRequest,
    GenerateResourceRequest,
    CombineResourceRequest,
    BagContentRequest,
    NeighborsResponse,
}

/// The kinds of message a planet sends an explorer.
#[derive(Clone, Copy, Debug, PartialEq, Eq, Structural)]
pub enum PlanetMsgKind {
    SupportedResourceResponse,
    SupportedCombinationResponse,
    GenerateResourceResponse,
    CombineResourceResponse,
    AvailableEnergyCellResponse,
    Stopped,
}

/// Whether the explorer answers an orchestrator message at once: an idle
/// explorer answers anything; one waiting for its neighbours answers the
/// neighbours; a travelling one answers the move; anyone answers a kill.
pub open spec fn orch_match(state: ExplorerState, msg: OrchMsgKind) -> bool {
    ||| state == ExplorerState::Idle
    ||| state == ExplorerState::WaitingForNeighbours && msg == OrchMsgKind::NeighborsResponse
    ||| state == ExplorerState::Traveling && msg == OrchMsgKind::MoveToPlanet
    ||| msg == OrchMsgKind::KillExplorer
}

/// Whether the explorer answers a planet message at once: an idle explorer
/// answers anything; one generating or combining answers the planet's
/// result; one surveying answers what it still asks for.
pub open spec fn planet_match(state: ExplorerState, msg: PlanetMsgKind) -> bool {
    match state {
        ExplorerState::Idle => true,
        ExplorerState::GeneratingResource { .. } => msg == PlanetMsgKind::GenerateResourceResponse,
        ExplorerState::CombiningResources { .. } => msg == PlanetMsgKind::CombineResourceResponse,
        ExplorerState::Surveying { resources, combinations, energy_cells, .. } => {
            ||| resources && msg == PlanetMsgKind::SupportedResourceResponse
            ||| combinations && msg == PlanetMsgKind::SupportedCombinationResponse
            ||| energy_cells && msg == PlanetMsgKind::AvailableEnergyCellResponse
        },
        _ => false,
    }
}

/// Whether the orchestrator message is the one the state expects; see
/// `orch_match`.
pub fn orch_msg_match_state(explorer_state: &ExplorerState, msg: OrchMsgKind) -> (b: bool)
    ensures
        b == orch_match(*explorer_state, msg),
{
    match (explorer_state, msg) {
        (ExplorerState::Idle, _) => true,
        (ExplorerState::WaitingForNeighbours, OrchMsgKind::NeighborsResponse) => true,
        (ExplorerState::Traveling, OrchMsgKind::MoveToPlanet) => true,
        (_, OrchMsgKind::KillExplorer) => true,
        _ => false,
    }
}

/// Whether the planet message is the one the state expects; see
/// `planet_match`.
pub fn planet_msg_match_state(explorer_state: &ExplorerState, msg: PlanetMsgKind) -> (b: bool)
    ensures
        b == planet_match(*explorer_state, msg),
{
    match (explorer_state, msg) {
        (ExplorerState::Idle, _) => true,
        (ExplorerState::GeneratingResource { .. }, PlanetMsgKind::GenerateResourceResponse) => true,
        (ExplorerState::CombiningResources { .. }, PlanetMsgKind::CombineResourceResponse) => true,
        (ExplorerState::Surveying { resources: true, .. }, PlanetMsgKind::SupportedResourceResponse) => true,
        (ExplorerState::Surveying { combinations: true, .. }, PlanetMsgKind::SupportedCombinationResponse) => true,
        (ExplorerState::Surveying { energy_cells: true, .. }, PlanetMsgKind::AvailableEnergyCellResponse) => true,
        _ => false,
    }
}

/// The class of planet an explorer infers from what a planet supports.
#[derive(Clone, Copy, Debug, PartialEq, Eq, Structural)]
pub enum PlanetClassType {
    A,
    B,
    C,
    D,
}

impl PlanetClassType {
    /// Whether a planet of the class can build a rocket: classes A and C.
    pub fn can_have_rocket(&self) -> (b: bool)
        ensures
            b == (*self == PlanetClassType::A || *self == PlanetClassType::C),
    {
        match self {
            PlanetClassType::A => true,
            PlanetClassType::B => false,
            PlanetClassType::C => true,
            PlanetClassType::D => false,
        }
    }

    /// How many energy cells a planet of the class has: five for A and D,
    /// one for B and C.
    pub fn max_energy_cells(&self) -> (n: u32)
        ensures
            n == (if *self == PlanetClassType::A || *self == PlanetClassType::D {
                5u32
            } else {
                1u32
            }),
    {
        match self {
            PlanetClassType::A => 5,
            PlanetClassType::B => 1,
            PlanetClassType::C => 1,
            PlanetClassType::D => 5,
        }
    }
}

/// The class inferred from the numbers of basic and complex resources a
/// planet supports: more than one combination, C; exactly one, B (more
/// likely than C); none but more than one basic resource, D; else A (more
/// likely than D).
pub open spec fn inferred_class(basic_len: nat, complex_len: nat) -> PlanetClassType {
    if complex_len > 1 {
        PlanetClassType::C
    } else if complex_len == 1 {
        PlanetClassType::B
    } else if basic_len > 1 {
        PlanetClassType::D
    } else {
        PlanetClassType::A
    }
}

/// Why the class of a planet cannot be inferred yet.
#[derive(Clone, Copy, Debug, PartialEq, Eq, Structural)]
pub enum SurveyError {
    /// The planet's basic resources are not known.
    BasicResourcesUnknown,
    /// The planet's combinations are not known.
    ComplexResourcesUnknown,
}

/// What an explorer's reading of a planet's energy cells tells the charge
/// rate estimate.
#[derive(Clone, Copy, Debug, PartialEq, Eq, Structural)]
pub enum EnergyReading {
    /// The first reading: no rate can be estimated.
    FirstReading,
    /// A reading in the same tick as the last one: no rate can be estimated.
    SameTick,
    /// `elapsed` ticks after a reading of `previous` cells.
    Elapsed { elapsed: u64, previous: u32 },
}

/// What the explorer knows of a planet, but for its estimates (the charge
/// rate and the safety score, which the explorer's AI keeps).
#[derive(Debug)]
pub struct SurveyedPlanet {
    pub basic_resources: Option<BasicSet>,
    pub complex_resources: Option<ComplexSet>,
    /// The planet's neighbours, as the orchestrator last listed them.
    pub neighbors: Option<Vec<u32>>,
    pub energy_cells: Option<u32>,
    /// The tick of the last neighbour list.
    pub timestamp_neighbors: u64,
    /// The tick of the last energy reading.
    pub timestamp_energy: u64,
    pub inferred_planet_type: Option<PlanetClassType>,
}

/// A planet heard of at tick `time`, of which nothing is known yet.
pub open spec fn fresh_planet(time: u64) -> SurveyedPlanet {
    SurveyedPlanet {
        basic_resources: None,
        complex_resources: None,
        neighbors: None,
        energy_cells: None,
        timestamp_neighbors: time,
        timestamp_energy: time,
        inferred_planet_type: None,
    }
}

/// The record after an energy reading of `current` cells at tick `now`, and
/// what the reading tells the charge rate estimate.
pub open spec fn after_reading(p: SurveyedPlanet, current: u32, now: u64) -> (SurveyedPlanet, EnergyReading) {
    if p.timestamp_energy == 0 || p.energy_cells is None {
        (SurveyedPlanet { energy_cells: Some(current), timestamp_energy: now, ..p }, EnergyReading::FirstReading)
    } else if now <= p.timestamp_energy {
        (SurveyedPlanet { energy_cells: Some(current), ..p }, EnergyReading::SameTick)
    } else {
        (
            SurveyedPlanet { energy_cells: Some(current), timestamp_energy: now, ..p },
            EnergyReading::Elapsed { elapsed: (now - p.timestamp_energy) as u64, previous: p.energy_cells->0 },
        )
    }
}

impl SurveyedPlanet {
    /// A planet heard of at tick `time`.
    pub fn new(time: u64) -> (p: SurveyedPlanet)
        ensures
            p == fresh_planet(time),
    {
        SurveyedPlanet {
            basic_resources: None,
            complex_resources: None,
            neighbors: None,
            energy_cells: None,
            timestamp_neighbors: time,
            timestamp_energy: time,
            inferred_planet_type: None,
        }
    }

    /// Records a reading of the planet's energy cells and says what it tells
    /// the charge rate estimate; see `after_reading`.
    pub fn record_energy(&mut self, current_energy: u32, current_time: u64) -> (r: EnergyReading)
        ensures
            (*final(self), r) == after_reading(*old(self), current_energy, current_time),
    {
        if self.timestamp_energy == 0 || self.energy_cells.is_none() {
            self.energy_cells = Some(current_energy);
            self.timestamp_energy = current_time;
            return EnergyReading::FirstReading;
        }
        let elapsed = current_time.saturating_sub(self.timestamp_energy);
        if elapsed == 0 {
            self.energy_cells = Some(current_energy);
            return EnergyReading::SameTick;
        }
        let previous = match self.energy_cells {
            Some(e) => e,
            None => current_energy,
        };
        self.energy_cells = Some(current_energy);
        self.timestamp_energy = current_time;
        EnergyReading::Elapsed { elapsed, previous }
    }

    /// Infers the planet's class from what it supports; see
    /// `inferred_class`. Where either list is unknown nothing changes and
    /// the error says which (the basic resources first).
    pub fn calculate_planet_type(&mut self) -> (r: Result<(), SurveyError>)
        ensures
            match (old(self).basic_resources, old(self).complex_resources) {
                (None, _) => r == Err::<(), SurveyError>(SurveyError::BasicResourcesUnknown) && *final(self)
                    == *old(self),
                (_, None) => r == Err::<(), SurveyError>(SurveyError::ComplexResourcesUnknown) && *final(self)
                    == *old(self),
                (Some(b), Some(c)) => r is Ok && *final(self) == SurveyedPlanet {
                    inferred_planet_type: Some(inferred_class(b.size(), c.size())),
                    ..*old(self)
                },
            },
    {
        let (base_len, comp_len) = match (&self.basic_resources, &self.complex_resources) {
            (None, _) => {
                return Err(SurveyError::BasicResourcesUnknown);
            },
            (_, None) => {
                return Err(SurveyError::ComplexResourcesUnknown);
            },
            (Some(b), Some(c)) => (b.len(), c.len()),
        };
        if comp_len > 1 {
            self.inferred_planet_type = Some(PlanetClassType::C);
        } else if comp_len == 1 {
            self.inferred_planet_type = Some(PlanetClassType::B);
        } else if base_len > 1 {
            self.inferred_planet_type = Some(PlanetClassType::D);
        } else {
            self.inferred_planet_type = Some(PlanetClassType::A);
        }
        Ok(())
    }
}

} // verus!
