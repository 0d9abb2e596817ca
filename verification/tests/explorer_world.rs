use std::collections::{HashMap, VecDeque};

use omc_galaxy::explorer_core::{ExplorerCore, OrchCommand, Outgoing, PlanetReply, Reaction, ToPlanet};
use omc_galaxy::galaxy_file::PlanetType;
use omc_galaxy::orchestrator::Orchestrator;
use omc_galaxy::orchestrator_rules::{ExplorerEvent, OrchAction, PlanetEvent};
use omc_galaxy::planet_lifecycle::StartupEvent;
use omc_galaxy::registry::{ExplorerInfo, Status};
use omc_galaxy::resources::{BasicKind, BasicSet, ComplexKind, ComplexSet, ResourceKind};

/// A planet as the explorer sees it: what it can make and how many charged
/// cells it has.
struct SimPlanet {
    basic: BasicSet,
    complex: ComplexSet,
    charged: u32,
}

/// One explorer, the orchestrator and the planets, with every message
/// delivered in the order it was sent.
struct World {
    orch: Orchestrator,
    explorer: ExplorerCore<u32>,
    planets: HashMap<u32, SimPlanet>,
    /// The kind of every resource handed out, by token.
    kinds: HashMap<u32, ResourceKind>,
    next_token: u32,
    to_orch: VecDeque<ExplorerEvent>,
    to_explorer: VecDeque<OrchCommand>,
    from_planet: VecDeque<PlanetReply<u32>>,
    /// Every event the orchestrator got from the explorer.
    seen: Vec<ExplorerEvent>,
}

fn basic(kinds: &[BasicKind]) -> BasicSet {
    let mut s = BasicSet::empty();
    for k in kinds {
        s.insert(*k);
    }
    s
}

fn complex(kinds: &[ComplexKind]) -> ComplexSet {
    let mut s = ComplexSet::empty();
    for k in kinds {
        s.insert(*k);
    }
    s
}

impl World {
    /// A galaxy from a topology file, every planet started, and an explorer
    /// on `planet_id`, registered as paused as it is when it is added.
    fn new(topology: &str, planets: Vec<(u32, SimPlanet)>, explorer_id: u32, planet_id: u32) -> World {
        let mut orch = Orchestrator::new();
        assert!(Orchestrator::galaxy_content_fits(topology));
        orch.initialize_galaxy_by_content(topology).unwrap();
        for (id, _) in &planets {
            orch.planets_info.insert_status(*id, PlanetType::OneMillionCrabs, Status::Paused);
        }
        let mut startup = orch.begin_planet_startup();
        for (id, _) in &planets {
            orch.advance_planet_startup(&mut startup, StartupEvent::Started { planet_id: *id }).unwrap();
        }
        assert!(startup.is_done());
        orch.explorers_info.insert(explorer_id, ExplorerInfo::from(explorer_id, Status::Paused, vec![], planet_id));
        World {
            orch,
            explorer: ExplorerCore::new(explorer_id, planet_id),
            planets: planets.into_iter().collect(),
            kinds: HashMap::new(),
            next_token: 0,
            to_orch: VecDeque::new(),
            to_explorer: VecDeque::new(),
            from_planet: VecDeque::new(),
            seen: Vec::new(),
        }
    }

    fn sunrays(&mut self, planet_id: u32, n: u32) {
        self.planets.get_mut(&planet_id).unwrap().charged += n;
    }

    fn token(&mut self, kind: ResourceKind) -> u32 {
        let t = self.next_token;
        self.next_token += 1;
        self.kinds.insert(t, kind);
        t
    }

    /// The explorer's planet answers one of its requests.
    fn planet_answers(&mut self, req: ToPlanet<u32>) {
        let planet_id = self.explorer.planet_id;
        let reply = match req {
            ToPlanet::SupportedResourceRequest { .. } => {
                PlanetReply::SupportedResourceResponse { resource_list: self.planets[&planet_id].basic }
            },
            ToPlanet::SupportedCombinationRequest { .. } => {
                PlanetReply::SupportedCombinationResponse { combination_list: self.planets[&planet_id].complex }
            },
            ToPlanet::AvailableEnergyCellRequest { .. } => {
                PlanetReply::AvailableEnergyCellResponse { available_cells: self.planets[&planet_id].charged }
            },
            ToPlanet::GenerateResourceRequest { resource, .. } => {
                let p = self.planets.get_mut(&planet_id).unwrap();
                if p.charged > 0 && p.basic.contains(resource) {
                    p.charged -= 1;
                    let t = self.token(ResourceKind::Basic(resource));
                    PlanetReply::GenerateResourceResponse { resource: Some((resource, t)) }
                } else {
                    PlanetReply::GenerateResourceResponse { resource: None }
                }
            },
            ToPlanet::CombineResourceRequest { resource, first, second, .. } => {
                let p = self.planets.get_mut(&planet_id).unwrap();
                if p.charged > 0 && p.complex.contains(resource) {
                    p.charged -= 1;
                    let t = self.token(ResourceKind::Complex(resource));
                    PlanetReply::CombineResourceResponse { complex_response: Ok((resource, t)) }
                } else {
                    let k1 = self.kinds[&first];
                    let k2 = self.kinds[&second];
                    PlanetReply::CombineResourceResponse { complex_response: Err(((k1, first), (k2, second))) }
                }
            },
        };
        self.from_planet.push_back(reply);
    }

    fn react(&mut self, reaction: Reaction<u32>) {
        for s in reaction.sends {
            match s {
                Outgoing::ToOrchestrator(e) => self.to_orch.push_back(e),
                Outgoing::ToPlanet(req) => self.planet_answers(req),
            }
        }
    }

    /// The orchestrator's messages: to the explorer, or to a planet, which
    /// lets the explorer in or out at once.
    fn perform(&mut self, actions: Vec<OrchAction>) {
        for a in actions {
            match a {
                OrchAction::KillPlanet { .. } => {},
                OrchAction::KillExplorer { .. } => self.to_explorer.push_back(OrchCommand::KillExplorer),
                OrchAction::RefuseMove { planet_id, .. } => {
                    self.to_explorer.push_back(OrchCommand::MoveToPlanet { has_sender: false, planet_id })
                },
                OrchAction::MoveExplorer { planet_id, .. } => {
                    self.to_explorer.push_back(OrchCommand::MoveToPlanet { has_sender: true, planet_id })
                },
                OrchAction::OutgoingExplorer { planet_id, explorer_id } => {
                    self.planet_event(PlanetEvent::OutgoingExplorerResponse { planet_id, explorer_id, accepted: true })
                },
                OrchAction::IncomingExplorer { planet_id, explorer_id } => {
                    self.planet_event(PlanetEvent::IncomingExplorerResponse { planet_id, explorer_id, accepted: true })
                },
                OrchAction::AskBagContent { .. } => self.to_explorer.push_back(OrchCommand::BagContentRequest),
                OrchAction::SendNeighbours { neighbors, .. } => {
                    self.to_explorer.push_back(OrchCommand::NeighborsResponse { neighbors })
                },
                OrchAction::AskCurrentPlanet { .. } => self.to_explorer.push_back(OrchCommand::CurrentPlanetRequest),
            }
        }
    }

    fn planet_event(&mut self, e: PlanetEvent) {
        assert!(self.orch.planet_event_is_admissible(&e));
        let (actions, outcome) = self.orch.handle_planet_message(e);
        outcome.unwrap();
        self.perform(actions);
    }

    /// The orchestrator sends the explorer a command.
    fn send(&mut self, cmd: OrchCommand) {
        self.to_explorer.push_back(cmd);
    }

    /// The orchestrator asks the explorer to travel to a planet, as the
    /// travel protocol does: the destination is recorded and asked to let the
    /// explorer in.
    fn travel(&mut self, dst_planet_id: u32) {
        let explorer_id = self.explorer.explorer_id;
        assert!(self.orch.explorers_info.set_move_to_planet(explorer_id, dst_planet_id as i32));
        self.perform(vec![OrchAction::IncomingExplorer { planet_id: dst_planet_id, explorer_id }]);
        self.drain();
    }

    /// Delivers messages until none is left and no buffered one can be
    /// answered.
    fn drain(&mut self) {
        loop {
            if let Some(e) = self.to_orch.pop_front() {
                self.seen.push(e.clone_event());
                let (actions, outcome) = self.orch.handle_explorer_message(e);
                outcome.unwrap();
                self.perform(actions);
            } else if let Some(cmd) = self.to_explorer.pop_front() {
                if let Some(cmd) = self.explorer.accept_orchestrator_message(cmd) {
                    let (reaction, _) = self.explorer.handle_orchestrator_message(cmd);
                    self.react(reaction);
                }
            } else if let Some(reply) = self.from_planet.pop_front() {
                if let Some(reply) = self.explorer.accept_planet_message(reply) {
                    let (reaction, _) = self.explorer.handle_planet_message(reply);
                    self.react(reaction);
                }
            } else if let Some(cmd) = self.explorer.next_buffered_orchestrator_msg() {
                let (reaction, _) = self.explorer.handle_orchestrator_message(cmd);
                self.react(reaction);
            } else if let Some(reply) = self.explorer.next_buffered_planet_msg() {
                let (reaction, _) = self.explorer.handle_planet_message(reply);
                self.react(reaction);
            } else {
                break;
            }
        }
    }

    fn bag(&self) -> Vec<ResourceKind> {
        self.orch.explorers_info.get(&self.explorer.explorer_id).unwrap().bag.clone()
    }

    fn current_planet(&self) -> u32 {
        self.orch.explorers_info.get_current_planet(&self.explorer.explorer_id).unwrap()
    }
}

trait CloneEvent {
    fn clone_event(&self) -> ExplorerEvent;
}

impl CloneEvent for ExplorerEvent {
    /// The events the tests look at, copied; others become a bag report of
    /// nothing.
    fn clone_event(&self) -> ExplorerEvent {
        match self {
            ExplorerEvent::SupportedResourceResult { explorer_id, supported_resources } => {
                ExplorerEvent::SupportedResourceResult { explorer_id: *explorer_id, supported_resources: *supported_resources }
            },
            ExplorerEvent::SupportedCombinationResult { explorer_id, combination_list } => {
                ExplorerEvent::SupportedCombinationResult { explorer_id: *explorer_id, combination_list: *combination_list }
            },
            ExplorerEvent::GenerateResourceResponse { explorer_id, generated } => {
                ExplorerEvent::GenerateResourceResponse { explorer_id: *explorer_id, generated: generated.clone() }
            },
            ExplorerEvent::CombineResourceResponse { explorer_id, generated } => {
                ExplorerEvent::CombineResourceResponse { explorer_id: *explorer_id, generated: generated.clone() }
            },
            other => ExplorerEvent::BagContentResponse { explorer_id: other.explorer_id(), bag_content: vec![] },
        }
    }
}

fn one_million_crabs() -> SimPlanet {
    SimPlanet {
        basic: basic(&[BasicKind::Silicon, BasicKind::Carbon, BasicKind::Hydrogen, BasicKind::Oxygen]),
        complex: complex(&[]),
        charged: 0,
    }
}

fn black_adidas_shoe() -> SimPlanet {
    SimPlanet { basic: basic(&[BasicKind::Hydrogen, BasicKind::Carbon, BasicKind::Oxygen]), complex: complex(&[]), charged: 0 }
}

fn diamond_maker() -> SimPlanet {
    SimPlanet { basic: basic(&[BasicKind::Carbon]), complex: complex(&[ComplexKind::Diamond, ComplexKind::Water]), charged: 0 }
}

fn single_planet(planet: SimPlanet) -> World {
    World::new("0,0\n", vec![(0, planet)], 0, 0)
}

/// A triangle of planets, the explorer on the first.
fn triangle(explorer_id: u32) -> World {
    World::new(
        "0,0,1,2\n1,6,0,2\n2,0,0,1\n",
        vec![(0, black_adidas_shoe()), (1, diamond_maker()), (2, black_adidas_shoe())],
        explorer_id,
        0,
    )
}

fn count(bag: &[ResourceKind], k: ResourceKind) -> usize {
    bag.iter().filter(|r| **r == k).count()
}

#[test]
fn supported_resource_then_combination_request() {
    let mut w = single_planet(one_million_crabs());
    w.send(OrchCommand::SupportedResourceRequest);
    w.send(OrchCommand::SupportedCombinationRequest);
    w.drain();
    let res_response = w.seen.iter().any(|e| matches!(e, ExplorerEvent::SupportedResourceResult { .. }));
    let comb_response = w.seen.iter().any(|e| matches!(e, ExplorerEvent::SupportedCombinationResult { .. }));
    let info = w.orch.planets_info.get_info(0).unwrap();
    assert!(comb_response, "SupportedCombinationResult not received");
    assert!(res_response, "SupportedResourceResult not received");
    assert!(info.supported_resources.is_some());
    assert!(info.supported_combination.is_some());
}

#[test]
fn generate_resource_request_silicon() {
    let mut w = single_planet(one_million_crabs());
    w.sunrays(0, 5);
    w.send(OrchCommand::GenerateResourceRequest { to_generate: BasicKind::Silicon });
    w.drain();
    // after the generate response the orchestrator asks for the bag content
    assert!(w.bag().contains(&ResourceKind::Basic(BasicKind::Silicon)));
}

#[test]
fn generate_multiple_resources_sequentially() {
    let mut w = single_planet(black_adidas_shoe());
    w.sunrays(0, 5);
    for k in [BasicKind::Hydrogen, BasicKind::Carbon, BasicKind::Oxygen] {
        w.send(OrchCommand::GenerateResourceRequest { to_generate: k });
    }
    w.drain();
    let bag = w.bag();
    assert!(bag.contains(&ResourceKind::Basic(BasicKind::Hydrogen)));
    assert!(bag.contains(&ResourceKind::Basic(BasicKind::Carbon)));
    assert!(bag.contains(&ResourceKind::Basic(BasicKind::Oxygen)));
}

#[test]
fn generate_resource_without_energy() {
    let mut w = single_planet(black_adidas_shoe());
    w.send(OrchCommand::GenerateResourceRequest { to_generate: BasicKind::Hydrogen });
    w.drain();
    let mut response = false;
    for e in &w.seen {
        if let ExplorerEvent::GenerateResourceResponse { generated, .. } = e {
            response = true;
            assert!(generated.is_err());
        }
    }
    assert!(response, "GeneratedResourceResponse not received");
    assert!(w.bag().is_empty());
}

#[test]
fn combine_resource_with_only_an_ingredient() {
    let mut w = single_planet(diamond_maker());
    w.planets.get_mut(&0).unwrap().basic.insert(BasicKind::Hydrogen);
    w.sunrays(0, 5);
    w.send(OrchCommand::GenerateResourceRequest { to_generate: BasicKind::Hydrogen });
    w.drain();
    w.seen.clear();
    // water needs oxygen too
    w.send(OrchCommand::CombineResourceRequest { to_generate: ComplexKind::Water });
    w.send(OrchCommand::BagContentRequest);
    w.drain();
    let mut response = false;
    for e in &w.seen {
        if let ExplorerEvent::CombineResourceResponse { generated, .. } = e {
            response = true;
            assert!(generated.is_err());
        }
    }
    assert!(response, "GeneratedResourceResponse not received");
    assert!(w.bag().contains(&ResourceKind::Basic(BasicKind::Hydrogen)));
}

#[test]
fn generate_then_combine_diamond() {
    let mut w = triangle(0);
    w.sunrays(0, 2);
    w.sunrays(1, 5);
    for _ in 0..2 {
        w.send(OrchCommand::GenerateResourceRequest { to_generate: BasicKind::Carbon });
    }
    w.drain();
    // move to a planet that can make diamonds
    w.travel(1);
    w.send(OrchCommand::CombineResourceRequest { to_generate: ComplexKind::Diamond });
    w.drain();
    let bag = w.bag();
    assert!(bag.contains(&ResourceKind::Complex(ComplexKind::Diamond)));
    assert!(!bag.contains(&ResourceKind::Basic(BasicKind::Carbon)), "it should have consumed all the carbon");
}

#[test]
fn bag_content_request_after_resource_generation() {
    let mut w = single_planet(one_million_crabs());
    w.sunrays(0, 5);
    w.send(OrchCommand::GenerateResourceRequest { to_generate: BasicKind::Hydrogen });
    w.drain();
    w.send(OrchCommand::BagContentRequest);
    w.drain();
    assert_eq!(w.bag(), vec![ResourceKind::Basic(BasicKind::Hydrogen)]);
}

#[test]
fn move_to_multiple_planets_in_sequence() {
    let mut w = triangle(10);
    for dst in [1, 2, 0] {
        w.travel(dst);
        w.send(OrchCommand::CurrentPlanetRequest);
        w.drain();
        assert_eq!(w.current_planet(), dst);
    }
}

#[test]
fn generate_resource_on_second_planet_after_move() {
    let mut w = World::new("0,0,1\n1,4,0\n", vec![(0, black_adidas_shoe()), (1, one_million_crabs())], 10, 0);
    w.sunrays(1, 1);
    w.drain();
    w.travel(1);
    w.send(OrchCommand::CurrentPlanetRequest);
    w.drain();
    assert_eq!(w.current_planet(), 1);
    w.send(OrchCommand::GenerateResourceRequest { to_generate: BasicKind::Silicon });
    w.send(OrchCommand::BagContentRequest);
    w.drain();
    assert!(w.bag().contains(&ResourceKind::Basic(BasicKind::Silicon)));
}

#[test]
fn rapid_generate_requests() {
    let mut w = single_planet(black_adidas_shoe());
    w.sunrays(0, 5);
    for _ in 0..5 {
        w.send(OrchCommand::GenerateResourceRequest { to_generate: BasicKind::Carbon });
    }
    w.drain();
    w.send(OrchCommand::BagContentRequest);
    w.drain();
    assert_eq!(count(&w.bag(), ResourceKind::Basic(BasicKind::Carbon)), 5);
}
