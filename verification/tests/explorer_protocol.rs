use omc_galaxy::explorer_core::{ExplorerCore, OrchCommand, Outgoing, PlanetReply, ToPlanet};
use omc_galaxy::explorer_state::ExplorerState;
use omc_galaxy::galaxy_file::PlanetType;
use omc_galaxy::orchestrator::Orchestrator;
use omc_galaxy::orchestrator_rules::{ExplorerEvent, OrchAction};
use omc_galaxy::planet_lifecycle::StartupEvent;
use omc_galaxy::registry::{ExplorerInfo, Status};
use omc_galaxy::resources::{BasicKind, BasicSet, ComplexKind, ComplexSet};

/// An orchestrator with one planet of the given type, started, and an
/// explorer on it, registered as paused as it is when it is added.
fn setup_orch_with_explorer(
    planet_type: PlanetType,
    planet_id: u32,
    explorer_id: u32,
) -> (Orchestrator, ExplorerCore<u32>) {
    let mut orch = Orchestrator::new();
    let topology = format!("{},{}\n", planet_id, planet_type.code());
    assert!(Orchestrator::galaxy_content_fits(&topology));
    orch.initialize_galaxy_by_content(&topology).unwrap();
    orch.planets_info.insert_status(planet_id, planet_type, Status::Paused);
    start_all_planet_ais(&mut orch);
    add_explorer(&mut orch, explorer_id, planet_id);
    (orch, ExplorerCore::new(explorer_id, planet_id))
}

fn add_explorer(orch: &mut Orchestrator, explorer_id: u32, planet_id: u32) {
    orch.explorers_info.insert(explorer_id, ExplorerInfo::from(explorer_id, Status::Paused, vec![], planet_id));
}

/// Every planet answers at once that its AI started.
fn start_all_planet_ais(orch: &mut Orchestrator) {
    let mut startup = orch.begin_planet_startup();
    for id in orch.planets_info.get_list_id_alive() {
        orch.advance_planet_startup(&mut startup, StartupEvent::Started { planet_id: id }).unwrap();
    }
    assert!(startup.is_done());
}

/// Delivers an orchestrator message to the explorer and returns what the
/// explorer sends the orchestrator.
fn deliver(explorer: &mut ExplorerCore<u32>, cmd: OrchCommand) -> Vec<ExplorerEvent> {
    let mut out = Vec::new();
    if let Some(cmd) = explorer.accept_orchestrator_message(cmd) {
        let (reaction, _) = explorer.handle_orchestrator_message(cmd);
        for s in reaction.sends {
            if let Outgoing::ToOrchestrator(e) = s {
                out.push(e);
            }
        }
    }
    out
}

/// Delivers a planet message to the explorer and returns what the explorer
/// sends the orchestrator.
fn deliver_reply(explorer: &mut ExplorerCore<u32>, reply: PlanetReply<u32>) -> Vec<ExplorerEvent> {
    let mut out = Vec::new();
    if let Some(reply) = explorer.accept_planet_message(reply) {
        let (reaction, _) = explorer.handle_planet_message(reply);
        for s in reaction.sends {
            if let Outgoing::ToOrchestrator(e) = s {
                out.push(e);
            }
        }
    }
    out
}

fn drain_messages(orch: &mut Orchestrator, events: Vec<ExplorerEvent>) -> Vec<OrchAction> {
    let mut actions = Vec::new();
    for e in events {
        let (a, outcome) = orch.handle_explorer_message(e);
        outcome.unwrap();
        actions.extend(a);
    }
    actions
}

#[test]
fn test_spawn_explorer_on_planet() {
    let mut orch = Orchestrator::new();
    orch.initialize_galaxy_by_content("0,0\n").unwrap();
    add_explorer(&mut orch, 0, 0);
    assert_eq!(orch.explorers_info.len(), 1);
    assert!(orch.explorers_info.get(&0).is_some());
}

#[test]
fn start_explorer_ai() {
    let (mut orch, mut explorer) = setup_orch_with_explorer(PlanetType::BlackAdidasShoe, 0, 0);
    assert_eq!(orch.explorers_info.get_status(&0).unwrap(), Status::Paused);
    let events = deliver(&mut explorer, OrchCommand::StartExplorerAI);
    drain_messages(&mut orch, events);
    assert_eq!(orch.explorers_info.get_status(&0).unwrap(), Status::Running);
}

#[test]
fn stop_explorer_ai() {
    let (mut orch, mut explorer) = setup_orch_with_explorer(PlanetType::BlackAdidasShoe, 0, 0);
    let mut events = deliver(&mut explorer, OrchCommand::StartExplorerAI);
    events.extend(deliver(&mut explorer, OrchCommand::StopExplorerAI));
    drain_messages(&mut orch, events);
    assert_eq!(orch.explorers_info.get_status(&0).unwrap(), Status::Paused);
    assert!(explorer.manual_mode);
}

#[test]
fn start_explorer_ai_sets_status_running() {
    let (mut orch, mut explorer) = setup_orch_with_explorer(PlanetType::OneMillionCrabs, 0, 0);
    assert_eq!(orch.explorers_info.get_status(&0).unwrap(), Status::Paused);
    let events = deliver(&mut explorer, OrchCommand::StartExplorerAI);
    drain_messages(&mut orch, events);
    assert_eq!(orch.explorers_info.get_status(&0).unwrap(), Status::Running);
}

#[test]
fn stop_explorer_ai_sets_status_paused() {
    let (mut orch, mut explorer) = setup_orch_with_explorer(PlanetType::OneMillionCrabs, 0, 0);
    let events = deliver(&mut explorer, OrchCommand::StartExplorerAI);
    drain_messages(&mut orch, events);
    assert_eq!(orch.explorers_info.get_status(&0).unwrap(), Status::Running);
    let events = deliver(&mut explorer, OrchCommand::StopExplorerAI);
    drain_messages(&mut orch, events);
    assert_eq!(orch.explorers_info.get_status(&0).unwrap(), Status::Paused);
}

#[test]
fn reset_explorer_ai_receives_result() {
    let (mut orch, mut explorer) = setup_orch_with_explorer(PlanetType::OneMillionCrabs, 0, 0);
    let events = deliver(&mut explorer, OrchCommand::StartExplorerAI);
    drain_messages(&mut orch, events);
    let events = deliver(&mut explorer, OrchCommand::ResetExplorerAI);
    let ack_received = events.iter().any(|e| matches!(e, ExplorerEvent::ResetExplorerAIResult { .. }));
    drain_messages(&mut orch, events);
    assert!(orch.explorers_info.get(&0).is_some());
    assert_eq!(orch.explorers_info.get_status(&0u32).unwrap(), Status::Running);
    assert!(ack_received);
}

#[test]
fn kill_explorer_sets_status_dead() {
    let (mut orch, mut explorer) = setup_orch_with_explorer(PlanetType::OneMillionCrabs, 0, 0);
    let events = deliver(&mut explorer, OrchCommand::KillExplorer);
    drain_messages(&mut orch, events);
    assert_eq!(orch.explorers_info.get_status(&0).unwrap(), Status::Dead);
    assert_eq!(explorer.state, ExplorerState::Killed);
}

#[test]
fn start_stop_start_cycle() {
    let (mut orch, mut explorer) = setup_orch_with_explorer(PlanetType::OneMillionCrabs, 0, 0);
    let events = deliver(&mut explorer, OrchCommand::StartExplorerAI);
    drain_messages(&mut orch, events);
    assert_eq!(orch.explorers_info.get_status(&0).unwrap(), Status::Running);
    let events = deliver(&mut explorer, OrchCommand::StopExplorerAI);
    drain_messages(&mut orch, events);
    assert_eq!(orch.explorers_info.get_status(&0).unwrap(), Status::Paused);
    let events = deliver(&mut explorer, OrchCommand::StartExplorerAI);
    drain_messages(&mut orch, events);
    assert_eq!(orch.explorers_info.get_status(&0).unwrap(), Status::Running);
}

#[test]
fn kill_from_idle() {
    let (mut orch, mut explorer) = setup_orch_with_explorer(PlanetType::OneMillionCrabs, 0, 0);
    let events = deliver(&mut explorer, OrchCommand::KillExplorer);
    drain_messages(&mut orch, events);
    assert_eq!(orch.explorers_info.get_status(&0).unwrap(), Status::Dead);
}

#[test]
fn kill_while_running() {
    let (mut orch, mut explorer) = setup_orch_with_explorer(PlanetType::OneMillionCrabs, 0, 0);
    let events = deliver(&mut explorer, OrchCommand::StartExplorerAI);
    drain_messages(&mut orch, events);
    assert_eq!(orch.explorers_info.get_status(&0).unwrap(), Status::Running);
    let events = deliver(&mut explorer, OrchCommand::KillExplorer);
    drain_messages(&mut orch, events);
    assert_eq!(orch.explorers_info.get_status(&0).unwrap(), Status::Dead);
}

#[test]
fn double_start_explorer_ai() {
    let (mut orch, mut explorer) = setup_orch_with_explorer(PlanetType::OneMillionCrabs, 0, 0);
    let events = deliver(&mut explorer, OrchCommand::StartExplorerAI);
    drain_messages(&mut orch, events);
    assert_eq!(orch.explorers_info.get_status(&0).unwrap(), Status::Running);
    let events = deliver(&mut explorer, OrchCommand::StartExplorerAI);
    let ack_received = events.iter().any(|e| matches!(e, ExplorerEvent::StartExplorerAIResult { .. }));
    drain_messages(&mut orch, events);
    assert_eq!(orch.explorers_info.get_status(&0).unwrap(), Status::Running);
    assert!(ack_received)
}

#[test]
fn stop_without_start() {
    let (mut orch, mut explorer) = setup_orch_with_explorer(PlanetType::OneMillionCrabs, 0, 0);
    let events = deliver(&mut explorer, OrchCommand::StopExplorerAI);
    let ack_received = events.iter().any(|e| matches!(e, ExplorerEvent::StopExplorerAIResult { .. }));
    drain_messages(&mut orch, events);
    assert_eq!(orch.explorers_info.get_status(&0).unwrap(), Status::Paused);
    assert!(ack_received);
}

#[test]
fn multiple_explorers_independent_lifecycle() {
    let mut orch = Orchestrator::new();
    let topology = format!("{},{}\n", 0, PlanetType::OneMillionCrabs.code());
    orch.initialize_galaxy_by_content(&topology).unwrap();
    orch.planets_info.insert_status(0, PlanetType::OneMillionCrabs, Status::Paused);
    start_all_planet_ais(&mut orch);
    add_explorer(&mut orch, 10, 0);
    add_explorer(&mut orch, 20, 0);
    let mut e10: ExplorerCore<u32> = ExplorerCore::new(10, 0);
    let mut e20: ExplorerCore<u32> = ExplorerCore::new(20, 0);

    let mut events = deliver(&mut e10, OrchCommand::StartExplorerAI);
    events.extend(deliver(&mut e20, OrchCommand::StartExplorerAI));
    drain_messages(&mut orch, events);
    assert_eq!(orch.explorers_info.get_status(&10).unwrap(), Status::Running);
    assert_eq!(orch.explorers_info.get_status(&20).unwrap(), Status::Running);

    let events = deliver(&mut e10, OrchCommand::StopExplorerAI);
    drain_messages(&mut orch, events);
    assert_eq!(orch.explorers_info.get_status(&10).unwrap(), Status::Paused);
    assert_eq!(orch.explorers_info.get_status(&20).unwrap(), Status::Running);

    let mut events = deliver(&mut e10, OrchCommand::KillExplorer);
    events.extend(deliver(&mut e20, OrchCommand::KillExplorer));
    drain_messages(&mut orch, events);
    assert_eq!(orch.explorers_info.get_status(&10).unwrap(), Status::Dead);
    assert_eq!(orch.explorers_info.get_status(&20).unwrap(), Status::Dead);
}

#[test]
fn current_planet_request_returns_correct_planet() {
    let planet_id = 0;
    let explorer_id = 0;
    let (mut orch, mut explorer) = setup_orch_with_explorer(PlanetType::OneMillionCrabs, planet_id, explorer_id);
    let events = deliver(&mut explorer, OrchCommand::CurrentPlanetRequest);
    let mut response = false;
    for e in &events {
        if let ExplorerEvent::CurrentPlanetResult { planet_id: res_planet_id, .. } = e {
            response = true;
            assert_eq!(*res_planet_id, planet_id);
        }
    }
    drain_messages(&mut orch, events);
    assert!(response, "CurrentPlanetResult not received");
    assert_eq!(orch.explorers_info.get_current_planet(&explorer_id).unwrap(), planet_id);
}

/// The planet's answer to a survey of its basic resources.
fn planet_basic_resources() -> BasicSet {
    let mut s = BasicSet::empty();
    s.insert(BasicKind::Carbon);
    s.insert(BasicKind::Hydrogen);
    s
}

#[test]
fn supported_resource_request() {
    let (mut orch, mut explorer) = setup_orch_with_explorer(PlanetType::OneMillionCrabs, 0, 0);
    let mut events = deliver(&mut explorer, OrchCommand::SupportedResourceRequest);
    assert!(events.is_empty());
    assert!(matches!(explorer.state, ExplorerState::Surveying { resources: true, orch_resource: true, .. }));
    // the planet answers the explorer's survey
    events.extend(deliver_reply(
        &mut explorer,
        PlanetReply::SupportedResourceResponse { resource_list: planet_basic_resources() },
    ));
    let response = events.iter().any(|e| matches!(e, ExplorerEvent::SupportedResourceResult { .. }));
    drain_messages(&mut orch, events);
    let info = orch.planets_info.get_info(0).unwrap();
    assert!(response, "SupportedResourceResult not received");
    assert!(info.supported_resources.is_some());
    assert!(info.supported_resources.unwrap().len() > 0);
}

#[test]
fn supported_combination_request() {
    let (mut orch, mut explorer) = setup_orch_with_explorer(PlanetType::RustyCrab, 0, 0);
    let mut events = deliver(&mut explorer, OrchCommand::SupportedCombinationRequest);
    let mut water = ComplexSet::empty();
    water.insert(ComplexKind::Water);
    events.extend(deliver_reply(&mut explorer, PlanetReply::SupportedCombinationResponse { combination_list: water }));
    let response = events.iter().any(|e| matches!(e, ExplorerEvent::SupportedCombinationResult { .. }));
    drain_messages(&mut orch, events);
    let info = orch.planets_info.get_info(0).unwrap();
    assert!(response, "SupportedCombinationResult not received");
    assert!(info.supported_combination.is_some());
}

#[test]
fn combine_resource_request_without_ingredients() {
    let (mut orch, mut explorer) = setup_orch_with_explorer(PlanetType::RustyCrab, 0, 0);
    let events = deliver(&mut explorer, OrchCommand::CombineResourceRequest { to_generate: ComplexKind::Diamond });
    let mut response = false;
    for e in &events {
        if let ExplorerEvent::CombineResourceResponse { generated, .. } = e {
            response = true;
            assert!(generated.is_err());
            assert_eq!(generated.clone().unwrap_err(), "Missing resources for Diamond");
        }
    }
    let actions = drain_messages(&mut orch, events);
    assert!(actions.is_empty());
    assert!(response, "GeneratedResourceResponse not received");
    assert!(orch.explorers_info.get(&0u32).unwrap().bag.is_empty());
    assert_eq!(explorer.state, ExplorerState::Idle);
}

#[test]
fn bag_content_request_empty_bag() {
    let (mut orch, mut explorer) = setup_orch_with_explorer(PlanetType::OneMillionCrabs, 0, 0);
    let events = deliver(&mut explorer, OrchCommand::BagContentRequest);
    drain_messages(&mut orch, events);
    let bag = &orch.explorers_info.get(&0).unwrap().bag;
    assert!(bag.is_empty());
}

#[test]
fn neighbours_response_updates_explorer() {
    let explorer_id = 10;
    let mut orch = Orchestrator::new();
    orch.initialize_galaxy_by_content("0,0,1,2\n1,0,0,2\n2,0,0,1\n").unwrap();
    add_explorer(&mut orch, explorer_id, 0);
    let mut explorer: ExplorerCore<u32> = ExplorerCore::new(explorer_id, 0);

    let actions = drain_messages(
        &mut orch,
        vec![ExplorerEvent::NeighborsRequest { explorer_id, current_planet_id: 0 }],
    );
    let neighbors = match &actions[0] {
        OrchAction::SendNeighbours { explorer_id: 10, neighbors } => neighbors.clone(),
        other => panic!("unexpected {:?}", other),
    };
    assert_eq!(neighbors, vec![1, 2]);
    deliver(&mut explorer, OrchCommand::NeighborsResponse { neighbors });
    assert_eq!(explorer.topology_info.len(), 3);
    assert_eq!(explorer.topology_info.get(&0).unwrap().neighbors, Some(vec![1, 2]));
}

#[test]
fn rapid_fire_messages() {
    let (mut orch, mut explorer) = setup_orch_with_explorer(PlanetType::BlackAdidasShoe, 0, 0);
    let mut events = Vec::new();
    events.extend(deliver(&mut explorer, OrchCommand::BagContentRequest));
    events.extend(deliver(&mut explorer, OrchCommand::CurrentPlanetRequest));
    events.extend(deliver(&mut explorer, OrchCommand::BagContentRequest));
    events.extend(deliver(&mut explorer, OrchCommand::SupportedResourceRequest));
    events.extend(deliver(&mut explorer, OrchCommand::BagContentRequest));
    drain_messages(&mut orch, events);
    // the explorer surveys its planet; the last request waits for it
    assert_eq!(explorer.buffer_orchestrator_msg.len(), 1);
    assert!(orch.explorers_info.get(&0).is_some());
    assert_eq!(orch.explorers_info.get_current_planet(&0).unwrap(), 0);
}

#[test]
fn explorer_requests_travel_to_nonexistent_planet() {
    let (mut orch, mut explorer) = setup_orch_with_explorer(PlanetType::OneMillionCrabs, 0, 0);
    let original_planet_id = explorer.planet_id;
    let actions = drain_messages(
        &mut orch,
        vec![ExplorerEvent::TravelToPlanetRequest { explorer_id: 0, current_planet_id: 0, dst_planet_id: 99 }],
    );
    let mut got_response = false;
    for a in actions {
        if let OrchAction::RefuseMove { planet_id, .. } = a {
            got_response = true;
            assert_eq!(planet_id, 99);
            // the refusal carries no sender
            deliver(&mut explorer, OrchCommand::MoveToPlanet { has_sender: false, planet_id });
        }
    }
    assert!(got_response, "Should have received MoveToPlanet with None sender for non-existent planet");
    assert_eq!(explorer.planet_id, original_planet_id);
}

#[test]
fn generate_then_bag_holds_the_resource() {
    let (mut orch, mut explorer) = setup_orch_with_explorer(PlanetType::OneMillionCrabs, 0, 0);
    let mut events = Vec::new();
    if let Some(cmd) = explorer.accept_orchestrator_message(OrchCommand::GenerateResourceRequest { to_generate: BasicKind::Hydrogen }) {
        let (reaction, _) = explorer.handle_orchestrator_message(cmd);
        assert!(matches!(
            reaction.sends[0],
            Outgoing::ToPlanet(ToPlanet::GenerateResourceRequest { explorer_id: 0, resource: BasicKind::Hydrogen })
        ));
    }
    events.extend(deliver_reply(&mut explorer, PlanetReply::GenerateResourceResponse { resource: Some((BasicKind::Hydrogen, 1)) }));
    events.extend(deliver(&mut explorer, OrchCommand::BagContentRequest));
    let actions = drain_messages(&mut orch, events);
    assert!(matches!(actions[0], OrchAction::AskBagContent { explorer_id: 0 }));
    assert_eq!(
        orch.explorers_info.get(&0).unwrap().bag,
        vec![omc_galaxy::resources::ResourceKind::Basic(BasicKind::Hydrogen)]
    );
}

#[test]
fn travel_protocol_moves_explorer() {
    let mut orch = Orchestrator::new();
    orch.initialize_galaxy_by_content("0,0,1,2\n1,0,0,2\n2,0,0,1\n").unwrap();
    for id in 0..3 {
        orch.planets_info.insert_status(id, PlanetType::BlackAdidasShoe, Status::Paused);
    }
    start_all_planet_ais(&mut orch);
    add_explorer(&mut orch, 10, 0);
    // the explorer asks to travel to a neighbour
    let actions = drain_messages(
        &mut orch,
        vec![ExplorerEvent::TravelToPlanetRequest { explorer_id: 10, current_planet_id: 0, dst_planet_id: 2 }],
    );
    assert!(matches!(actions[0], OrchAction::IncomingExplorer { planet_id: 2, explorer_id: 10 }));
    // the destination lets it in
    let (actions, outcome) = orch.handle_planet_message(omc_galaxy::orchestrator_rules::PlanetEvent::IncomingExplorerResponse {
        planet_id: 2,
        explorer_id: 10,
        accepted: true,
    });
    outcome.unwrap();
    assert!(matches!(actions[0], OrchAction::OutgoingExplorer { planet_id: 0, explorer_id: 10 }));
    // the planet it leaves lets it go
    let (actions, outcome) = orch.handle_planet_message(omc_galaxy::orchestrator_rules::PlanetEvent::OutgoingExplorerResponse {
        planet_id: 0,
        explorer_id: 10,
        accepted: true,
    });
    outcome.unwrap();
    assert!(matches!(actions[0], OrchAction::MoveExplorer { explorer_id: 10, planet_id: 2 }));
    // the explorer arrives
    let mut explorer: ExplorerCore<u32> = ExplorerCore::new(10, 0);
    deliver(&mut explorer, OrchCommand::MoveToPlanet { has_sender: true, planet_id: 2 });
    assert_eq!(explorer.planet_id, 2);
    drain_messages(&mut orch, vec![ExplorerEvent::MovedToPlanetResult { explorer_id: 10, planet_id: 2 }]);
    assert_eq!(orch.explorers_info.get_current_planet(&10), Some(2));
    assert_eq!(orch.gui_messages.len(), 1);
}
