use omc_galaxy::bag::{Bag, CraftError};
use omc_galaxy::explorer_core::{AiChoice, AiError, ExplorerCore, IdleChoice, OrchCommand, Outgoing, PlanetReply, ToPlanet};
use omc_galaxy::explorer_state::{
    orch_msg_match_state, planet_msg_match_state, EnergyReading, ExplorerState, OrchMsgKind, PlanetClassType,
    PlanetMsgKind, SurveyError, SurveyedPlanet,
};
use omc_galaxy::game::{
    handle_ui_command, pop_sunray_asteroid_sequence, process_game_events, GameCommandEffect, GameState, TickEffect,
    UiCommand,
};
use omc_galaxy::orchestrator_rules::ExplorerEvent;
use omc_galaxy::resources::{BasicKind, BasicSet, ComplexKind, ComplexSet, ResourceKind};

const CARBON: ResourceKind = ResourceKind::Basic(BasicKind::Carbon);
const OXYGEN: ResourceKind = ResourceKind::Basic(BasicKind::Oxygen);
const HYDROGEN: ResourceKind = ResourceKind::Basic(BasicKind::Hydrogen);
const WATER: ResourceKind = ResourceKind::Complex(ComplexKind::Water);

#[test]
fn game_state_predicates() {
    assert!(GameState::Paused.can_start());
    assert!(!GameState::Running.can_start());
    assert!(!GameState::WaitingStart.can_start());
    assert!(GameState::Running.can_pause());
    assert!(!GameState::Paused.can_pause());
    assert!(GameState::Running.is_running());
    assert!(!GameState::WaitingStart.is_running());
}

#[test]
fn ui_commands_drive_the_game_state() {
    assert_eq!(
        handle_ui_command(GameState::WaitingStart, UiCommand::StartGame),
        (GameState::Running, GameCommandEffect::FirstStart)
    );
    assert_eq!(
        handle_ui_command(GameState::Running, UiCommand::StopGame),
        (GameState::Paused, GameCommandEffect::Nothing)
    );
    assert_eq!(handle_ui_command(GameState::Paused, UiCommand::StartGame), (GameState::Running, GameCommandEffect::Resume));
    assert_eq!(handle_ui_command(GameState::Running, UiCommand::StartGame), (GameState::Running, GameCommandEffect::Nothing));
    assert_eq!(handle_ui_command(GameState::Paused, UiCommand::ResetGame), (GameState::Paused, GameCommandEffect::Nothing));
    assert_eq!(handle_ui_command(GameState::WaitingStart, UiCommand::EndGame), (GameState::WaitingStart, GameCommandEffect::EndGame));
}

#[test]
fn ticks_follow_the_scripted_sequence() {
    assert_eq!(process_game_events(GameState::Running, Some('S')), (GameState::Running, TickEffect::SunrayToAll));
    assert_eq!(process_game_events(GameState::Running, Some('A')), (GameState::Running, TickEffect::AsteroidToAll));
    assert_eq!(process_game_events(GameState::Running, Some('$')), (GameState::Paused, TickEffect::SequenceEnd));
    assert_eq!(
        process_game_events(GameState::Running, None),
        (GameState::Running, TickEffect::Unscripted { read: None })
    );
    assert_eq!(pop_sunray_asteroid_sequence(), None);
}

#[test]
fn bag_insert_then_take_gives_item_back() {
    let mut bag: Bag<u32> = Bag::new();
    bag.insert(CARBON, 1);
    bag.insert(CARBON, 2);
    assert_eq!(bag.count(CARBON), 2);
    assert_eq!(bag.take_resource(CARBON), Some(2));
    assert_eq!(bag.take_resource(CARBON), Some(1));
    assert_eq!(bag.take_resource(CARBON), None);
    assert!(!bag.contains(CARBON));
}

#[test]
fn bag_listing_is_in_kind_order() {
    let mut bag: Bag<u32> = Bag::new();
    bag.insert(WATER, 5);
    bag.insert(OXYGEN, 6);
    bag.insert(CARBON, 7);
    bag.insert(OXYGEN, 8);
    assert_eq!(bag.to_resource_types(), vec![OXYGEN, OXYGEN, CARBON, WATER]);
}

#[test]
fn bag_crafting_takes_the_recipe() {
    let mut bag: Bag<u32> = Bag::new();
    bag.insert(CARBON, 1);
    assert_eq!(bag.can_craft(ComplexKind::Diamond), (false, CARBON, true, CARBON, false));
    assert_eq!(bag.make_diamond_request(), Err(CraftError::MissingResources(ComplexKind::Diamond)));
    assert_eq!(bag.count(CARBON), 1);
    bag.insert(CARBON, 2);
    assert_eq!(bag.make_diamond_request(), Ok((2, 1)));
    assert_eq!(bag.count(CARBON), 0);

    bag.insert(HYDROGEN, 3);
    bag.insert(OXYGEN, 4);
    assert_eq!(bag.can_craft(ComplexKind::Water), (true, HYDROGEN, true, OXYGEN, true));
    assert_eq!(bag.make_water_request(), Ok((3, 4)));
    assert_eq!(bag.make_life_request(), Err(CraftError::MissingResources(ComplexKind::Life)));
    assert_eq!(CraftError::MissingResources(ComplexKind::Life).message(), "Missing resources for Life");
}

#[test]
fn planet_class_facts() {
    assert!(PlanetClassType::A.can_have_rocket());
    assert!(!PlanetClassType::B.can_have_rocket());
    assert!(PlanetClassType::C.can_have_rocket());
    assert!(!PlanetClassType::D.can_have_rocket());
    assert_eq!(PlanetClassType::A.max_energy_cells(), 5);
    assert_eq!(PlanetClassType::B.max_energy_cells(), 1);
    assert_eq!(PlanetClassType::C.max_energy_cells(), 1);
    assert_eq!(PlanetClassType::D.max_energy_cells(), 5);
}

#[test]
fn planet_class_is_inferred_from_what_it_supports() {
    let mut p = SurveyedPlanet::new(3);
    assert_eq!(p.calculate_planet_type(), Err(SurveyError::BasicResourcesUnknown));
    let mut basic = BasicSet::empty();
    basic.insert(BasicKind::Carbon);
    p.basic_resources = Some(basic);
    assert_eq!(p.calculate_planet_type(), Err(SurveyError::ComplexResourcesUnknown));
    p.complex_resources = Some(ComplexSet::empty());
    assert_eq!(p.calculate_planet_type(), Ok(()));
    assert_eq!(p.inferred_planet_type, Some(PlanetClassType::A));
    basic.insert(BasicKind::Silicon);
    p.basic_resources = Some(basic);
    p.calculate_planet_type().unwrap();
    assert_eq!(p.inferred_planet_type, Some(PlanetClassType::D));
    let mut c = ComplexSet::empty();
    c.insert(ComplexKind::Water);
    p.complex_resources = Some(c);
    p.calculate_planet_type().unwrap();
    assert_eq!(p.inferred_planet_type, Some(PlanetClassType::B));
    c.insert(ComplexKind::Life);
    p.complex_resources = Some(c);
    p.calculate_planet_type().unwrap();
    assert_eq!(p.inferred_planet_type, Some(PlanetClassType::C));
}

#[test]
fn energy_readings_feed_the_charge_rate() {
    let mut p = SurveyedPlanet::new(0);
    assert_eq!(p.record_energy(2, 5), EnergyReading::FirstReading);
    assert_eq!(p.energy_cells, Some(2));
    assert_eq!(p.timestamp_energy, 5);
    assert_eq!(p.record_energy(3, 5), EnergyReading::SameTick);
    assert_eq!(p.record_energy(4, 9), EnergyReading::Elapsed { elapsed: 4, previous: 3 });
    assert_eq!(p.timestamp_energy, 9);
}

#[test]
fn message_matching_by_state() {
    assert!(orch_msg_match_state(&ExplorerState::Idle, OrchMsgKind::BagContentRequest));
    assert!(orch_msg_match_state(&ExplorerState::Traveling, OrchMsgKind::MoveToPlanet));
    assert!(!orch_msg_match_state(&ExplorerState::Traveling, OrchMsgKind::BagContentRequest));
    assert!(orch_msg_match_state(&ExplorerState::Traveling, OrchMsgKind::KillExplorer));
    assert!(orch_msg_match_state(&ExplorerState::Killed, OrchMsgKind::KillExplorer));
    assert!(!orch_msg_match_state(&ExplorerState::Killed, OrchMsgKind::StartExplorerAI));
    let surveying = ExplorerState::Surveying {
        resources: false,
        combinations: true,
        energy_cells: false,
        orch_resource: false,
        orch_combination: false,
    };
    assert!(planet_msg_match_state(&surveying, PlanetMsgKind::SupportedCombinationResponse));
    assert!(!planet_msg_match_state(&surveying, PlanetMsgKind::SupportedResourceResponse));
    assert!(!planet_msg_match_state(&ExplorerState::Killed, PlanetMsgKind::Stopped));
}

#[test]
fn ai_asks_for_neighbours_first() {
    let mut e: ExplorerCore<u32> = ExplorerCore::new(3, 7);
    assert_eq!(e.idle_choice(), IdleChoice::RunAi);
    let r = e.ai_core_function().unwrap().unwrap();
    assert_eq!(e.state, ExplorerState::WaitingForNeighbours);
    assert!(matches!(
        r.sends[0],
        Outgoing::ToOrchestrator(ExplorerEvent::NeighborsRequest { explorer_id: 3, current_planet_id: 7 })
    ));
    assert_eq!(r.state_if_undelivered, ExplorerState::Idle);
    // with the neighbours known it surveys the planet
    e.handle_orchestrator_message(OrchCommand::NeighborsResponse { neighbors: vec![8] });
    let r = e.ai_core_function().unwrap().unwrap();
    assert_eq!(r.sends.len(), 2);
    assert!(matches!(r.sends[0], Outgoing::ToPlanet(ToPlanet::SupportedResourceRequest { explorer_id: 3 })));
    // a planet without a record stops the AI
    let mut lost: ExplorerCore<u32> = ExplorerCore::new(1, 1);
    lost.topology_info.clear();
    assert!(matches!(lost.ai_core_function(), Err(AiError::PlanetNotFound)));
}

#[test]
fn ai_choices_become_requests() {
    let mut e: ExplorerCore<u32> = ExplorerCore::new(3, 7);
    let r = e.apply_ai_choice(AiChoice::RunAway { destination: 0 });
    assert!(r.sends.is_empty());
    assert_eq!(e.state, ExplorerState::Idle);
    let r = e.apply_ai_choice(AiChoice::Combine(ComplexKind::Dolphin));
    assert_eq!(r.error, Some(CraftError::MissingResources(ComplexKind::Dolphin)));
    assert_eq!(e.state, ExplorerState::Idle);
    let r = e.apply_ai_choice(AiChoice::Produce(BasicKind::Silicon));
    assert!(matches!(
        r.sends[0],
        Outgoing::ToPlanet(ToPlanet::GenerateResourceRequest { explorer_id: 0, resource: BasicKind::Silicon })
    ));
    // the planet hands a silicon over
    let (r, _) = e.handle_planet_message(PlanetReply::GenerateResourceResponse { resource: Some((BasicKind::Silicon, 9)) });
    assert!(r.sends.is_empty());
    assert_eq!(e.bag.count(ResourceKind::Basic(BasicKind::Silicon)), 1);
    let r = e.apply_ai_choice(AiChoice::MoveTo(8));
    assert_eq!(e.state, ExplorerState::Traveling);
    assert!(matches!(
        r.sends[0],
        Outgoing::ToOrchestrator(ExplorerEvent::TravelToPlanetRequest { explorer_id: 3, current_planet_id: 7, dst_planet_id: 8 })
    ));
    // a message the traveller does not answer waits
    assert!(e.accept_orchestrator_message(OrchCommand::BagContentRequest).is_none());
    assert_eq!(e.idle_choice(), IdleChoice::ManageBuffers);
    assert!(e.next_buffered_orchestrator_msg().is_none());
    e.handle_orchestrator_message(OrchCommand::MoveToPlanet { has_sender: true, planet_id: 8 });
    assert_eq!(e.planet_id, 8);
    assert!(e.current_planet_neighbors_update);
}

#[test]
fn killed_explorer_buffers_everything_but_kills() {
    let mut e: ExplorerCore<u32> = ExplorerCore::new(1, 1);
    e.handle_orchestrator_message(OrchCommand::KillExplorer);
    assert!(e.accept_orchestrator_message(OrchCommand::StartExplorerAI).is_none());
    assert!(e.accept_planet_message(PlanetReply::Stopped).is_none());
    assert!(e.accept_orchestrator_message(OrchCommand::KillExplorer).is_some());
}
