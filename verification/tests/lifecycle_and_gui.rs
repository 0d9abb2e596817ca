use omc_galaxy::galaxy_file::PlanetType;
use omc_galaxy::orchestrator::{OrchError, Orchestrator};
use omc_galaxy::orchestrator_rules::OrchAction;
use omc_galaxy::planet_lifecycle::{ShutdownEvent, ShutdownStep, StartupEvent, StartupStep};
use omc_galaxy::registry::{ExplorerInfo, Status};

fn galaxy_of_three() -> Orchestrator {
    let mut orch = Orchestrator::new();
    orch.initialize_galaxy_by_content("5, 1, 6\n6, 2, 7\n7, 3\n").unwrap();
    for id in [5, 6, 7] {
        orch.planets_info.insert_status(id, PlanetType::Ciuc, Status::Paused);
    }
    orch
}

#[test]
fn planets_are_created_up_to_the_first_unknown_id() {
    let orch = galaxy_of_three();
    let (planets, missing) = orch.planets_to_create(&vec![6, 5, 9, 7]);
    assert_eq!(planets, vec![(6, PlanetType::HoustonWeHaveABorrow), (5, PlanetType::Ciuc)]);
    assert_eq!(missing, Err(OrchError::PlanetNotInLookup(9)));
    let (planets, missing) = orch.planets_to_create(&vec![7]);
    assert_eq!(planets, vec![(7, PlanetType::ImmutableCosmicBorrow)]);
    assert_eq!(missing, Ok(()));
}

#[test]
fn startup_retries_once_then_gives_up() {
    let mut orch = galaxy_of_three();
    let mut st = orch.begin_planet_startup();
    assert!(!st.is_done());
    assert_eq!(orch.advance_planet_startup(&mut st, StartupEvent::Started { planet_id: 5 }), Ok(StartupStep::Waiting));
    assert!(orch.planets_info.is_running(&5));
    assert_eq!(orch.advance_planet_startup(&mut st, StartupEvent::Other), Ok(StartupStep::Waiting));
    match orch.advance_planet_startup(&mut st, StartupEvent::TimedOut) {
        Ok(StartupStep::Retry { mut planets }) => {
            planets.sort();
            assert_eq!(planets, vec![6, 7]);
        },
        other => panic!("unexpected {:?}", other),
    }
    assert_eq!(orch.advance_planet_startup(&mut st, StartupEvent::Started { planet_id: 6 }), Ok(StartupStep::Waiting));
    match orch.advance_planet_startup(&mut st, StartupEvent::TimedOut) {
        Ok(StartupStep::GaveUp { planets }) => assert_eq!(planets, vec![7]),
        other => panic!("unexpected {:?}", other),
    }
    assert_eq!(
        orch.advance_planet_startup(&mut st, StartupEvent::Started { planet_id: 42 }),
        Err(OrchError::UnknownPlanet(42))
    );
    assert_eq!(orch.advance_planet_startup(&mut st, StartupEvent::Started { planet_id: 7 }), Ok(StartupStep::Finished));
    assert!(st.is_done());
}

#[test]
fn shutdown_waits_until_every_planet_is_dead() {
    let mut orch = galaxy_of_three();
    assert_eq!(orch.advance_shutdown(ShutdownEvent::Killed { planet_id: 5 }), Ok(ShutdownStep::Waiting));
    assert_eq!(orch.advance_shutdown(ShutdownEvent::Other), Ok(ShutdownStep::Waiting));
    assert_eq!(orch.advance_shutdown(ShutdownEvent::TimedOut), Err(OrchError::PlanetsStillAlive));
    assert_eq!(orch.advance_shutdown(ShutdownEvent::Killed { planet_id: 6 }), Ok(ShutdownStep::Waiting));
    assert_eq!(orch.advance_shutdown(ShutdownEvent::Killed { planet_id: 7 }), Ok(ShutdownStep::AllDead));
    assert_eq!(orch.advance_shutdown(ShutdownEvent::TimedOut), Ok(ShutdownStep::AllDead));
    assert_eq!(orch.planets_info.count_survivors(), 0);
}

#[test]
fn gui_targets_skip_dead_planets() {
    let mut orch = galaxy_of_three();
    orch.planets_info.update_status(6, Status::Dead).unwrap();
    assert_eq!(orch.celestial_targets(&vec![7, 6, 9, 5, 7]), vec![7, 5, 7]);
    // an asteroid request stops at the first planet that is not alive
    assert_eq!(orch.asteroid_targets(&vec![7, 5, 6, 7]), vec![7, 5]);
    assert_eq!(orch.asteroid_targets(&vec![9, 5]), Vec::<u32>::new());
}

#[test]
fn gui_move_asks_the_destination() {
    let mut orch = galaxy_of_three();
    orch.explorers_info.insert(1, ExplorerInfo::from(1, Status::Paused, vec![], 0));
    // the explorer's planet number reads as matrix row 0, which is linked to row 1
    match orch.plan_gui_move(1, 1) {
        Ok(Some(OrchAction::IncomingExplorer { planet_id: 1, explorer_id: 1 })) => {},
        other => panic!("unexpected {:?}", other),
    }
    assert_eq!(orch.explorers_info.get(&1).unwrap().move_to_planet_id, 1);
    // row 0 is not linked to row 2
    assert!(matches!(orch.plan_gui_move(1, 2), Ok(None)));
    assert!(matches!(orch.plan_gui_move(3, 2), Err(OrchError::UnknownExplorer(3))));
}

#[test]
fn random_events_pick_living_planets() {
    let mut orch = galaxy_of_three();
    assert!(Orchestrator::random_action_count() < 3);
    orch.planets_info.update_status(5, Status::Dead).unwrap();
    orch.planets_info.update_status(6, Status::Dead).unwrap();
    for _ in 0..20 {
        assert_eq!(orch.random_alive_planet(), Some(7));
    }
    orch.planets_info.update_status(7, Status::Dead).unwrap();
    assert_eq!(orch.random_alive_planet(), None);
    for _ in 0..20 {
        assert!(PlanetType::random().code() < 8);
    }
}

#[test]
fn gui_copies_of_the_registries_hold_the_same_records() {
    let mut orch = galaxy_of_three();
    orch.planets_info.update_status(6, Status::Dead).unwrap();
    orch.planets_info.update_from_planet_state(5, vec![true, false, true], 2, true);
    orch.explorers_info.insert(3, ExplorerInfo::from(3, Status::Running, Vec::new(), 5));
    let planets = orch.get_planets_info();
    assert_eq!(planets.len(), 3);
    assert_eq!(planets.get_status(&6), Some(Status::Dead));
    assert_eq!(planets.get_status(&7), Some(Status::Paused));
    let five = planets.get_info(5).unwrap();
    assert_eq!(five.energy_cells, vec![true, false, true]);
    assert_eq!(five.charged_cells_count, 2);
    assert!(five.has_rocket);
    assert_eq!(planets.get_list_id_alive(), vec![5, 7]);
    let explorers = orch.get_explorer_states();
    assert_eq!(explorers.len(), 1);
    assert_eq!(explorers.get_current_planet(&3), Some(5));
    assert_eq!(explorers.get_status(&3), Some(Status::Running));
    orch.explorers_info.insert_status(3, Status::Dead);
    assert_eq!(explorers.get_status(&3), Some(Status::Running));
}
