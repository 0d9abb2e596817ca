use omc_galaxy::galaxy_file::PlanetType;
use omc_galaxy::orchestrator::{OrchError, Orchestrator};
use omc_galaxy::orchestrator_rules::{ExplorerEvent, OrchAction, PlanetEvent};
use omc_galaxy::registry::{ExplorerInfo, Status};

fn matrix_row(orch: &Orchestrator, i: usize) -> Vec<bool> {
    orch.get_galaxy_topology()[i].clone()
}

#[test]
fn test_lifecycle_new_initializes_empty_state() {
    let orch = Orchestrator::new();
    assert!(orch.planets_info.is_empty());
    assert!(orch.explorers_info.is_empty());
    assert!(orch.galaxy_lookup.is_empty());
}

#[test]
fn test_lifecycle_reset_clears_internal_maps() {
    let mut orch = Orchestrator::new();
    orch.planets_info.insert_status(1, PlanetType::OneMillionCrabs, Status::Dead);
    orch.explorers_info.insert_status(1, Status::Running);

    orch.reset();

    assert!(orch.planets_info.is_empty());
    assert!(orch.explorers_info.is_empty());
}

#[test]
fn test_topology_adj_list_creates_symmetric_matrix() {
    let mut orch = Orchestrator::new();
    // 0 -- 1
    let adj_list = vec![vec![1], vec![0]];

    orch.initialize_galaxy_by_adj_list(adj_list);

    let gtop = orch.get_galaxy_topology();
    assert_eq!(gtop[0][1], true);
    assert_eq!(gtop[1][0], true);
    assert_eq!(gtop[0][0], false);
}

#[test]
fn test_topology_destroy_link_updates_matrix() {
    let mut orch = Orchestrator::new();
    let adj_list = vec![vec![1], vec![0]];
    orch.initialize_galaxy_by_adj_list(adj_list);

    orch.destroy_topology_link(0).unwrap();

    let gtop = orch.get_galaxy_topology();
    assert_eq!(gtop[0][1], false);
}

#[test]
fn test_topology_destroy_link_out_of_bounds_errors() {
    let mut orch = Orchestrator::new();
    orch.initialize_galaxy_by_adj_list(vec![vec![]]);

    let result = orch.destroy_topology_link(5);
    assert!(result.is_err());
    assert_eq!(result, Err(OrchError::IndexOutOfBounds));
}

#[test]
fn test_messaging_handle_asteroid_ack_kills_planet_on_failure() {
    let mut orch = Orchestrator::new();
    let planet_id = 1;

    let adj_list = vec![vec![1], vec![0]];
    orch.initialize_galaxy_by_adj_list(adj_list);

    let a = orch.get_galaxy_topology()[1][0];
    assert!(a); // the link exists

    // the planet is registered as it is created: paused
    orch.planets_info.insert_status(planet_id, PlanetType::Ciuc, Status::Paused);

    // an asteroid hits and no rocket deflects it
    let msg = PlanetEvent::AsteroidAck { planet_id, has_rocket: false };
    let (actions, outcome) = orch.handle_planet_message(msg);
    outcome.unwrap();
    assert!(matches!(actions[0], OrchAction::KillPlanet { planet_id: 1 }));
    // the kill was sent: its consequences are recorded
    let (kills, outcome) = orch.record_planet_kill(planet_id);
    outcome.unwrap();
    assert!(kills.is_empty());
    let b = orch.get_galaxy_topology()[1][0];
    assert!(orch.planets_info.is_dead(&planet_id));
    assert!(!b); // the dead planet has no link left
}

#[test]
fn test_messaging_send_sunray_to_all_skips_dead_planets() {
    let mut orch = Orchestrator::new();
    orch.planets_info.insert_status(1, PlanetType::OneMillionCrabs, Status::Paused);
    let update = orch.planets_info.update_status(1, Status::Dead); // force dead
    assert!(update.is_ok());

    // a sunray to every planet goes to the living ones only
    let targets = orch.planets_info.get_list_id_alive();
    assert!(targets.is_empty());
}

#[test]
fn test_file_initialize_galaxy_from_valid_csv() {
    let mut orch = Orchestrator::new();

    // Format: ID, Type, Neighbors...
    let content = "0, 4, 1, 400\n1, 4, 0, 400\n400, 4, 0, 1";
    assert!(Orchestrator::galaxy_content_fits(content));
    let result = orch.initialize_galaxy_by_content(content);

    assert!(result.is_ok());
    assert!(orch.galaxy_lookup.contains_key(&0));
    assert!(orch.galaxy_lookup.contains_key(&1));
}

#[test]
fn readme_topology_gives_documented_matrix() {
    let mut orch = Orchestrator::new();
    let content = "0, 5, 1, 2, 3, 4\n1, 2, 2, 3, 4\n2, 3, 3\n3, 6\n4, 7\n";
    assert!(Orchestrator::galaxy_content_fits(content));
    orch.initialize_galaxy_by_content(content).unwrap();
    let expected = vec![
        vec![false, true, true, true, true],
        vec![true, false, true, true, true],
        vec![true, true, false, true, false],
        vec![true, true, true, false, false],
        vec![true, true, false, false, false],
    ];
    assert_eq!(orch.get_galaxy_topology(), expected);
    assert_eq!(orch.galaxy_lookup.get(&3), Some(&(3, PlanetType::RustyCrab)));
    assert_eq!(orch.galaxy_lookup.get(&4), Some(&(4, PlanetType::TheCompilerStrikesBack)));
    assert_eq!(orch.galaxy_lookup.get(&0), Some(&(0, PlanetType::Rustrelli)));
}

#[test]
fn one_way_links_become_two_way() {
    let mut orch = Orchestrator::new();
    orch.initialize_galaxy_by_adj_list(vec![vec![2], vec![], vec![]]);
    let gtop = orch.get_galaxy_topology();
    assert!(gtop[0][2] && gtop[2][0]);
    assert!(!gtop[0][1] && !gtop[1][0]);
}

#[test]
fn topology_file_with_bad_number_is_refused_and_changes_nothing() {
    let mut orch = Orchestrator::new();
    orch.initialize_galaxy_by_adj_list(vec![vec![1], vec![0]]);
    let content = "0, 4, 1\n1, x, 0\n";
    assert!(Orchestrator::galaxy_content_fits(content));
    let result = orch.initialize_galaxy_by_content(content);
    match result {
        Err(omc_galaxy::galaxy_file::ParseError::NotAU32 { row, value }) => {
            assert_eq!(row, 2);
            assert_eq!(value, vec![' ', 'x']);
        },
        other => panic!("unexpected {:?}", other),
    }
    assert_eq!(matrix_row(&orch, 0), vec![false, true]);
    assert!(orch.galaxy_lookup.is_empty());
}

#[test]
fn topology_row_without_type_is_refused() {
    let mut orch = Orchestrator::new();
    let content = "0, 4\n\n7\n";
    let result = orch.initialize_galaxy_by_content(content);
    match result {
        Err(omc_galaxy::galaxy_file::ParseError::MissingIdOrType { row }) => assert_eq!(row, 3),
        other => panic!("unexpected {:?}", other),
    }
}

#[test]
fn unknown_type_code_gives_some_planet_type() {
    let mut orch = Orchestrator::new();
    orch.initialize_galaxy_by_content("9, 42\n").unwrap();
    let (row, _ty) = *orch.galaxy_lookup.get(&9).unwrap();
    assert_eq!(row, 0);
}

#[test]
fn topology_listing_names_planets_by_id() {
    let mut orch = Orchestrator::new();
    orch.initialize_galaxy_by_content("10, 0, 20\n20, 0, 30\n30, 0\n").unwrap();
    let (edges, n) = orch.get_topology();
    assert_eq!(n, 3);
    assert_eq!(edges, vec![(10, 20), (20, 30)]);
}

#[test]
fn neighbours_of_unknown_planet_is_an_error() {
    let mut orch = Orchestrator::new();
    orch.initialize_galaxy_by_content("10, 0, 20\n20, 0\n").unwrap();
    assert_eq!(orch.neighbours_of(10), Ok(vec![20]));
    assert_eq!(orch.neighbours_of(5), Err(OrchError::PlanetNotInLookup(5)));
    assert!(orch.are_neighbours(10, 20));
    assert!(!orch.are_neighbours(10, 5));
}

#[test]
fn destroy_twice_is_like_once() {
    let mut orch = Orchestrator::new();
    orch.initialize_galaxy_by_content("10, 0, 20, 30\n20, 0, 30\n30, 0\n").unwrap();
    // planet 20 stands on the second row
    orch.destroy_topology_link(1).unwrap();
    let once = orch.get_galaxy_topology();
    orch.destroy_topology_link(1).unwrap();
    assert_eq!(orch.get_galaxy_topology(), once);
    assert_eq!(once[0], vec![false, false, true]);
    assert_eq!(once[1], vec![false, false, false]);
}

#[test]
fn kill_planet_result_kills_explorers_on_it() {
    let mut orch = Orchestrator::new();
    orch.initialize_galaxy_by_content("1, 0, 2\n2, 0\n").unwrap();
    orch.planets_info.insert_status(1, PlanetType::Ciuc, Status::Running);
    orch.planets_info.insert_status(2, PlanetType::Ciuc, Status::Running);
    orch.explorers_info.insert(7, ExplorerInfo::from(7, Status::Running, vec![], 1));
    orch.explorers_info.insert(8, ExplorerInfo::from(8, Status::Running, vec![], 2));
    let (actions, outcome) = orch.handle_planet_message(PlanetEvent::KillPlanetResult { planet_id: 1 });
    assert_eq!(outcome, Ok(()));
    assert_eq!(actions.len(), 1);
    assert!(matches!(actions[0], OrchAction::KillExplorer { explorer_id: 7 }));
    assert!(orch.planets_info.is_dead(&1));
    assert_eq!(orch.gui_messages.len(), 1);
    // a second report changes nothing
    let (actions, outcome) = orch.handle_planet_message(PlanetEvent::KillPlanetResult { planet_id: 1 });
    assert!(actions.is_empty());
    assert_eq!(outcome, Ok(()));
    assert_eq!(orch.gui_messages.len(), 1);
}

#[test]
fn dead_planet_is_not_restarted() {
    let mut orch = Orchestrator::new();
    orch.planets_info.insert_status(3, PlanetType::Ciuc, Status::Dead);
    let (_, outcome) = orch.handle_planet_message(PlanetEvent::StartPlanetAIResult { planet_id: 3 });
    assert_eq!(outcome, Ok(()));
    assert!(orch.planets_info.is_dead(&3));
    let (_, outcome) = orch.handle_planet_message(PlanetEvent::StopPlanetAIResult { planet_id: 4 });
    assert_eq!(outcome, Err(OrchError::UnknownPlanet(4)));
}

#[test]
fn asteroid_deflected_by_rocket_changes_nothing() {
    let mut orch = Orchestrator::new();
    orch.planets_info.insert_status(1, PlanetType::Ciuc, Status::Running);
    let (actions, outcome) = orch.handle_planet_message(PlanetEvent::AsteroidAck { planet_id: 1, has_rocket: true });
    assert!(actions.is_empty());
    assert_eq!(outcome, Ok(()));
    assert!(orch.planets_info.is_running(&1));
    let (_, outcome) = orch.handle_planet_message(PlanetEvent::AsteroidAck { planet_id: 9, has_rocket: false });
    assert_eq!(outcome, Err(OrchError::UnknownPlanet(9)));
}

#[test]
fn link_written_once_or_twice_gives_same_matrix() {
    let mut once = Orchestrator::new();
    once.initialize_galaxy_by_adj_list(vec![vec![1], vec![]]);
    let mut twice = Orchestrator::new();
    twice.initialize_galaxy_by_adj_list(vec![vec![1], vec![0]]);
    assert_eq!(once.get_galaxy_topology(), twice.get_galaxy_topology());
}

#[test]
fn dead_explorer_stays_dead() {
    let mut orch = Orchestrator::new();
    orch.explorers_info.insert(4, ExplorerInfo::from(4, Status::Running, vec![], 0));
    let (_, outcome) = orch.handle_explorer_message(ExplorerEvent::KillExplorerResult { explorer_id: 4 });
    assert_eq!(outcome, Ok(()));
    let (actions, outcome) = orch.handle_explorer_message(ExplorerEvent::StartExplorerAIResult { explorer_id: 4 });
    assert!(actions.is_empty());
    assert_eq!(outcome, Ok(()));
    assert_eq!(orch.explorers_info.get_status(&4), Some(Status::Dead));
}

#[test]
fn destroy_takes_a_matrix_position_not_an_id() {
    let mut orch = Orchestrator::new();
    orch.initialize_galaxy_by_content("1, 0, 0\n0, 0, 1\n").unwrap();
    // planet 1 stands on row 0 and planet 0 on row 1: position 1 is planet 0
    orch.destroy_topology_link(1).unwrap();
    let gtop = orch.get_galaxy_topology();
    assert_eq!(gtop, vec![vec![false, false], vec![false, false]]);
    assert_eq!(orch.planet_position(0), 1);
    assert_eq!(orch.planet_position(1), 0);
    assert_eq!(orch.planet_position(7), 7);
    assert_eq!(orch.destroy_topology_link(2), Err(OrchError::IndexOutOfBounds));
}

#[test]
fn asteroid_death_waits_for_the_kill_to_be_sent() {
    let mut orch = Orchestrator::new();
    orch.initialize_galaxy_by_content("5, 0, 6\n6, 0\n").unwrap();
    orch.planets_info.insert_status(5, PlanetType::Ciuc, Status::Running);
    orch.planets_info.insert_status(6, PlanetType::Ciuc, Status::Running);
    orch.explorers_info.insert(3, ExplorerInfo::from(3, Status::Running, vec![], 6));
    let (actions, outcome) = orch.handle_planet_message(PlanetEvent::AsteroidAck { planet_id: 6, has_rocket: false });
    outcome.unwrap();
    assert_eq!(actions.len(), 1);
    assert!(matches!(actions[0], OrchAction::KillPlanet { planet_id: 6 }));
    // nothing changes until the kill is delivered
    assert!(!orch.planets_info.is_dead(&6));
    assert!(orch.are_neighbours(5, 6));
    let (kills, outcome) = orch.record_planet_kill(6);
    outcome.unwrap();
    assert!(matches!(kills[0], OrchAction::KillExplorer { explorer_id: 3 }));
    assert!(orch.planets_info.is_dead(&6));
    assert!(!orch.are_neighbours(5, 6));
}
