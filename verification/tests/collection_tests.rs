use football_sim::behaviour::BehaviourState;
use football_sim::context::{GlobalContext, SimulationContext, SimulatorData};
use football_sim::contract::PlayerClubContract;
use football_sim::date::Date;
use football_sim::fullname::FullName;
use football_sim::player::{Player, PlayerCollection, PlayerPosition, PlayerPositionType};
use football_sim::skills::{
    MentalSkills, PhysicalSkills, PlayerAttributes, PlayerSkills, TechnicalSkills,
};

fn make_player(id: u32, state: BehaviourState, contract: Option<PlayerClubContract>) -> Player {
    let mut player = Player::new(
        id,
        FullName::new(String::from("Player"), format!("Number{id}")),
        Date {
            year: 1995,
            month: 1,
            day: 2,
        },
        PlayerSkills {
            mental: MentalSkills { level: 1 },
            technical: TechnicalSkills { level: 2 },
            physical: PhysicalSkills {
                level: 3,
                match_readiness: 12,
            },
        },
        PlayerAttributes::new(),
        contract,
        vec![PlayerPosition {
            position: PlayerPositionType::Forward,
            level: 1,
        }],
    );
    player.behaviour.state = state;
    player
}

fn context_on(year: i32, month: u8, day: u8) -> GlobalContext {
    GlobalContext::new(SimulationContext::new(Date { year, month, day }, false))
}

#[test]
fn simulate_extracts_exactly_the_poor_players() {
    let mut collection = PlayerCollection::new(vec![
        make_player(1, BehaviourState::Normal, None),
        make_player(2, BehaviourState::Poor, None),
        make_player(3, BehaviourState::Good, None),
    ]);
    let result = collection.simulate(context_on(2030, 7, 1));

    assert_eq!(result.players.len(), 3);
    assert!(result.players[0].transfer_requests.is_empty());
    assert_eq!(result.players[1].transfer_requests, vec![2]);
    assert!(result.players[2].transfer_requests.is_empty());

    assert_eq!(result.outgoing_players.len(), 1);
    assert_eq!(result.outgoing_players[0].id, 2);

    let remaining: Vec<u32> = collection.players.iter().map(|p| p.id).collect();
    assert_eq!(remaining, vec![1, 3]);
    assert_eq!(
        collection.players.len() + result.outgoing_players.len(),
        3
    );
}

#[test]
fn simulate_with_no_poor_players_removes_nobody() {
    let mut collection = PlayerCollection::new(vec![
        make_player(1, BehaviourState::Normal, None),
        make_player(2, BehaviourState::Good, None),
    ]);
    let result = collection.simulate(context_on(2031, 2, 3));
    assert!(result.outgoing_players.is_empty());
    assert_eq!(collection.players.len(), 2);
    assert_eq!(result.players.len(), 2);
}

#[test]
fn add_then_extract_round_trip() {
    let mut collection = PlayerCollection::new(vec![make_player(1, BehaviourState::Good, None)]);
    collection.add(vec![make_player(9, BehaviourState::Poor, None)]);
    assert_eq!(collection.players.len(), 2);

    let result = collection.simulate(context_on(2030, 7, 1));
    let outgoing_nines = result
        .outgoing_players
        .iter()
        .filter(|p| p.id == 9)
        .count();
    assert_eq!(outgoing_nines, 1);
    assert!(collection.players.iter().all(|p| p.id != 9));
}

#[test]
fn add_appends_in_order() {
    let mut collection = PlayerCollection::new(vec![make_player(1, BehaviourState::Normal, None)]);
    collection.add(vec![
        make_player(2, BehaviourState::Normal, None),
        make_player(3, BehaviourState::Normal, None),
    ]);
    let ids: Vec<u32> = collection.players.iter().map(|p| p.id).collect();
    assert_eq!(ids, vec![1, 2, 3]);
}

#[test]
fn take_removes_the_matching_player() {
    let mut collection = PlayerCollection::new(vec![
        make_player(4, BehaviourState::Normal, None),
        make_player(5, BehaviourState::Normal, None),
        make_player(6, BehaviourState::Normal, None),
    ]);
    let taken = collection.take(&5);
    assert_eq!(taken.id, 5);
    let ids: Vec<u32> = collection.players.iter().map(|p| p.id).collect();
    assert_eq!(ids, vec![4, 6]);
}

#[test]
fn players_view_lists_everyone_in_order() {
    let collection = PlayerCollection::new(vec![
        make_player(4, BehaviourState::Normal, None),
        make_player(5, BehaviourState::Poor, None),
    ]);
    let view = collection.players();
    assert_eq!(view.len(), 2);
    assert_eq!(view[0].id, 4);
    assert_eq!(view[1].id, 5);
}

#[test]
fn week_salary_sums_whole_units_of_contracted_players() {
    let expires = Date {
        year: 2031,
        month: 6,
        day: 30,
    };
    // 100000.0 and 250000.5 currency units, held as cents
    let mut first_contract = PlayerClubContract::new(1, expires);
    first_contract.salary_cents = 10_000_000;
    let mut second_contract = PlayerClubContract::new(2, expires);
    second_contract.salary_cents = 25_000_050;

    let collection = PlayerCollection::new(vec![
        make_player(1, BehaviourState::Normal, Some(first_contract)),
        make_player(2, BehaviourState::Normal, Some(second_contract)),
        make_player(3, BehaviourState::Normal, None),
    ]);
    assert_eq!(collection.get_week_salary(), 350_000);
}

#[test]
fn process_leaves_global_state_alone() {
    let mut collection = PlayerCollection::new(vec![make_player(1, BehaviourState::Poor, None)]);
    let result = collection.simulate(context_on(2030, 7, 1));
    let mut data = SimulatorData::new();
    result.process(&mut data);
    assert_eq!(data, SimulatorData::new());
}
