use football_sim::context::SimulationContext;
use football_sim::contract::{
    PlayerClubContract, PlayerCollection, DEFAULT_SALARY_CENTS, DEFAULT_YEARLY_INCREASE_WAGE,
};
use football_sim::date::Date;

fn date(year: i32, month: u8, day: u8) -> Date {
    Date { year, month, day }
}

#[test]
fn new_contract_has_default_terms() {
    let contract = PlayerClubContract::new(42, date(2031, 6, 30));
    assert_eq!(contract.player_id, 42);
    assert_eq!(contract.salary_cents, DEFAULT_SALARY_CENTS);
    assert_eq!(contract.salary_cents, 10_000_000);
    assert_eq!(
        contract.additional_options.yearly_increase_wage,
        DEFAULT_YEARLY_INCREASE_WAGE
    );
    assert_eq!(contract.expired, date(2031, 6, 30));
}

#[test]
fn expiration_check_reports_true_while_date_not_passed() {
    // The check holds while `expired >= today` — the inverted direction is
    // pinned deliberately.
    let contract = PlayerClubContract::new(1, date(2030, 1, 1));
    assert!(contract.is_expired_on(date(2020, 12, 31)));
    assert!(contract.is_expired_on(date(2030, 1, 1)));
    assert!(!contract.is_expired_on(date(2030, 1, 2)));
    assert!(!contract.is_expired_on(date(2035, 6, 15)));
}

#[test]
fn expiration_check_orders_dates_chronologically() {
    let contract = PlayerClubContract::new(1, date(2030, 6, 15));
    assert!(contract.is_expired_on(date(2030, 6, 14)));
    assert!(!contract.is_expired_on(date(2030, 6, 16)));
    assert!(contract.is_expired_on(date(2030, 5, 16)));
    assert!(!contract.is_expired_on(date(2030, 7, 14)));
    assert!(contract.is_expired_on(date(2029, 12, 31)));
}

#[test]
fn wall_clock_check_agrees_with_explicit_check_for_far_dates() {
    // Far in the future and far in the past relative to any host clock a
    // test will ever run under.
    let far_future = PlayerClubContract::new(1, date(9999, 12, 31));
    assert!(far_future.is_expired());
    let far_past = PlayerClubContract::new(1, date(1900, 1, 1));
    assert!(!far_past.is_expired());
}

#[test]
fn contract_tick_changes_nothing() {
    let mut contract = PlayerClubContract::new(7, date(2031, 6, 30));
    let before = contract;
    let mut context = SimulationContext::new(date(2030, 1, 1), true);
    contract.simulate(&mut context);
    assert_eq!(contract, before);
    assert_eq!(context, SimulationContext::new(date(2030, 1, 1), true));
}

#[test]
fn contract_collection_tick_changes_nothing() {
    let contracts = vec![
        PlayerClubContract::new(1, date(2031, 6, 30)),
        PlayerClubContract::new(2, date(2029, 6, 30)),
    ];
    let mut collection = PlayerCollection::new(contracts.clone());
    assert_eq!(collection.len(), 2);
    let mut context = SimulationContext::new(date(2030, 1, 1), true);
    collection.simulate(&mut context);
    assert_eq!(collection.len(), 2);
    assert_eq!(collection.contracts, contracts);
}
