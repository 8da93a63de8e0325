use car_rental::engine::RentalEngine;
use car_rental::error::ContractError;
use car_rental::rentals::{RentalLedger, RENT_PERIOD};
use car_rental::state::{Car, Rent, Status, User};

fn text(s: &str) -> String {
    String::from(s)
}

fn car(rentfee: u64, depositfee: u64) -> Car {
    Car {
        id: 1,
        name: text("Golf"),
        model: text("VII"),
        car_status: Status::Available,
        rentfee,
        depositfee,
    }
}

fn engine_with_car_and_account(balance: u64) -> RentalEngine {
    let mut engine = RentalEngine::new();
    engine.register_car(1, text("Golf"), text("VII"), 10, 5).unwrap();
    engine.open_account(&text("alice"), text("Alice"), text("Archer")).unwrap();
    if balance > 0 {
        engine.deposit(&text("alice"), balance).unwrap();
    }
    engine
}

#[test]
fn rent_period_is_sixty() {
    assert_eq!(RENT_PERIOD, 60);
}

#[test]
fn cost_of_two_periods() {
    assert_eq!(RentalLedger::compute_cost(&car(10, 5), 0, 120), Ok(25));
}

#[test]
fn cost_counts_whole_periods_only() {
    assert_eq!(RentalLedger::compute_cost(&car(10, 5), 0, 59), Ok(5));
    assert_eq!(RentalLedger::compute_cost(&car(10, 5), 0, 60), Ok(15));
    assert_eq!(RentalLedger::compute_cost(&car(10, 5), 0, 119), Ok(15));
    assert_eq!(RentalLedger::compute_cost(&car(10, 5), 100, 220), Ok(25));
}

#[test]
fn cost_multiplies_the_fee_by_the_periods() {
    // 7 whole periods of 60 in 431; a fee that 60 does not divide.
    assert_eq!(RentalLedger::compute_cost(&car(7, 3), 9, 440), Ok(3 + 7 * 7));
}

#[test]
fn cost_of_an_empty_range_is_the_deposit_fee() {
    assert_eq!(RentalLedger::compute_cost(&car(10, 5), 77, 77), Ok(5));
}

#[test]
fn cost_is_refused_for_reversed_dates() {
    assert_eq!(
        RentalLedger::compute_cost(&car(10, 5), 121, 120),
        Err(ContractError::InvalidRentDates {})
    );
}

#[test]
fn cost_does_not_wrap_at_the_largest_fees() {
    let periods: u128 = (u64::MAX / 60) as u128;
    let expected: u128 = u64::MAX as u128 + u64::MAX as u128 * periods;
    assert_eq!(
        RentalLedger::compute_cost(&car(u64::MAX, u64::MAX), 0, u64::MAX),
        Ok(expected)
    );
}

#[test]
fn new_account_has_zero_balance() {
    let mut engine = RentalEngine::new();
    let created = engine.open_account(&text("alice"), text("Alice"), text("Archer"));
    assert_eq!(
        created,
        Ok(User { address: text("alice"), name: text("Alice"), lastname: text("Archer"), balance: 0 })
    );
    assert_eq!(engine.get_balance(&text("alice")), Ok(0));
}

#[test]
fn account_cannot_be_opened_twice() {
    let mut engine = engine_with_car_and_account(40);
    assert_eq!(
        engine.open_account(&text("alice"), text("Other"), text("Name")),
        Err(ContractError::UserAlreadyExists { address: text("alice") })
    );
    assert_eq!(engine.get_balance(&text("alice")), Ok(40));
    assert_eq!(engine.accounts.may_load(&text("alice")).unwrap().name, text("Alice"));
}

#[test]
fn balance_of_unknown_account_is_refused() {
    let engine = RentalEngine::new();
    assert_eq!(
        engine.get_balance(&text("nobody")),
        Err(ContractError::UserDoesNotExist { address: text("nobody") })
    );
}

#[test]
fn deposit_returns_the_new_balance() {
    let mut engine = engine_with_car_and_account(0);
    assert_eq!(engine.deposit(&text("alice"), 100), Ok(100));
    assert_eq!(engine.deposit(&text("alice"), 23), Ok(123));
    assert_eq!(engine.get_balance(&text("alice")), Ok(123));
}

#[test]
fn deposit_into_unknown_account_is_refused() {
    let mut engine = RentalEngine::new();
    assert_eq!(
        engine.deposit(&text("nobody"), 1),
        Err(ContractError::UserDoesNotExist { address: text("nobody") })
    );
}

#[test]
fn deposit_beyond_the_range_is_refused() {
    let mut engine = engine_with_car_and_account(u64::MAX - 1);
    assert_eq!(
        engine.deposit(&text("alice"), 2),
        Err(ContractError::AmountOverflow { balance: u64::MAX - 1 })
    );
    assert_eq!(engine.get_balance(&text("alice")), Ok(u64::MAX - 1));
    assert_eq!(engine.deposit(&text("alice"), 1), Ok(u64::MAX));
}

#[test]
fn withdraw_returns_the_new_balance() {
    let mut engine = engine_with_car_and_account(100);
    assert_eq!(engine.withdraw(&text("alice"), 30), Ok(70));
    assert_eq!(engine.withdraw(&text("alice"), 70), Ok(0));
    assert_eq!(engine.get_balance(&text("alice")), Ok(0));
}

#[test]
fn withdraw_more_than_balance_is_refused() {
    let mut engine = engine_with_car_and_account(100);
    assert_eq!(
        engine.withdraw(&text("alice"), 101),
        Err(ContractError::InsufficientBalance { balance: 100 })
    );
    assert_eq!(engine.get_balance(&text("alice")), Ok(100));
}

#[test]
fn withdraw_from_unknown_account_is_refused() {
    let mut engine = RentalEngine::new();
    assert_eq!(
        engine.withdraw(&text("nobody"), 0),
        Err(ContractError::UserDoesNotExist { address: text("nobody") })
    );
}

#[test]
fn accounts_are_kept_apart() {
    let mut engine = engine_with_car_and_account(100);
    engine.open_account(&text("bob"), text("Bob"), text("Baker")).unwrap();
    engine.deposit(&text("bob"), 7).unwrap();
    engine.withdraw(&text("alice"), 1).unwrap();
    assert_eq!(engine.get_balance(&text("alice")), Ok(99));
    assert_eq!(engine.get_balance(&text("bob")), Ok(7));
}

#[test]
fn new_car_is_available() {
    let mut engine = RentalEngine::new();
    let created = engine.register_car(1, text("Golf"), text("VII"), 10, 5);
    assert_eq!(created, Ok(car(10, 5)));
    assert_eq!(engine.fleet.may_load(1), Some(car(10, 5)));
    assert_eq!(engine.fleet.may_load(2), None);
}

#[test]
fn car_cannot_be_registered_twice() {
    let mut engine = engine_with_car_and_account(0);
    assert_eq!(
        engine.register_car(1, text("Polo"), text("V"), 1, 1),
        Err(ContractError::CarAlreadyExists { car_id: 1 })
    );
    assert_eq!(engine.fleet.may_load(1), Some(car(10, 5)));
}

#[test]
fn reserve_and_release_toggle_the_status() {
    let mut engine = engine_with_car_and_account(0);
    let reserved = engine.fleet.reserve(1).unwrap();
    assert_eq!(reserved.car_status, Status::InUse);
    assert_eq!(engine.fleet.reserve(1), Err(ContractError::CarIsNotAvailable { car_id: 1 }));
    let released = engine.fleet.release(1).unwrap();
    assert_eq!(released, car(10, 5));
    assert_eq!(engine.fleet.release(1), Err(ContractError::CarIsNotRentedYet { car_id: 1 }));
    assert_eq!(engine.fleet.reserve(9), Err(ContractError::CarDoesNotExist { car_id: 9 }));
    assert_eq!(engine.fleet.release(9), Err(ContractError::CarDoesNotExist { car_id: 9 }));
}

#[test]
fn rental_scenario() {
    let mut engine = engine_with_car_and_account(100);
    assert_eq!(engine.begin_rental(&text("alice"), 1, 0, 120), Ok((1, 25)));
    assert_eq!(engine.get_balance(&text("alice")), Ok(75));
    assert_eq!(engine.fleet.may_load(1).unwrap().car_status, Status::InUse);
    assert_eq!(
        engine.begin_rental(&text("alice"), 1, 0, 60),
        Err(ContractError::CarIsNotAvailable { car_id: 1 })
    );
    assert_eq!(engine.end_rental(1), Ok(()));
    assert_eq!(engine.fleet.may_load(1).unwrap().car_status, Status::Available);
    assert_eq!(engine.end_rental(1), Err(ContractError::CarIsNotRentedYet { car_id: 1 }));
    assert_eq!(engine.get_balance(&text("alice")), Ok(75));
}

#[test]
fn rental_record_holds_the_debited_account() {
    let mut engine = engine_with_car_and_account(100);
    engine.begin_rental(&text("alice"), 1, 30, 150).unwrap();
    assert_eq!(
        engine.get_rental(1),
        Ok(Rent {
            id: 1,
            user: User {
                address: text("alice"),
                name: text("Alice"),
                lastname: text("Archer"),
                balance: 75,
            },
            car_id: 1,
            car_status: Status::InUse,
            start_date: 30,
            end_date: 150,
            rent_cost: 25,
        })
    );
    assert_eq!(engine.rentals.sequence(), 1);
}

#[test]
fn unknown_rental_is_refused() {
    let mut engine = engine_with_car_and_account(100);
    assert_eq!(engine.get_rental(1), Err(ContractError::RentDoesNotExist { rent_id: 1 }));
    assert_eq!(engine.end_rental(1), Err(ContractError::RentDoesNotExist { rent_id: 1 }));
    assert_eq!(engine.get_rental(0), Err(ContractError::RentDoesNotExist { rent_id: 0 }));
}

#[test]
fn rent_ids_count_up_from_one() {
    let mut engine = engine_with_car_and_account(100);
    engine.register_car(2, text("Polo"), text("V"), 1, 1).unwrap();
    assert_eq!(engine.begin_rental(&text("alice"), 1, 0, 0), Ok((1, 5)));
    assert_eq!(engine.begin_rental(&text("alice"), 2, 0, 60), Ok((2, 2)));
    assert_eq!(engine.end_rental(1), Ok(()));
    assert_eq!(engine.begin_rental(&text("alice"), 1, 0, 0), Ok((3, 5)));
    assert_eq!(engine.rentals.sequence(), 3);
    assert_eq!(engine.get_rental(1).unwrap().end_date, 0);
    assert_eq!(engine.get_rental(2).unwrap().car_id, 2);
    assert_eq!(engine.get_rental(3).unwrap().user.balance, 88);
}

#[test]
fn refused_rentals_issue_no_id() {
    let mut engine = engine_with_car_and_account(4);
    assert_eq!(
        engine.begin_rental(&text("alice"), 1, 0, 0),
        Err(ContractError::InsufficientBalance { balance: 4 })
    );
    assert_eq!(engine.rentals.sequence(), 0);
    engine.deposit(&text("alice"), 1).unwrap();
    assert_eq!(engine.begin_rental(&text("alice"), 1, 0, 0), Ok((1, 5)));
}

#[test]
fn rental_with_reversed_dates_leaves_the_car_available() {
    let mut engine = engine_with_car_and_account(100);
    assert_eq!(
        engine.begin_rental(&text("alice"), 1, 10, 9),
        Err(ContractError::InvalidRentDates {})
    );
    assert_eq!(engine.fleet.may_load(1), Some(car(10, 5)));
    assert_eq!(engine.get_balance(&text("alice")), Ok(100));
    assert_eq!(engine.begin_rental(&text("alice"), 1, 9, 10), Ok((1, 5)));
}

#[test]
fn rental_without_funds_leaves_the_car_available() {
    let mut engine = engine_with_car_and_account(24);
    assert_eq!(
        engine.begin_rental(&text("alice"), 1, 0, 120),
        Err(ContractError::InsufficientBalance { balance: 24 })
    );
    assert_eq!(engine.fleet.may_load(1).unwrap().car_status, Status::Available);
    assert_eq!(engine.get_balance(&text("alice")), Ok(24));
    assert_eq!(engine.get_rental(1), Err(ContractError::RentDoesNotExist { rent_id: 1 }));
}

#[test]
fn rental_by_unknown_account_leaves_the_car_available() {
    let mut engine = engine_with_car_and_account(100);
    assert_eq!(
        engine.begin_rental(&text("mallory"), 1, 0, 120),
        Err(ContractError::UserDoesNotExist { address: text("mallory") })
    );
    assert_eq!(engine.fleet.may_load(1).unwrap().car_status, Status::Available);
}

#[test]
fn rental_of_unknown_car_is_refused_first() {
    let mut engine = engine_with_car_and_account(100);
    assert_eq!(
        engine.begin_rental(&text("mallory"), 7, 10, 9),
        Err(ContractError::CarDoesNotExist { car_id: 7 })
    );
}

#[test]
fn rental_checks_the_car_before_the_dates() {
    let mut engine = engine_with_car_and_account(100);
    engine.begin_rental(&text("alice"), 1, 0, 0).unwrap();
    assert_eq!(
        engine.begin_rental(&text("alice"), 1, 10, 9),
        Err(ContractError::CarIsNotAvailable { car_id: 1 })
    );
}

#[test]
fn rental_checks_the_dates_before_the_account() {
    let mut engine = engine_with_car_and_account(100);
    assert_eq!(
        engine.begin_rental(&text("mallory"), 1, 10, 9),
        Err(ContractError::InvalidRentDates {})
    );
}

#[test]
fn rental_that_costs_the_whole_balance() {
    let mut engine = engine_with_car_and_account(25);
    assert_eq!(engine.begin_rental(&text("alice"), 1, 0, 120), Ok((1, 25)));
    assert_eq!(engine.get_balance(&text("alice")), Ok(0));
}

#[test]
fn rental_whose_cost_exceeds_every_balance() {
    let mut engine = RentalEngine::new();
    engine.register_car(1, text("Golf"), text("VII"), u64::MAX, u64::MAX).unwrap();
    engine.open_account(&text("alice"), text("Alice"), text("Archer")).unwrap();
    engine.deposit(&text("alice"), u64::MAX).unwrap();
    assert_eq!(
        engine.begin_rental(&text("alice"), 1, 0, 60),
        Err(ContractError::InsufficientBalance { balance: u64::MAX })
    );
    assert_eq!(engine.fleet.may_load(1).unwrap().car_status, Status::Available);
    assert_eq!(engine.begin_rental(&text("alice"), 1, 0, 59), Ok((1, u64::MAX)));
}

#[test]
fn ending_a_rental_moves_no_money() {
    let mut engine = engine_with_car_and_account(200);
    let (id, cost) = engine.begin_rental(&text("alice"), 1, 0, 600).unwrap();
    assert_eq!(cost, 105);
    assert_eq!(engine.get_balance(&text("alice")), Ok(95));
    assert_eq!(engine.end_rental(id), Ok(()));
    assert_eq!(engine.get_balance(&text("alice")), Ok(95));
    assert_eq!(engine.fleet.may_load(1), Some(car(10, 5)));
    assert_eq!(engine.get_rental(id).unwrap().car_status, Status::InUse);
}

#[test]
fn saved_records_replace_earlier_ones() {
    let mut engine = RentalEngine::new();
    engine.accounts.save(User {
        address: text("alice"),
        name: text("Alice"),
        lastname: text("Archer"),
        balance: 9,
    });
    engine.accounts.save(User {
        address: text("bob"),
        name: text("Bob"),
        lastname: text("Baker"),
        balance: 1,
    });
    engine.accounts.save(User {
        address: text("alice"),
        name: text("Alice"),
        lastname: text("Archer"),
        balance: 11,
    });
    assert_eq!(engine.get_balance(&text("alice")), Ok(11));
    assert_eq!(engine.get_balance(&text("bob")), Ok(1));
    let mut in_use = car(10, 5);
    in_use.car_status = Status::InUse;
    engine.fleet.save(in_use);
    engine.rentals.restore_sequence(41);
    assert_eq!(engine.fleet.reserve(1), Err(ContractError::CarIsNotAvailable { car_id: 1 }));
    assert_eq!(engine.fleet.release(1), Ok(car(10, 5)));
    assert_eq!(engine.begin_rental(&text("alice"), 1, 0, 0), Ok((42, 5)));
    assert_eq!(engine.rentals.may_load(42).unwrap().user.balance, 6);
    assert_eq!(engine.rentals.may_load(41), None);
}

#[test]
fn ending_an_earlier_rental_frees_a_car_that_is_rented_anew() {
    let mut engine = engine_with_car_and_account(100);
    assert_eq!(engine.begin_rental(&text("alice"), 1, 0, 0), Ok((1, 5)));
    assert_eq!(engine.end_rental(1), Ok(()));
    assert_eq!(engine.begin_rental(&text("alice"), 1, 0, 0), Ok((2, 5)));
    assert_eq!(engine.end_rental(1), Ok(()));
    assert_eq!(engine.fleet.may_load(1).unwrap().car_status, Status::Available);
    assert_eq!(engine.end_rental(2), Err(ContractError::CarIsNotRentedYet { car_id: 1 }));
}

#[test]
fn ending_a_rental_of_a_missing_car_is_refused() {
    let mut engine = RentalEngine::new();
    engine.rentals.save(Rent {
        id: 1,
        user: User { address: text("alice"), name: text("A"), lastname: text("B"), balance: 0 },
        car_id: 8,
        car_status: Status::InUse,
        start_date: 0,
        end_date: 0,
        rent_cost: 0,
    });
    assert_eq!(engine.end_rental(1), Err(ContractError::CarDoesNotExist { car_id: 8 }));
}

#[test]
fn balances_stay_exact_over_a_sequence_of_requests() {
    let mut engine = engine_with_car_and_account(0);
    let alice = text("alice");
    assert_eq!(engine.withdraw(&alice, 1), Err(ContractError::InsufficientBalance { balance: 0 }));
    assert_eq!(engine.deposit(&alice, 30), Ok(30));
    assert_eq!(engine.begin_rental(&alice, 1, 0, 180), Err(ContractError::InsufficientBalance { balance: 30 }));
    assert_eq!(engine.begin_rental(&alice, 1, 0, 179), Ok((1, 25)));
    assert_eq!(engine.withdraw(&alice, 6), Err(ContractError::InsufficientBalance { balance: 5 }));
    assert_eq!(engine.withdraw(&alice, 5), Ok(0));
    assert_eq!(engine.get_balance(&alice), Ok(0));
}

#[test]
fn quote_gives_the_cost_and_changes_nothing() {
    let engine = engine_with_car_and_account(100);
    assert_eq!(engine.quote_rental(&text("alice"), 1, 0, 120), Ok(25));
    assert_eq!(engine.quote_rental(&text("alice"), 1, 0, 600), Err(ContractError::InsufficientBalance { balance: 100 }));
    assert_eq!(engine.get_balance(&text("alice")), Ok(100));
    assert_eq!(engine.fleet.may_load(1), Some(car(10, 5)));
    assert_eq!(engine.rentals.sequence(), 0);
}

#[test]
fn quote_is_refused_as_the_rental_would_be() {
    let mut engine = engine_with_car_and_account(100);
    assert_eq!(
        engine.quote_rental(&text("alice"), 7, 10, 9),
        Err(ContractError::CarDoesNotExist { car_id: 7 })
    );
    assert_eq!(
        engine.quote_rental(&text("mallory"), 1, 10, 9),
        Err(ContractError::InvalidRentDates {})
    );
    assert_eq!(
        engine.quote_rental(&text("mallory"), 1, 9, 10),
        Err(ContractError::UserDoesNotExist { address: text("mallory") })
    );
    engine.begin_rental(&text("alice"), 1, 0, 0).unwrap();
    assert_eq!(
        engine.quote_rental(&text("alice"), 1, 0, 0),
        Err(ContractError::CarIsNotAvailable { car_id: 1 })
    );
}

#[test]
fn rental_is_refused_for_its_own_reason_at_a_full_counter() {
    let mut engine = engine_with_car_and_account(4);
    engine.rentals.restore_sequence(u64::MAX);
    assert_eq!(
        engine.begin_rental(&text("alice"), 7, 0, 0),
        Err(ContractError::CarDoesNotExist { car_id: 7 })
    );
    assert_eq!(
        engine.begin_rental(&text("alice"), 1, 1, 0),
        Err(ContractError::InvalidRentDates {})
    );
    assert_eq!(
        engine.begin_rental(&text("alice"), 1, 0, 0),
        Err(ContractError::InsufficientBalance { balance: 4 })
    );
    assert_eq!(engine.rentals.sequence(), u64::MAX);
    assert_eq!(engine.fleet.may_load(1).unwrap().car_status, Status::Available);
}

#[test]
fn last_id_can_still_be_issued() {
    let mut engine = engine_with_car_and_account(5);
    engine.rentals.restore_sequence(u64::MAX - 1);
    assert_eq!(engine.begin_rental(&text("alice"), 1, 0, 0), Ok((u64::MAX, 5)));
    assert_eq!(engine.rentals.sequence(), u64::MAX);
}
