use car_rental::contract::{
    add_car, add_user, deposit, end_rent, execute, instantiate, query, rent, rent_by_id,
    user_balance, withdraw,
};
use car_rental::engine::RentalEngine;
use car_rental::error::ContractError;
use car_rental::msg::{
    ExecuteMsg, InstantiateMsg, QueryMsg, QueryResponse, RentResponse, UserBalanceResponse,
};
use car_rental::state::{Rent, Status, User};
use cosmwasm_std::{attr, Response};

fn text(s: &str) -> String {
    String::from(s)
}

fn alice() -> User {
    User { address: text("alice"), name: text("Alice"), lastname: text("Archer"), balance: 0 }
}

fn set_up() -> RentalEngine {
    let mut engine = RentalEngine::new();
    instantiate(&mut engine, InstantiateMsg {}).unwrap();
    add_car(&mut engine, 1, text("Golf"), text("VII"), 10, 5).unwrap();
    add_user(&mut engine, &text("alice"), text("Alice"), text("Archer")).unwrap();
    deposit(&mut engine, &text("alice"), 100).unwrap();
    engine
}

#[test]
fn instantiate_answers_with_a_bare_response() {
    let mut engine = RentalEngine::new();
    assert_eq!(instantiate(&mut engine, InstantiateMsg {}), Ok(Response::new()));
    assert_eq!(engine.rentals.sequence(), 0);
}

#[test]
fn instantiate_sets_the_counter_to_zero() {
    let mut engine = RentalEngine::new();
    engine.rentals.restore_sequence(9);
    instantiate(&mut engine, InstantiateMsg {}).unwrap();
    assert_eq!(engine.rentals.sequence(), 0);
}

#[test]
fn add_car_answers_with_a_bare_response() {
    let mut engine = RentalEngine::new();
    let response = add_car(&mut engine, 1, text("Golf"), text("VII"), 10, 5).unwrap();
    assert_eq!(response, Response::default());
    assert!(response.attributes.is_empty());
    assert_eq!(
        add_car(&mut engine, 1, text("Golf"), text("VII"), 10, 5),
        Err(ContractError::CarAlreadyExists { car_id: 1 })
    );
}

#[test]
fn add_user_answers_with_a_bare_response() {
    let mut engine = RentalEngine::new();
    assert_eq!(
        add_user(&mut engine, &text("alice"), text("Alice"), text("Archer")),
        Ok(Response::default())
    );
    assert_eq!(engine.accounts.may_load(&text("alice")), Some(alice()));
    assert_eq!(
        add_user(&mut engine, &text("alice"), text("Alice"), text("Archer")),
        Err(ContractError::UserAlreadyExists { address: text("alice") })
    );
}

#[test]
fn deposit_answers_with_its_action() {
    let mut engine = set_up();
    let response = deposit(&mut engine, &text("alice"), 1).unwrap();
    assert_eq!(response.attributes, vec![attr("action", "deposit")]);
    assert_eq!(response, Response::new().add_attribute("action", "deposit"));
    assert_ne!(response, Response::new());
    assert_eq!(engine.get_balance(&text("alice")), Ok(101));
}

#[test]
fn withdraw_answers_with_its_action() {
    let mut engine = set_up();
    let response = withdraw(&mut engine, &text("alice"), 1).unwrap();
    assert_eq!(response, Response::new().add_attribute("action", "withdraw"));
    assert_eq!(engine.get_balance(&text("alice")), Ok(99));
    assert_eq!(
        withdraw(&mut engine, &text("alice"), 100),
        Err(ContractError::InsufficientBalance { balance: 99 })
    );
    assert_eq!(engine.get_balance(&text("alice")), Ok(99));
}

#[test]
fn rent_answers_with_its_action() {
    let mut engine = set_up();
    let response = rent(&mut engine, &text("alice"), 1, 0, 120).unwrap();
    assert_eq!(response, Response::new().add_attribute("action", "rent"));
    assert!(response.messages.is_empty());
    assert!(response.events.is_empty());
    assert_eq!(response.data, None);
    assert_eq!(engine.get_balance(&text("alice")), Ok(75));
    assert_eq!(
        rent(&mut engine, &text("alice"), 1, 0, 60),
        Err(ContractError::CarIsNotAvailable { car_id: 1 })
    );
}

#[test]
fn end_rent_answers_with_a_bare_response() {
    let mut engine = set_up();
    rent(&mut engine, &text("alice"), 1, 0, 120).unwrap();
    assert_eq!(end_rent(&mut engine, 1), Ok(Response::default()));
    assert_eq!(end_rent(&mut engine, 1), Err(ContractError::CarIsNotRentedYet { car_id: 1 }));
    assert_eq!(end_rent(&mut engine, 2), Err(ContractError::RentDoesNotExist { rent_id: 2 }));
}

#[test]
fn execute_carries_out_each_kind_of_request() {
    let mut engine = RentalEngine::new();
    let sender = text("alice");
    assert_eq!(
        execute(
            &mut engine,
            &sender,
            ExecuteMsg::AddCar {
                id: 1,
                name: text("Golf"),
                model: text("VII"),
                rentfee: 10,
                depositfee: 5,
            }
        ),
        Ok(Response::new())
    );
    assert_eq!(
        execute(
            &mut engine,
            &sender,
            ExecuteMsg::AddUser { name: text("Alice"), lastname: text("Archer") }
        ),
        Ok(Response::new())
    );
    assert_eq!(
        execute(&mut engine, &sender, ExecuteMsg::Deposit { amount: 100 }),
        Ok(Response::new().add_attribute("action", "deposit"))
    );
    assert_eq!(
        execute(&mut engine, &sender, ExecuteMsg::Witdhraw { amount: 10 }),
        Ok(Response::new().add_attribute("action", "withdraw"))
    );
    assert_eq!(
        execute(
            &mut engine,
            &sender,
            ExecuteMsg::Rent { car_id: 1, start_date: 0, end_date: 120 }
        ),
        Ok(Response::new().add_attribute("action", "rent"))
    );
    assert_eq!(engine.get_balance(&sender), Ok(65));
    assert_eq!(engine.fleet.may_load(1).unwrap().car_status, Status::InUse);
    assert_eq!(
        execute(&mut engine, &sender, ExecuteMsg::EndRent { rent_id: 1 }),
        Ok(Response::new())
    );
    assert_eq!(engine.fleet.may_load(1).unwrap().car_status, Status::Available);
    assert_eq!(
        execute(&mut engine, &text("bob"), ExecuteMsg::Deposit { amount: 1 }),
        Err(ContractError::UserDoesNotExist { address: text("bob") })
    );
}

#[test]
fn execute_acts_on_the_account_of_the_sender() {
    let mut engine = set_up();
    add_user(&mut engine, &text("bob"), text("Bob"), text("Baker")).unwrap();
    execute(&mut engine, &text("bob"), ExecuteMsg::Deposit { amount: 5 }).unwrap();
    execute(
        &mut engine,
        &text("bob"),
        ExecuteMsg::Rent { car_id: 1, start_date: 0, end_date: 0 },
    )
    .unwrap();
    assert_eq!(engine.get_balance(&text("alice")), Ok(100));
    assert_eq!(engine.get_balance(&text("bob")), Ok(0));
    assert_eq!(engine.get_rental(1).unwrap().user.address, text("bob"));
}

#[test]
fn user_balance_reports_the_balance() {
    let engine = set_up();
    assert_eq!(user_balance(&engine, &text("alice")), Ok(UserBalanceResponse { balance: 100 }));
    assert_eq!(
        user_balance(&engine, &text("bob")),
        Err(ContractError::UserDoesNotExist { address: text("bob") })
    );
}

#[test]
fn rent_by_id_reports_the_record() {
    let mut engine = set_up();
    rent(&mut engine, &text("alice"), 1, 0, 120).unwrap();
    let expected = RentResponse {
        id: 1,
        user: User { balance: 75, ..alice() },
        car_id: 1,
        car_status: Status::InUse,
        start_date: 0,
        end_date: 120,
        rent_cost: 25,
    };
    assert_eq!(rent_by_id(&engine, 1), Ok(expected));
    assert_eq!(rent_by_id(&engine, 2), Err(ContractError::RentDoesNotExist { rent_id: 2 }));
}

#[test]
fn query_answers_by_kind() {
    let mut engine = set_up();
    rent(&mut engine, &text("alice"), 1, 0, 120).unwrap();
    assert_eq!(
        query(&engine, QueryMsg::UserBalance { user_address: text("alice") }),
        Ok(QueryResponse::UserBalance(UserBalanceResponse { balance: 75 }))
    );
    match query(&engine, QueryMsg::RentById { rent_id: 1 }) {
        Ok(QueryResponse::Rent(response)) => {
            assert_eq!(response.id, 1);
            assert_eq!(response.rent_cost, 25);
        }
        other => panic!("unexpected answer: {:?}", other),
    }
    assert_eq!(
        query(&engine, QueryMsg::RentById { rent_id: 5 }),
        Err(ContractError::RentDoesNotExist { rent_id: 5 })
    );
    assert_eq!(
        query(&engine, QueryMsg::UserBalance { user_address: text("bob") }),
        Err(ContractError::UserDoesNotExist { address: text("bob") })
    );
}

#[test]
fn rent_response_copies_the_record() {
    let record = Rent {
        id: 3,
        user: alice(),
        car_id: 2,
        car_status: Status::InUse,
        start_date: 4,
        end_date: 5,
        rent_cost: u64::MAX,
    };
    assert_eq!(
        RentResponse::from(record),
        RentResponse {
            id: 3,
            user: alice(),
            car_id: 2,
            car_status: Status::InUse,
            start_date: 4,
            end_date: 5,
            rent_cost: 18446744073709551615,
        }
    );
}
