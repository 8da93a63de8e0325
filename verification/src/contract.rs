//! The entry points that the host calls: set up, execute and query. Each
//! request acts on the engine and is answered with an acknowledgment or a
//! typed failure.

use crate::accounts::{deposit_spec, get_balance_spec, open_account_spec, withdraw_spec};
use crate::engine::{
    begin_rental_spec, counter_has_room, end_rental_spec, LedgerView, RentalEngine,
};
use crate::error::{outcome, ContractError, ErrorView};
use crate::fleet::register_car_spec;
use crate::laws::{
    balances_follow, consistent, keeps_all, lemma_step_balances_follow, lemma_step_keeps_all,
    lemma_step_preserves_consistency, Call,
};
use crate::msg::{
    rent_response, ExecuteMsg, ExecuteMsgView, InstantiateMsg, QueryMsg, QueryMsgView,
    QueryResponse, QueryResponseView, RentResponse, UserBalanceResponse,
};
use crate::rentals::{get_spec, Rentals};
use crate::response::{
    action_attributes, action_response, empty_response, response_attributes, response_extras,
    Attributes,
};
use cosmwasm_std::Response;
use vstd::prelude::*;

verus! {

/// The answer to a request whose outcome in the ledger is `r`: on success an
/// acknowledgment with `attributes`, else the same failure.
pub open spec fn acknowledged<T>(r: Result<T, ErrorView>, attributes: Attributes) -> Result<
    Attributes,
    ErrorView,
> {
    match r {
        Ok(_) => Ok(attributes),
        Err(e) => Err(e),
    }
}

/// Whether `r` is the answer `expected`: the same failure, or a response
/// with exactly the expected attributes and nothing besides.
pub open spec fn replies(
    r: Result<Response, ContractError>,
    expected: Result<Attributes, ErrorView>,
) -> bool {
    match r {
        Ok(response) => expected == Ok::<Attributes, ErrorView>(response_attributes(response))
            && response_extras(response) == 0,
        Err(e) => expected == Err::<Attributes, ErrorView>(e@),
    }
}

/// Adding a car: the fleet gains it, and the answer carries no attribute.
pub open spec fn on_add_car(
    s: LedgerView,
    id: u64,
    name: Seq<char>,
    model: Seq<char>,
    rentfee: u64,
    depositfee: u64,
) -> (LedgerView, Result<Attributes, ErrorView>) {
    let (cars, r) = register_car_spec(s.cars, id, name, model, rentfee, depositfee);
    (LedgerView { cars, ..s }, acknowledged(r, Attributes::empty()))
}

/// Opening the sender's account; the answer carries no attribute.
pub open spec fn on_add_user(
    s: LedgerView,
    sender: Seq<char>,
    name: Seq<char>,
    lastname: Seq<char>,
) -> (LedgerView, Result<Attributes, ErrorView>) {
    let (users, r) = open_account_spec(s.users, sender, name, lastname);
    (LedgerView { users, ..s }, acknowledged(r, Attributes::empty()))
}

/// A deposit into the sender's account, answered with the action `deposit`.
pub open spec fn on_deposit(s: LedgerView, sender: Seq<char>, amount: u64) -> (
    LedgerView,
    Result<Attributes, ErrorView>,
) {
    let (users, r) = deposit_spec(s.users, sender, amount);
    (LedgerView { users, ..s }, acknowledged(r, action_attributes("deposit"@)))
}

/// A withdrawal from the sender's account, answered with the action
/// `withdraw`.
pub open spec fn on_withdraw(s: LedgerView, sender: Seq<char>, amount: u64) -> (
    LedgerView,
    Result<Attributes, ErrorView>,
) {
    let (users, r) = withdraw_spec(s.users, sender, amount);
    (LedgerView { users, ..s }, acknowledged(r, action_attributes("withdraw"@)))
}

/// A rental by the sender, answered with the action `rent`.
pub open spec fn on_rent(
    s: LedgerView,
    sender: Seq<char>,
    car_id: u64,
    start_date: u64,
    end_date: u64,
) -> (LedgerView, Result<Attributes, ErrorView>) {
    let (after, r) = begin_rental_spec(s, sender, car_id, start_date, end_date);
    (after, acknowledged(r, action_attributes("rent"@)))
}

/// The end of a rental; the answer carries no attribute.
pub open spec fn on_end_rent(s: LedgerView, rent_id: u64) -> (
    LedgerView,
    Result<Attributes, ErrorView>,
) {
    let (after, r) = end_rental_spec(s, rent_id);
    (after, acknowledged(r, Attributes::empty()))
}

/// Whether the counter can number what the request asks for: only a rental
/// that is made needs an id.
pub open spec fn has_room(s: LedgerView, sender: Seq<char>, msg: ExecuteMsgView) -> bool {
    match msg {
        ExecuteMsgView::Rent { car_id, start_date, end_date } => counter_has_room(
            s,
            sender,
            car_id,
            start_date,
            end_date,
        ),
        _ => true,
    }
}

/// What a request does to the ledger, and how it is answered.
pub open spec fn execute_spec(s: LedgerView, sender: Seq<char>, msg: ExecuteMsgView) -> (
    LedgerView,
    Result<Attributes, ErrorView>,
) {
    match msg {
        ExecuteMsgView::AddCar { id, name, model, rentfee, depositfee } => on_add_car(
            s,
            id,
            name,
            model,
            rentfee,
            depositfee,
        ),
        ExecuteMsgView::AddUser { name, lastname } => on_add_user(s, sender, name, lastname),
        ExecuteMsgView::Deposit { amount } => on_deposit(s, sender, amount),
        ExecuteMsgView::Witdhraw { amount } => on_withdraw(s, sender, amount),
        ExecuteMsgView::Rent { car_id, start_date, end_date } => on_rent(
            s,
            sender,
            car_id,
            start_date,
            end_date,
        ),
        ExecuteMsgView::EndRent { rent_id } => on_end_rent(s, rent_id),
    }
}

/// How a query is answered.
pub open spec fn query_spec(s: LedgerView, msg: QueryMsgView) -> Result<
    QueryResponseView,
    ErrorView,
> {
    match msg {
        QueryMsgView::UserBalance { user_address } => match get_balance_spec(
            s.users,
            user_address,
        ) {
            Ok(balance) => Ok(QueryResponseView::UserBalance(UserBalanceResponse { balance })),
            Err(e) => Err(e),
        },
        QueryMsgView::RentById { rent_id } => match get_spec(s.rentals, rent_id) {
            Ok(rent) => Ok(QueryResponseView::Rent(rent_response(rent))),
            Err(e) => Err(e),
        },
    }
}

/// Sets the ledger up: the rent counter starts at zero, so that the first
/// rental gets the id 1.
pub fn instantiate(engine: &mut RentalEngine, _msg: InstantiateMsg) -> (r: Result<
    Response,
    ContractError,
>)
    requires
        old(engine).wf(),
    ensures
        final(engine).wf(),
        final(engine)@ == (LedgerView {
            rentals: Rentals { sequence: 0, ..old(engine)@.rentals },
            ..old(engine)@
        }),
        replies(r, Ok(Attributes::empty())),
{
    engine.rentals.restore_sequence(0);
    Ok(empty_response())
}

/// Carries out the request `msg` for `sender`.
pub fn execute(engine: &mut RentalEngine, sender: &String, msg: ExecuteMsg) -> (r: Result<
    Response,
    ContractError,
>)
    requires
        old(engine).wf(),
        has_room(old(engine)@, sender@, msg@),
    ensures
        final(engine).wf(),
        final(engine)@ == execute_spec(old(engine)@, sender@, msg@).0,
        replies(r, execute_spec(old(engine)@, sender@, msg@).1),
        consistent(old(engine)@) ==> consistent(final(engine)@) && keeps_all(
            old(engine)@,
            final(engine)@,
        ),
        balances_follow(old(engine)@, Call { sender: sender@, msg: msg@ }, final(engine)@),
{
    proof {
        let call = Call { sender: sender@, msg: msg@ };
        lemma_step_balances_follow(engine@, call);
        if consistent(engine@) {
            lemma_step_preserves_consistency(engine@, call);
            lemma_step_keeps_all(engine@, call);
        }
    }
    match msg {
        ExecuteMsg::AddCar { id, name, model, rentfee, depositfee } => add_car(
            engine,
            id,
            name,
            model,
            rentfee,
            depositfee,
        ),
        ExecuteMsg::AddUser { name, lastname } => add_user(engine, sender, name, lastname),
        ExecuteMsg::Deposit { amount } => deposit(engine, sender, amount),
        ExecuteMsg::Witdhraw { amount } => withdraw(engine, sender, amount),
        ExecuteMsg::Rent { car_id, start_date, end_date } => rent(
            engine,
            sender,
            car_id,
            start_date,
            end_date,
        ),
        ExecuteMsg::EndRent { rent_id } => end_rent(engine, rent_id),
    }
}

/// Answers the query `msg`.
pub fn query(engine: &RentalEngine, msg: QueryMsg) -> (r: Result<QueryResponse, ContractError>)
    requires
        engine.wf(),
    ensures
        outcome(r) == query_spec(engine@, msg@),
{
    match msg {
        QueryMsg::UserBalance { user_address } => match user_balance(engine, &user_address) {
            Ok(balance) => Ok(QueryResponse::UserBalance(balance)),
            Err(e) => Err(e),
        },
        QueryMsg::RentById { rent_id } => match rent_by_id(engine, rent_id) {
            Ok(rent) => Ok(QueryResponse::Rent(rent)),
            Err(e) => Err(e),
        },
    }
}

/// The balance of the account at `user_address`.
pub fn user_balance(engine: &RentalEngine, user_address: &String) -> (r: Result<
    UserBalanceResponse,
    ContractError,
>)
    requires
        engine.wf(),
    ensures
        outcome(r) == match get_balance_spec(engine@.users, user_address@) {
            Ok(balance) => Ok::<UserBalanceResponse, ErrorView>(UserBalanceResponse { balance }),
            Err(e) => Err(e),
        },
{
    match engine.get_balance(user_address) {
        Ok(balance) => Ok(UserBalanceResponse { balance }),
        Err(e) => Err(e),
    }
}

/// The record of the rental `rent_id`.
pub fn rent_by_id(engine: &RentalEngine, rent_id: u64) -> (r: Result<RentResponse, ContractError>)
    requires
        engine.wf(),
    ensures
        outcome(r) == match get_spec(engine@.rentals, rent_id) {
            Ok(rent) => Ok(rent_response(rent)),
            Err(e) => Err(e),
        },
{
    match engine.get_rental(rent_id) {
        Ok(rent) => Ok(RentResponse::from(rent)),
        Err(e) => Err(e),
    }
}

/// Adds a car to the fleet.
pub fn add_car(
    engine: &mut RentalEngine,
    id: u64,
    name: String,
    model: String,
    rentfee: u64,
    depositfee: u64,
) -> (r: Result<Response, ContractError>)
    requires
        old(engine).wf(),
    ensures
        final(engine).wf(),
        final(engine)@ == on_add_car(old(engine)@, id, name@, model@, rentfee, depositfee).0,
        replies(r, on_add_car(old(engine)@, id, name@, model@, rentfee, depositfee).1),
        consistent(old(engine)@) ==> consistent(final(engine)@) && keeps_all(
            old(engine)@,
            final(engine)@,
        ),
{
    proof {
        let call = Call { sender: Seq::empty(), msg: ExecuteMsgView::AddCar { id, name: name@, model: model@, rentfee, depositfee } };
        if consistent(engine@) {
            lemma_step_preserves_consistency(engine@, call);
            lemma_step_keeps_all(engine@, call);
        }
    }
    match engine.register_car(id, name, model, rentfee, depositfee) {
        Ok(_) => Ok(empty_response()),
        Err(e) => Err(e),
    }
}

/// Opens an account for `sender`.
pub fn add_user(engine: &mut RentalEngine, sender: &String, name: String, lastname: String) -> (r:
    Result<Response, ContractError>)
    requires
        old(engine).wf(),
    ensures
        final(engine).wf(),
        final(engine)@ == on_add_user(old(engine)@, sender@, name@, lastname@).0,
        replies(r, on_add_user(old(engine)@, sender@, name@, lastname@).1),
        consistent(old(engine)@) ==> consistent(final(engine)@) && keeps_all(
            old(engine)@,
            final(engine)@,
        ),
{
    proof {
        let call = Call { sender: sender@, msg: ExecuteMsgView::AddUser { name: name@, lastname: lastname@ } };
        if consistent(engine@) {
            lemma_step_preserves_consistency(engine@, call);
            lemma_step_keeps_all(engine@, call);
        }
    }
    match engine.open_account(sender, name, lastname) {
        Ok(_) => Ok(empty_response()),
        Err(e) => Err(e),
    }
}

/// Adds `amount` to the balance of `sender`.
pub fn deposit(engine: &mut RentalEngine, sender: &String, amount: u64) -> (r: Result<
    Response,
    ContractError,
>)
    requires
        old(engine).wf(),
    ensures
        final(engine).wf(),
        final(engine)@ == on_deposit(old(engine)@, sender@, amount).0,
        replies(r, on_deposit(old(engine)@, sender@, amount).1),
        consistent(old(engine)@) ==> consistent(final(engine)@) && keeps_all(
            old(engine)@,
            final(engine)@,
        ),
        balances_follow(
            old(engine)@,
            Call { sender: sender@, msg: ExecuteMsgView::Deposit { amount } },
            final(engine)@,
        ),
{
    proof {
        let call = Call { sender: sender@, msg: ExecuteMsgView::Deposit { amount } };
        lemma_step_balances_follow(engine@, call);
        if consistent(engine@) {
            lemma_step_preserves_consistency(engine@, call);
            lemma_step_keeps_all(engine@, call);
        }
    }
    match engine.deposit(sender, amount) {
        Ok(_) => Ok(action_response("deposit")),
        Err(e) => Err(e),
    }
}

/// Takes `amount` from the balance of `sender`.
pub fn withdraw(engine: &mut RentalEngine, sender: &String, amount: u64) -> (r: Result<
    Response,
    ContractError,
>)
    requires
        old(engine).wf(),
    ensures
        final(engine).wf(),
        final(engine)@ == on_withdraw(old(engine)@, sender@, amount).0,
        replies(r, on_withdraw(old(engine)@, sender@, amount).1),
        consistent(old(engine)@) ==> consistent(final(engine)@) && keeps_all(
            old(engine)@,
            final(engine)@,
        ),
        balances_follow(
            old(engine)@,
            Call { sender: sender@, msg: ExecuteMsgView::Witdhraw { amount } },
            final(engine)@,
        ),
{
    proof {
        let call = Call { sender: sender@, msg: ExecuteMsgView::Witdhraw { amount } };
        lemma_step_balances_follow(engine@, call);
        if consistent(engine@) {
            lemma_step_preserves_consistency(engine@, call);
            lemma_step_keeps_all(engine@, call);
        }
    }
    match engine.withdraw(sender, amount) {
        Ok(_) => Ok(action_response("withdraw")),
        Err(e) => Err(e),
    }
}

/// Rents the car `car_id` to `sender` from `start_date` to `end_date`.
pub fn rent(
    engine: &mut RentalEngine,
    sender: &String,
    car_id: u64,
    start_date: u64,
    end_date: u64,
) -> (r: Result<Response, ContractError>)
    requires
        old(engine).wf(),
        counter_has_room(old(engine)@, sender@, car_id, start_date, end_date),
    ensures
        final(engine).wf(),
        final(engine)@ == on_rent(old(engine)@, sender@, car_id, start_date, end_date).0,
        replies(r, on_rent(old(engine)@, sender@, car_id, start_date, end_date).1),
        consistent(old(engine)@) ==> consistent(final(engine)@) && keeps_all(
            old(engine)@,
            final(engine)@,
        ),
        balances_follow(
            old(engine)@,
            Call { sender: sender@, msg: ExecuteMsgView::Rent { car_id, start_date, end_date } },
            final(engine)@,
        ),
{
    proof {
        let call = Call { sender: sender@, msg: ExecuteMsgView::Rent { car_id, start_date, end_date } };
        lemma_step_balances_follow(engine@, call);
        if consistent(engine@) {
            lemma_step_preserves_consistency(engine@, call);
            lemma_step_keeps_all(engine@, call);
        }
    }
    match engine.begin_rental(sender, car_id, start_date, end_date) {
        Ok(_) => Ok(action_response("rent")),
        Err(e) => Err(e),
    }
}

/// Ends the rental `rent_id`.
pub fn end_rent(engine: &mut RentalEngine, rent_id: u64) -> (r: Result<Response, ContractError>)
    requires
        old(engine).wf(),
    ensures
        final(engine).wf(),
        final(engine)@ == on_end_rent(old(engine)@, rent_id).0,
        replies(r, on_end_rent(old(engine)@, rent_id).1),
        consistent(old(engine)@) ==> consistent(final(engine)@) && keeps_all(
            old(engine)@,
            final(engine)@,
        ),
{
    proof {
        let call = Call { sender: Seq::empty(), msg: ExecuteMsgView::EndRent { rent_id } };
        if consistent(engine@) {
            lemma_step_preserves_consistency(engine@, call);
            lemma_step_keeps_all(engine@, call);
        }
    }
    match engine.end_rental(rent_id) {
        Ok(_) => Ok(empty_response()),
        Err(e) => Err(e),
    }
}

} // verus!
