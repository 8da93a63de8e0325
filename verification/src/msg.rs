//! The messages that the host hands to the entry points, and the answers to
//! its queries.

use crate::state::{Rent, RentView, Status, User, UserView};
use vstd::prelude::*;
use vstd::std_specs::convert::FromSpecImpl;

verus! {

/// Sent once, when the ledger is set up. It carries nothing.
#[derive(Clone, Copy, Debug, PartialEq, Eq)]
pub struct InstantiateMsg {}

/// A request that changes the ledger. The account it acts on is the
/// sender's.
#[derive(Debug, PartialEq, Eq)]
pub enum ExecuteMsg {
    AddUser { name: String, lastname: String },
    AddCar { id: u64, name: String, model: String, rentfee: u64, depositfee: u64 },
    Deposit { amount: u64 },
    Witdhraw { amount: u64 },
    Rent { car_id: u64, start_date: u64, end_date: u64 },
    EndRent { rent_id: u64 },
}

/// What an `ExecuteMsg` is to the specifications.
pub enum ExecuteMsgView {
    AddUser { name: Seq<char>, lastname: Seq<char> },
    AddCar { id: u64, name: Seq<char>, model: Seq<char>, rentfee: u64, depositfee: u64 },
    Deposit { amount: u64 },
    Witdhraw { amount: u64 },
    Rent { car_id: u64, start_date: u64, end_date: u64 },
    EndRent { rent_id: u64 },
}

impl View for ExecuteMsg {
    type V = ExecuteMsgView;

    open spec fn view(&self) -> ExecuteMsgView {
        match *self {
            ExecuteMsg::AddUser { name, lastname } => ExecuteMsgView::AddUser {
                name: name@,
                lastname: lastname@,
            },
            ExecuteMsg::AddCar { id, name, model, rentfee, depositfee } => ExecuteMsgView::AddCar {
                id,
                name: name@,
                model: model@,
                rentfee,
                depositfee,
            },
            ExecuteMsg::Deposit { amount } => ExecuteMsgView::Deposit { amount },
            ExecuteMsg::Witdhraw { amount } => ExecuteMsgView::Witdhraw { amount },
            ExecuteMsg::Rent { car_id, start_date, end_date } => ExecuteMsgView::Rent {
                car_id,
                start_date,
                end_date,
            },
            ExecuteMsg::EndRent { rent_id } => ExecuteMsgView::EndRent { rent_id },
        }
    }
}

/// A request that only reads the ledger.
#[derive(Debug, PartialEq, Eq)]
pub enum QueryMsg {
    UserBalance { user_address: String },
    RentById { rent_id: u64 },
}

/// What a `QueryMsg` is to the specifications.
pub enum QueryMsgView {
    UserBalance { user_address: Seq<char> },
    RentById { rent_id: u64 },
}

impl View for QueryMsg {
    type V = QueryMsgView;

    open spec fn view(&self) -> QueryMsgView {
        match *self {
            QueryMsg::UserBalance { user_address } => QueryMsgView::UserBalance {
                user_address: user_address@,
            },
            QueryMsg::RentById { rent_id } => QueryMsgView::RentById { rent_id },
        }
    }
}

/// The answer to `QueryMsg::UserBalance`.
#[derive(Clone, Copy, Debug, PartialEq, Eq)]
pub struct UserBalanceResponse {
    pub balance: u64,
}

impl View for UserBalanceResponse {
    type V = UserBalanceResponse;

    open spec fn view(&self) -> UserBalanceResponse {
        *self
    }
}

/// The answer to `QueryMsg::RentById`: the whole rental record.
#[derive(Debug, PartialEq, Eq)]
pub struct RentResponse {
    pub id: u64,
    pub user: User,
    pub car_id: u64,
    pub car_status: Status,
    pub start_date: u64,
    pub end_date: u64,
    pub rent_cost: u128,
}

/// What a `RentResponse` is to the specifications.
pub struct RentResponseView {
    pub id: u64,
    pub user: UserView,
    pub car_id: u64,
    pub car_status: Status,
    pub start_date: u64,
    pub end_date: u64,
    pub rent_cost: u128,
}

impl View for RentResponse {
    type V = RentResponseView;

    open spec fn view(&self) -> RentResponseView {
        RentResponseView {
            id: self.id,
            user: self.user@,
            car_id: self.car_id,
            car_status: self.car_status,
            start_date: self.start_date,
            end_date: self.end_date,
            rent_cost: self.rent_cost,
        }
    }
}

/// The answer that carries the rental record `rent`.
pub open spec fn rent_response(rent: RentView) -> RentResponseView {
    RentResponseView {
        id: rent.id,
        user: rent.user,
        car_id: rent.car_id,
        car_status: rent.car_status,
        start_date: rent.start_date,
        end_date: rent.end_date,
        rent_cost: rent.rent_cost as u128,
    }
}

impl FromSpecImpl<Rent> for RentResponse {
    open spec fn obeys_from_spec() -> bool {
        true
    }

    open spec fn from_spec(rent: Rent) -> RentResponse {
        RentResponse {
            id: rent.id,
            user: rent.user,
            car_id: rent.car_id,
            car_status: rent.car_status,
            start_date: rent.start_date,
            end_date: rent.end_date,
            rent_cost: rent.rent_cost as u128,
        }
    }
}

impl From<Rent> for RentResponse {
    fn from(rent: Rent) -> (response: RentResponse) {
        RentResponse {
            id: rent.id,
            user: rent.user,
            car_id: rent.car_id,
            car_status: rent.car_status,
            start_date: rent.start_date,
            end_date: rent.end_date,
            rent_cost: rent.rent_cost as u128,
        }
    }
}

/// The answer to a query, by the kind of query.
#[derive(Debug, PartialEq, Eq)]
pub enum QueryResponse {
    UserBalance(UserBalanceResponse),
    Rent(RentResponse),
}

/// What a `QueryResponse` is to the specifications.
pub enum QueryResponseView {
    UserBalance(UserBalanceResponse),
    Rent(RentResponseView),
}

impl View for QueryResponse {
    type V = QueryResponseView;

    open spec fn view(&self) -> QueryResponseView {
        match *self {
            QueryResponse::UserBalance(balance) => QueryResponseView::UserBalance(balance),
            QueryResponse::Rent(rent) => QueryResponseView::Rent(rent@),
        }
    }
}

} // verus!
