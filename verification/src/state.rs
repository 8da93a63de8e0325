//! The records that the ledger keeps: accounts, cars and rentals.

use vstd::prelude::*;

verus! {

/// Whether a car can be rented right now.
#[derive(Clone, Copy, Debug, PartialEq, Eq, Structural)]
pub enum Status {
    InUse,
    Available,
}

/// An account: who owns it and how much cash it holds, in the smallest
/// currency unit.
#[derive(Debug, PartialEq, Eq)]
pub struct User {
    pub address: String,
    pub name: String,
    pub lastname: String,
    pub balance: u64,
}

/// What a `User` is to the specifications.
pub struct UserView {
    pub address: Seq<char>,
    pub name: Seq<char>,
    pub lastname: Seq<char>,
    pub balance: u64,
}

impl View for User {
    type V = UserView;

    open spec fn view(&self) -> UserView {
        UserView {
            address: self.address@,
            name: self.name@,
            lastname: self.lastname@,
            balance: self.balance,
        }
    }
}

impl Clone for User {
    fn clone(&self) -> (copy: Self)
        ensures
            copy == *self,
    {
        User {
            address: self.address.clone(),
            name: self.name.clone(),
            lastname: self.lastname.clone(),
            balance: self.balance,
        }
    }
}

/// A car of the fleet, with its fee schedule and its availability.
#[derive(Debug, PartialEq, Eq)]
pub struct Car {
    pub id: u64,
    pub name: String,
    pub model: String,
    pub car_status: Status,
    /// Fee per rent period.
    pub rentfee: u64,
    /// Flat fee charged once per rental.
    pub depositfee: u64,
}

/// What a `Car` is to the specifications.
pub struct CarView {
    pub id: u64,
    pub name: Seq<char>,
    pub model: Seq<char>,
    pub car_status: Status,
    pub rentfee: u64,
    pub depositfee: u64,
}

impl View for Car {
    type V = CarView;

    open spec fn view(&self) -> CarView {
        CarView {
            id: self.id,
            name: self.name@,
            model: self.model@,
            car_status: self.car_status,
            rentfee: self.rentfee,
            depositfee: self.depositfee,
        }
    }
}

impl Clone for Car {
    fn clone(&self) -> (copy: Self)
        ensures
            copy == *self,
    {
        Car {
            id: self.id,
            name: self.name.clone(),
            model: self.model.clone(),
            car_status: self.car_status,
            rentfee: self.rentfee,
            depositfee: self.depositfee,
        }
    }
}

impl Car {
    /// The same car with another availability.
    pub fn with_status(&self, status: Status) -> (car: Car)
        ensures
            car@ == (CarView { car_status: status, ..self@ }),
    {
        Car {
            id: self.id,
            name: self.name.clone(),
            model: self.model.clone(),
            car_status: status,
            rentfee: self.rentfee,
            depositfee: self.depositfee,
        }
    }
}

/// A rental: who rented which car, for which period and at what cost. The
/// account is recorded as it stood right after the cost was debited.
#[derive(Debug, PartialEq, Eq)]
pub struct Rent {
    pub id: u64,
    pub user: User,
    pub car_id: u64,
    pub car_status: Status,
    pub start_date: u64,
    pub end_date: u64,
    pub rent_cost: u64,
}

/// What a `Rent` is to the specifications.
pub struct RentView {
    pub id: u64,
    pub user: UserView,
    pub car_id: u64,
    pub car_status: Status,
    pub start_date: u64,
    pub end_date: u64,
    pub rent_cost: u64,
}

impl View for Rent {
    type V = RentView;

    open spec fn view(&self) -> RentView {
        RentView {
            id: self.id,
            user: self.user@,
            car_id: self.car_id,
            car_status: self.car_status,
            start_date: self.start_date,
            end_date: self.end_date,
            rent_cost: self.rent_cost,
        }
    }
}

impl Clone for Rent {
    fn clone(&self) -> (copy: Self)
        ensures
            copy == *self,
    {
        Rent {
            id: self.id,
            user: self.user.clone(),
            car_id: self.car_id,
            car_status: self.car_status,
            start_date: self.start_date,
            end_date: self.end_date,
            rent_cost: self.rent_cost,
        }
    }
}

} // verus!
