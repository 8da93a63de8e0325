//! The rental engine: the operations of the ledger, each composed from the
//! three registries so that money and availability move together.

use crate::accounts::{
    deposit_spec, get_balance_spec, open_account_spec, withdraw_spec, AccountRegistry, Accounts,
};
use crate::error::{outcome, ContractError, ErrorView};
use crate::fleet::{register_car_spec, release_spec, Fleet, FleetRegistry};
use crate::laws::{consistent, lemma_begin_rental_preserves, lemma_end_rental_preserves};
use crate::rentals::{get_spec, lemma_rent_cost_bounds, rent_cost, RentalLedger, Rentals};
use crate::state::{Car, CarView, Rent, RentView, Status, User, UserView};
use vstd::prelude::*;

verus! {

/// The whole ledger as the specifications see it.
pub struct LedgerView {
    pub users: Accounts,
    pub cars: Fleet,
    pub rentals: Rentals,
}

/// The ledger before anything was entered: no records, and a counter at zero.
pub open spec fn empty_ledger() -> LedgerView {
    LedgerView {
        users: Map::empty(),
        cars: Map::empty(),
        rentals: Rentals { records: Map::empty(), sequence: 0 },
    }
}

/// Pricing a rental before it is made. The checks come in this order: the
/// car exists; it is available; the rental does not end before it starts;
/// the renter has an account; the account covers the cost. Where one fails
/// the rental is refused for it; else the result is the cost.
pub open spec fn quote_rental_spec(
    s: LedgerView,
    renter: Seq<char>,
    car_id: u64,
    start_date: u64,
    end_date: u64,
) -> Result<u64, ErrorView> {
    if !s.cars.contains_key(car_id) {
        Err(ErrorView::CarDoesNotExist { car_id })
    } else if s.cars[car_id].car_status != Status::Available {
        Err(ErrorView::CarIsNotAvailable { car_id })
    } else if end_date < start_date {
        Err(ErrorView::InvalidRentDates)
    } else if !s.users.contains_key(renter) {
        Err(ErrorView::UserDoesNotExist { address: renter })
    } else {
        let car = s.cars[car_id];
        let cost = rent_cost(car.rentfee, car.depositfee, start_date, end_date);
        let balance = s.users[renter].balance;
        if cost > balance {
            Err(ErrorView::InsufficientBalance { balance })
        } else {
            Ok(cost as u64)
        }
    }
}

/// Whether the counter can number the rental: one that is refused needs no
/// id, one that is made needs an id that is still to be had.
pub open spec fn counter_has_room(
    s: LedgerView,
    renter: Seq<char>,
    car_id: u64,
    start_date: u64,
    end_date: u64,
) -> bool {
    quote_rental_spec(s, renter, car_id, start_date, end_date) is Ok ==> s.rentals.sequence
        < u64::MAX
}

/// Starting a rental. Where its quote is refused, so is the rental, and the
/// ledger stays as it was. Else the car turns to in use, the cost leaves the
/// account, the counter goes up by one, and a record is filed under the new
/// id; the result is that id and the cost.
pub open spec fn begin_rental_spec(
    s: LedgerView,
    renter: Seq<char>,
    car_id: u64,
    start_date: u64,
    end_date: u64,
) -> (LedgerView, Result<(u64, u64), ErrorView>) {
    match quote_rental_spec(s, renter, car_id, start_date, end_date) {
        Err(e) => (s, Err(e)),
        Ok(cost) => {
            let id = (s.rentals.sequence + 1) as u64;
            let user = UserView {
                balance: (s.users[renter].balance - cost) as u64,
                ..s.users[renter]
            };
            let rent = RentView {
                id,
                user,
                car_id,
                car_status: Status::InUse,
                start_date,
                end_date,
                rent_cost: cost,
            };
            (
                LedgerView {
                    users: s.users.insert(renter, user),
                    cars: s.cars.insert(
                        car_id,
                        CarView { car_status: Status::InUse, ..s.cars[car_id] },
                    ),
                    rentals: Rentals {
                        records: s.rentals.records.insert(id, rent),
                        sequence: id,
                    },
                },
                Ok((id, cost)),
            )
        },
    }
}

/// Ending a rental: refused where the record is missing, or where its car is
/// missing or not in use. Else the car turns to available; no balance and no
/// record changes.
pub open spec fn end_rental_spec(s: LedgerView, rent_id: u64) -> (
    LedgerView,
    Result<(), ErrorView>,
) {
    if !s.rentals.records.contains_key(rent_id) {
        (s, Err(ErrorView::RentDoesNotExist { rent_id }))
    } else {
        let car_id = s.rentals.records[rent_id].car_id;
        if !s.cars.contains_key(car_id) {
            (s, Err(ErrorView::CarDoesNotExist { car_id }))
        } else if s.cars[car_id].car_status != Status::InUse {
            (s, Err(ErrorView::CarIsNotRentedYet { car_id }))
        } else {
            (
                LedgerView {
                    cars: s.cars.insert(
                        car_id,
                        CarView { car_status: Status::Available, ..s.cars[car_id] },
                    ),
                    ..s
                },
                Ok(()),
            )
        }
    }
}

/// The three registries, and the operations that span them.
pub struct RentalEngine {
    pub accounts: AccountRegistry,
    pub fleet: FleetRegistry,
    pub rentals: RentalLedger,
}

impl View for RentalEngine {
    type V = LedgerView;

    open spec fn view(&self) -> LedgerView {
        LedgerView { users: self.accounts@, cars: self.fleet@, rentals: self.rentals@ }
    }
}

impl RentalEngine {
    /// Each registry files its records under their own keys.
    pub open spec fn wf(&self) -> bool {
        &&& self.accounts.wf()
        &&& self.fleet.wf()
        &&& self.rentals.wf()
    }

    /// An engine over empty registries.
    pub fn new() -> (engine: Self)
        ensures
            engine.wf(),
            engine@ == empty_ledger(),
    {
        RentalEngine {
            accounts: AccountRegistry::new(),
            fleet: FleetRegistry::new(),
            rentals: RentalLedger::new(),
        }
    }

    /// Opens an account for `address`, with a balance of zero.
    pub fn open_account(&mut self, address: &String, name: String, lastname: String) -> (r: Result<
        User,
        ContractError,
    >)
        requires
            old(self).wf(),
        ensures
            final(self).wf(),
            final(self)@ == (LedgerView {
                users: open_account_spec(old(self)@.users, address@, name@, lastname@).0,
                ..old(self)@
            }),
            outcome(r) == open_account_spec(old(self)@.users, address@, name@, lastname@).1,
    {
        self.accounts.open_account(address, name, lastname)
    }

    /// Adds a car to the fleet; it starts out available.
    pub fn register_car(
        &mut self,
        id: u64,
        name: String,
        model: String,
        rentfee: u64,
        depositfee: u64,
    ) -> (r: Result<Car, ContractError>)
        requires
            old(self).wf(),
        ensures
            final(self).wf(),
            final(self)@ == (LedgerView {
                cars: register_car_spec(old(self)@.cars, id, name@, model@, rentfee, depositfee).0,
                ..old(self)@
            }),
            outcome(r) == register_car_spec(
                old(self)@.cars,
                id,
                name@,
                model@,
                rentfee,
                depositfee,
            ).1,
    {
        self.fleet.register_car(id, name, model, rentfee, depositfee)
    }

    /// Adds `amount` to the account's balance and returns the new balance.
    pub fn deposit(&mut self, address: &String, amount: u64) -> (r: Result<u64, ContractError>)
        requires
            old(self).wf(),
        ensures
            final(self).wf(),
            final(self)@ == (LedgerView {
                users: deposit_spec(old(self)@.users, address@, amount).0,
                ..old(self)@
            }),
            outcome(r) == deposit_spec(old(self)@.users, address@, amount).1,
    {
        self.accounts.deposit(address, amount)
    }

    /// Takes `amount` from the account's balance and returns the new balance.
    pub fn withdraw(&mut self, address: &String, amount: u64) -> (r: Result<u64, ContractError>)
        requires
            old(self).wf(),
        ensures
            final(self).wf(),
            final(self)@ == (LedgerView {
                users: withdraw_spec(old(self)@.users, address@, amount).0,
                ..old(self)@
            }),
            outcome(r) == withdraw_spec(old(self)@.users, address@, amount).1,
    {
        self.accounts.withdraw(address, amount)
    }

    /// The balance of the account at `address`.
    pub fn get_balance(&self, address: &String) -> (r: Result<u64, ContractError>)
        requires
            self.wf(),
        ensures
            outcome(r) == get_balance_spec(self@.users, address@),
    {
        self.accounts.get_balance(address)
    }

    /// The record of the rental `rent_id`.
    pub fn get_rental(&self, rent_id: u64) -> (r: Result<Rent, ContractError>)
        requires
            self.wf(),
        ensures
            outcome(r) == get_spec(self@.rentals, rent_id),
    {
        self.rentals.get(rent_id)
    }

    /// What renting the car `car_id` to `renter` from `start_date` to
    /// `end_date` would cost, or why the rental would be refused. The ledger
    /// is only read.
    pub fn quote_rental(
        &self,
        renter: &String,
        car_id: u64,
        start_date: u64,
        end_date: u64,
    ) -> (r: Result<u64, ContractError>)
        requires
            self.wf(),
        ensures
            outcome(r) == quote_rental_spec(self@, renter@, car_id, start_date, end_date),
    {
        let car = match self.fleet.may_load(car_id) {
            Some(car) => car,
            None => {
                return Err(ContractError::CarDoesNotExist { car_id });
            },
        };
        if car.car_status != Status::Available {
            return Err(ContractError::CarIsNotAvailable { car_id });
        }
        let cost: u128 = match RentalLedger::compute_cost(&car, start_date, end_date) {
            Ok(cost) => cost,
            Err(e) => {
                return Err(e);
            },
        };
        let balance: u64 = match self.accounts.get_balance(renter) {
            Ok(balance) => balance,
            Err(e) => {
                return Err(e);
            },
        };
        proof {
            lemma_rent_cost_bounds(car.rentfee, car.depositfee, start_date, end_date);
        }
        if cost > balance as u128 {
            return Err(ContractError::InsufficientBalance { balance });
        }
        Ok(cost as u64)
    }

    /// Takes back a reservation: the car `car_id`, which is in use, is
    /// available again.
    fn cancel_reservation(&mut self, car_id: u64)
        requires
            old(self).wf(),
            old(self)@.cars.contains_key(car_id),
            old(self)@.cars[car_id].car_status == Status::InUse,
        ensures
            final(self).wf(),
            final(self)@ == (LedgerView {
                cars: release_spec(old(self)@.cars, car_id).0,
                ..old(self)@
            }),
    {
        let _ = self.fleet.release(car_id);
    }

    /// Rents the car `car_id` to `renter` from `start_date` to `end_date`, and
    /// returns the id of the rental and its cost. A rental that is refused
    /// leaves no trace: a reservation already made is taken back.
    pub fn begin_rental(
        &mut self,
        renter: &String,
        car_id: u64,
        start_date: u64,
        end_date: u64,
    ) -> (r: Result<(u64, u64), ContractError>)
        requires
            old(self).wf(),
            counter_has_room(old(self)@, renter@, car_id, start_date, end_date),
        ensures
            final(self).wf(),
            (final(self)@, outcome(r)) == begin_rental_spec(
                old(self)@,
                renter@,
                car_id,
                start_date,
                end_date,
            ),
            consistent(old(self)@) ==> consistent(final(self)@),
    {
        let ghost before = self@;
        proof {
            if consistent(before) {
                lemma_begin_rental_preserves(before, renter@, car_id, start_date, end_date);
            }
        }
        let car = match self.fleet.reserve(car_id) {
            Ok(car) => car,
            Err(e) => {
                return Err(e);
            },
        };
        let cost: u128 = match RentalLedger::compute_cost(&car, start_date, end_date) {
            Ok(cost) => cost,
            Err(e) => {
                self.cancel_reservation(car_id);
                assert(self@.cars =~= before.cars);
                return Err(e);
            },
        };
        let debited = match self.accounts.debit_for_rental(renter, cost) {
            Ok(user) => user,
            Err(e) => {
                self.cancel_reservation(car_id);
                assert(self@.cars =~= before.cars);
                return Err(e);
            },
        };
        proof {
            lemma_rent_cost_bounds(car.rentfee, car.depositfee, start_date, end_date);
        }
        let id = self.rentals.next_id();
        let paid: u64 = cost as u64;
        self.rentals.create_record(
            id,
            debited,
            car_id,
            car.car_status,
            start_date,
            end_date,
            paid,
        );
        Ok((id, paid))
    }

    /// Ends the rental `rent_id`: its car is available again. No balance
    /// changes.
    pub fn end_rental(&mut self, rent_id: u64) -> (r: Result<(), ContractError>)
        requires
            old(self).wf(),
        ensures
            final(self).wf(),
            (final(self)@, outcome(r)) == end_rental_spec(old(self)@, rent_id),
            consistent(old(self)@) ==> consistent(final(self)@),
    {
        proof {
            if consistent(self@) {
                lemma_end_rental_preserves(self@, rent_id);
            }
        }
        let rent = match self.rentals.get(rent_id) {
            Ok(rent) => rent,
            Err(e) => {
                return Err(e);
            },
        };
        match self.fleet.release(rent.car_id) {
            Ok(_) => Ok(()),
            Err(e) => Err(e),
        }
    }
}

} // verus!
