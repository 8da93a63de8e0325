//! The rental ledger: the rental records, the counter that numbers them, and
//! the cost of a rental.

use crate::error::{outcome, ContractError, ErrorView};
use crate::state::{Car, Rent, RentView, Status, User};
use std::collections::HashMap;
use vstd::prelude::*;

verus! {

broadcast use vstd::std_specs::hash::group_hash_axioms;

/// The length of one rent period, in time units. The rental fee is charged
/// once for each whole period.
pub const RENT_PERIOD: u64 = 60;

/// The rental ledger as the specifications see it.
pub struct Rentals {
    /// Each rent id with its record.
    pub records: Map<u64, RentView>,
    /// The id that was issued last; zero where none was.
    pub sequence: u64,
}

/// The cost of renting a car from `start` to `end`: the flat deposit fee, and
/// the rental fee once for each whole rent period in the range.
pub open spec fn rent_cost(rentfee: u64, depositfee: u64, start: u64, end: u64) -> int {
    depositfee + rentfee * ((end - start) / (RENT_PERIOD as int))
}

/// Pricing a rental: refused where it would end before it starts.
pub open spec fn compute_cost_spec(rentfee: u64, depositfee: u64, start: u64, end: u64) -> Result<
    u128,
    ErrorView,
> {
    if end < start {
        Err(ErrorView::InvalidRentDates)
    } else {
        Ok(rent_cost(rentfee, depositfee, start, end) as u128)
    }
}

/// Reading a rental record.
pub open spec fn get_spec(rentals: Rentals, rent_id: u64) -> Result<RentView, ErrorView> {
    if rentals.records.contains_key(rent_id) {
        Ok(rentals.records[rent_id])
    } else {
        Err(ErrorView::RentDoesNotExist { rent_id })
    }
}

/// The cost of a rental fits in 128 bits, whatever the fees and the dates.
pub proof fn lemma_rent_cost_bounds(rentfee: u64, depositfee: u64, start: u64, end: u64)
    requires
        start <= end,
    ensures
        depositfee <= rent_cost(rentfee, depositfee, start, end) <= u128::MAX,
        rentfee * ((end - start) / (RENT_PERIOD as int)) <= u128::MAX,
{
    let periods = (end - start) / (RENT_PERIOD as int);
    assert(0 <= periods <= u64::MAX);
    assert(0 <= rentfee * periods <= 0xffff_ffff_ffff_ffff * 0xffff_ffff_ffff_ffff)
        by (nonlinear_arith)
        requires
            0 <= periods <= 0xffff_ffff_ffff_ffff,
            0 <= rentfee <= 0xffff_ffff_ffff_ffff,
    ;
}

/// The rental records, each found by its id, and the counter that numbers
/// them.
pub struct RentalLedger {
    rents: HashMap<u64, Rent>,
    rent_seq: u64,
}

impl View for RentalLedger {
    type V = Rentals;

    closed spec fn view(&self) -> Rentals {
        Rentals { records: self.rents@.map_values(|rent: Rent| rent@), sequence: self.rent_seq }
    }
}

impl RentalLedger {
    /// Each record is filed under its own id.
    pub closed spec fn wf(&self) -> bool {
        forall|id: u64| #[trigger] self.rents@.contains_key(id) ==> self.rents@[id].id == id
    }

    /// Each record is filed under its own id.
    pub proof fn lemma_keyed(&self)
        requires
            self.wf(),
        ensures
            forall|id: u64| #[trigger]
                self@.records.contains_key(id) ==> self@.records[id].id == id,
    {
    }

    /// A ledger without records, whose counter stands at zero.
    pub fn new() -> (ledger: Self)
        ensures
            ledger.wf(),
            ledger@ == (Rentals { records: Map::empty(), sequence: 0 }),
    {
        let ledger = RentalLedger { rents: HashMap::new(), rent_seq: 0 };
        assert(ledger@.records =~= Map::empty());
        ledger
    }

    /// The id that was issued last; zero where none was.
    pub fn sequence(&self) -> (n: u64)
        ensures
            n == self@.sequence,
    {
        self.rent_seq
    }

    /// Sets the counter to `n`, so that the next id issued is `n + 1`.
    pub fn restore_sequence(&mut self, n: u64)
        requires
            old(self).wf(),
        ensures
            final(self).wf(),
            final(self)@ == (Rentals { sequence: n, ..old(self)@ }),
    {
        self.rent_seq = n;
    }

    /// Issues the next rent id: one more than the last. The first id is 1.
    pub fn next_id(&mut self) -> (id: u64)
        requires
            old(self).wf(),
            old(self)@.sequence < u64::MAX,
        ensures
            final(self).wf(),
            id == old(self)@.sequence + 1,
            final(self)@ == (Rentals { sequence: id, ..old(self)@ }),
    {
        self.rent_seq = self.rent_seq + 1;
        self.rent_seq
    }

    /// The cost of renting `car` from `start` to `end`.
    pub fn compute_cost(car: &Car, start: u64, end: u64) -> (r: Result<u128, ContractError>)
        ensures
            outcome(r) == compute_cost_spec(car.rentfee, car.depositfee, start, end),
    {
        if end < start {
            return Err(ContractError::InvalidRentDates {  });
        }
        proof {
            lemma_rent_cost_bounds(car.rentfee, car.depositfee, start, end);
        }
        let periods: u64 = (end - start) / RENT_PERIOD;
        Ok(car.depositfee as u128 + (car.rentfee as u128) * (periods as u128))
    }

    /// Files `rent` under its id, in place of the record that was there, if
    /// any.
    pub fn save(&mut self, rent: Rent)
        requires
            old(self).wf(),
        ensures
            final(self).wf(),
            final(self)@ == (Rentals {
                records: old(self)@.records.insert(rent.id, rent@),
                ..old(self)@
            }),
    {
        let ghost before = self.rents@;
        let ghost v = rent@;
        self.rents.insert(rent.id, rent);
        assert(self@.records =~= before.map_values(|rent: Rent| rent@).insert(v.id, v));
    }

    /// Stores the record of a rental under its id and returns it.
    pub fn create_record(
        &mut self,
        id: u64,
        renter: User,
        car_id: u64,
        car_status: Status,
        start_date: u64,
        end_date: u64,
        rent_cost: u64,
    ) -> (rent: Rent)
        requires
            old(self).wf(),
        ensures
            final(self).wf(),
            rent@ == (RentView {
                id,
                user: renter@,
                car_id,
                car_status,
                start_date,
                end_date,
                rent_cost,
            }),
            final(self)@ == (Rentals {
                records: old(self)@.records.insert(id, rent@),
                ..old(self)@
            }),
    {
        let rent = Rent { id, user: renter, car_id, car_status, start_date, end_date, rent_cost };
        let created = rent.clone();
        self.save(rent);
        created
    }

    /// The record filed under `rent_id`, if there is one.
    pub fn may_load(&self, rent_id: u64) -> (found: Option<Rent>)
        ensures
            match found {
                Some(rent) => self@.records.contains_key(rent_id) && rent@
                    == self@.records[rent_id],
                None => !self@.records.contains_key(rent_id),
            },
    {
        match self.rents.get(&rent_id) {
            Some(rent) => Some(rent.clone()),
            None => None,
        }
    }

    /// The record of the rental `rent_id`.
    pub fn get(&self, rent_id: u64) -> (r: Result<Rent, ContractError>)
        ensures
            outcome(r) == get_spec(self@, rent_id),
    {
        match self.may_load(rent_id) {
            Some(rent) => Ok(rent),
            None => Err(ContractError::RentDoesNotExist { rent_id }),
        }
    }
}

} // verus!
