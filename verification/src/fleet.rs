//! The fleet registry: one record per car id, and the only writer of a car's
//! availability.

use crate::error::{outcome, ContractError, ErrorView};
use crate::state::{Car, CarView, Status};
use std::collections::HashMap;
use vstd::prelude::*;

verus! {

broadcast use vstd::std_specs::hash::group_hash_axioms;

/// The fleet as the specifications see it: each car id with its record.
pub type Fleet = Map<u64, CarView>;

/// Registering a car: refused where the id is taken, else a new record that
/// is available.
pub open spec fn register_car_spec(
    cars: Fleet,
    id: u64,
    name: Seq<char>,
    model: Seq<char>,
    rentfee: u64,
    depositfee: u64,
) -> (Fleet, Result<CarView, ErrorView>) {
    if cars.contains_key(id) {
        (cars, Err(ErrorView::CarAlreadyExists { car_id: id }))
    } else {
        let car = CarView { id, name, model, car_status: Status::Available, rentfee, depositfee };
        (cars.insert(id, car), Ok(car))
    }
}

/// Reserving a car: refused where it is missing or not available, else the
/// record turns to in use.
pub open spec fn reserve_spec(cars: Fleet, id: u64) -> (Fleet, Result<CarView, ErrorView>) {
    if !cars.contains_key(id) {
        (cars, Err(ErrorView::CarDoesNotExist { car_id: id }))
    } else if cars[id].car_status != Status::Available {
        (cars, Err(ErrorView::CarIsNotAvailable { car_id: id }))
    } else {
        let car = CarView { car_status: Status::InUse, ..cars[id] };
        (cars.insert(id, car), Ok(car))
    }
}

/// Releasing a car: refused where it is missing or not in use, else the
/// record turns to available.
pub open spec fn release_spec(cars: Fleet, id: u64) -> (Fleet, Result<CarView, ErrorView>) {
    if !cars.contains_key(id) {
        (cars, Err(ErrorView::CarDoesNotExist { car_id: id }))
    } else if cars[id].car_status != Status::InUse {
        (cars, Err(ErrorView::CarIsNotRentedYet { car_id: id }))
    } else {
        let car = CarView { car_status: Status::Available, ..cars[id] };
        (cars.insert(id, car), Ok(car))
    }
}

/// The cars, each found by its id.
pub struct FleetRegistry {
    cars: HashMap<u64, Car>,
}

impl View for FleetRegistry {
    type V = Fleet;

    closed spec fn view(&self) -> Fleet {
        self.cars@.map_values(|car: Car| car@)
    }
}

impl FleetRegistry {
    /// Each record is filed under its own id.
    pub closed spec fn wf(&self) -> bool {
        forall|id: u64| #[trigger] self.cars@.contains_key(id) ==> self.cars@[id].id == id
    }

    /// Each record is filed under its own id.
    pub proof fn lemma_keyed(&self)
        requires
            self.wf(),
        ensures
            forall|id: u64| #[trigger] self@.contains_key(id) ==> self@[id].id == id,
    {
    }

    /// A registry without cars.
    pub fn new() -> (registry: Self)
        ensures
            registry.wf(),
            registry@ == Fleet::empty(),
    {
        let registry = FleetRegistry { cars: HashMap::new() };
        assert(registry@ =~= Fleet::empty());
        registry
    }

    /// The record filed under `id`, if there is one.
    pub fn may_load(&self, id: u64) -> (found: Option<Car>)
        requires
            self.wf(),
        ensures
            match found {
                Some(car) => self@.contains_key(id) && car@ == self@[id],
                None => !self@.contains_key(id),
            },
    {
        match self.cars.get(&id) {
            Some(car) => Some(car.clone()),
            None => None,
        }
    }

    /// Files `car` under its id, in place of the record that was there, if
    /// any.
    pub fn save(&mut self, car: Car)
        requires
            old(self).wf(),
        ensures
            final(self).wf(),
            final(self)@ == old(self)@.insert(car.id, car@),
    {
        let ghost before = self.cars@;
        let ghost v = car@;
        self.cars.insert(car.id, car);
        assert(self@ =~= before.map_values(|car: Car| car@).insert(v.id, v));
    }

    /// Adds a car that is available.
    pub fn register_car(
        &mut self,
        id: u64,
        name: String,
        model: String,
        rentfee: u64,
        depositfee: u64,
    ) -> (r: Result<Car, ContractError>)
        requires
            old(self).wf(),
        ensures
            final(self).wf(),
            (final(self)@, outcome(r)) == register_car_spec(
                old(self)@,
                id,
                name@,
                model@,
                rentfee,
                depositfee,
            ),
    {
        if self.cars.get(&id).is_some() {
            return Err(ContractError::CarAlreadyExists { car_id: id });
        }
        let car = Car { id, name, model, car_status: Status::Available, rentfee, depositfee };
        let created = car.clone();
        self.save(car);
        Ok(created)
    }

    /// Marks the car as in use, in one step from an available record.
    pub fn reserve(&mut self, id: u64) -> (r: Result<Car, ContractError>)
        requires
            old(self).wf(),
        ensures
            final(self).wf(),
            (final(self)@, outcome(r)) == reserve_spec(old(self)@, id),
    {
        let reserved = match self.cars.get(&id) {
            None => {
                return Err(ContractError::CarDoesNotExist { car_id: id });
            },
            Some(car) => {
                if car.car_status != Status::Available {
                    return Err(ContractError::CarIsNotAvailable { car_id: id });
                }
                car.with_status(Status::InUse)
            },
        };
        let car = reserved.clone();
        self.save(reserved);
        Ok(car)
    }

    /// Marks the car as available, in one step from a record that is in use.
    pub fn release(&mut self, id: u64) -> (r: Result<Car, ContractError>)
        requires
            old(self).wf(),
        ensures
            final(self).wf(),
            (final(self)@, outcome(r)) == release_spec(old(self)@, id),
    {
        let released = match self.cars.get(&id) {
            None => {
                return Err(ContractError::CarDoesNotExist { car_id: id });
            },
            Some(car) => {
                if car.car_status != Status::InUse {
                    return Err(ContractError::CarIsNotRentedYet { car_id: id });
                }
                car.with_status(Status::Available)
            },
        };
        let car = released.clone();
        self.save(released);
        Ok(car)
    }
}

} // verus!
