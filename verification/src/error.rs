//! The typed failures of the ledger's operations.

use vstd::prelude::*;

verus! {

/// Why an operation was refused. Each failure carries the key that it is
/// about, so that a caller needs no further lookup.
#[derive(Debug, PartialEq, Eq)]
pub enum ContractError {
    /// The account holds less than was asked for; `balance` is what it holds.
    InsufficientBalance { balance: u64 },
    /// The account's balance plus the amount does not fit in 64 bits;
    /// `balance` is what it holds.
    AmountOverflow { balance: u64 },
    UserAlreadyExists { address: String },
    UserDoesNotExist { address: String },
    CarDoesNotExist { car_id: u64 },
    CarAlreadyExists { car_id: u64 },
    CarIsNotAvailable { car_id: u64 },
    CarIsNotRentedYet { car_id: u64 },
    /// The rental would end before it starts.
    InvalidRentDates {  },
    RentDoesNotExist { rent_id: u64 },
}

/// What a `ContractError` is to the specifications.
pub enum ErrorView {
    InsufficientBalance { balance: u64 },
    AmountOverflow { balance: u64 },
    UserAlreadyExists { address: Seq<char> },
    UserDoesNotExist { address: Seq<char> },
    CarDoesNotExist { car_id: u64 },
    CarAlreadyExists { car_id: u64 },
    CarIsNotAvailable { car_id: u64 },
    CarIsNotRentedYet { car_id: u64 },
    InvalidRentDates,
    RentDoesNotExist { rent_id: u64 },
}

impl View for ContractError {
    type V = ErrorView;

    open spec fn view(&self) -> ErrorView {
        match *self {
            ContractError::InsufficientBalance { balance } => ErrorView::InsufficientBalance {
                balance,
            },
            ContractError::AmountOverflow { balance } => ErrorView::AmountOverflow { balance },
            ContractError::UserAlreadyExists { address } => ErrorView::UserAlreadyExists {
                address: address@,
            },
            ContractError::UserDoesNotExist { address } => ErrorView::UserDoesNotExist {
                address: address@,
            },
            ContractError::CarDoesNotExist { car_id } => ErrorView::CarDoesNotExist { car_id },
            ContractError::CarAlreadyExists { car_id } => ErrorView::CarAlreadyExists { car_id },
            ContractError::CarIsNotAvailable { car_id } => ErrorView::CarIsNotAvailable { car_id },
            ContractError::CarIsNotRentedYet { car_id } => ErrorView::CarIsNotRentedYet { car_id },
            ContractError::InvalidRentDates {  } => ErrorView::InvalidRentDates,
            ContractError::RentDoesNotExist { rent_id } => ErrorView::RentDoesNotExist { rent_id },
        }
    }
}

/// A result as the specifications see it.
pub open spec fn outcome<T: View, E: View>(r: Result<T, E>) -> Result<T::V, E::V> {
    match r {
        Ok(t) => Ok(t@),
        Err(e) => Err(e@),
    }
}

} // verus!
