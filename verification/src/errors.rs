//! The single, flat error type shared by the ledger and the registry.

use vstd::prelude::*;

verus! {

/// Why an operation was rejected. A rejected operation changes nothing.
#[derive(Clone, Copy, Debug, PartialEq, Eq, Structural)]
pub enum ContractError {
    /// The registry already holds an institution.
    AlreadyInitialized,
    /// The registry holds no institution yet.
    NotInitialized,
    /// The acting identity is not the administrator.
    Unauthorized,
    /// A salary was zero or negative.
    InvalidSalary,
    /// A name was empty.
    InvalidName,
    /// The holder already has an employee record.
    EmployeeAlreadyExists,
    /// The holder has no employee record.
    EmployeeNotFound,
    /// A promotion named the rank the employee already has.
    SameRank,
    /// A holder's balance is smaller than the amount to take from it.
    InsufficientBalance,
    /// The live allowance is smaller than the amount to spend.
    InsufficientAllowance,
    /// The allowance's expiration lies before the current ledger sequence.
    AllowanceExpired,
    /// An amount was outside the range the operation accepts.
    InvalidAmount,
}

/// Whether an operation on a state did what its model asks: where the model
/// gives a new state, the operation succeeded and the state is that one;
/// where the model gives an error, the operation failed with that error and
/// the state is as it was.
pub open spec fn follows<M>(
    r: Result<(), ContractError>,
    before: M,
    now: M,
    expected: Result<M, ContractError>,
) -> bool {
    match expected {
        Ok(next) => r is Ok && now == next,
        Err(e) => r == Err::<(), ContractError>(e) && now == before,
    }
}

/// Whether a result is the one its model asks for: the value whose model is
/// the expected one, or the expected error.
pub open spec fn yields<T: View>(r: Result<T, ContractError>, expected: Result<T::V, ContractError>) -> bool {
    match r {
        Ok(v) => expected == Ok::<T::V, ContractError>(v@),
        Err(e) => expected == Err::<T::V, ContractError>(e),
    }
}

/// Whether an amount is the one its model asks for, or the error is.
pub open spec fn yields_amount(r: Result<i128, ContractError>, expected: Result<int, ContractError>) -> bool {
    match r {
        Ok(v) => expected == Ok::<int, ContractError>(v as int),
        Err(e) => expected == Err::<int, ContractError>(e),
    }
}

} // verus!
