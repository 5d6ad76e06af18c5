//! The value-transfer primitive: lamports move from one holding to another,
//! or nothing moves.
use vstd::prelude::*;
use crate::state::ErrorCode;

verus! {

/// The holdings after moving `amount` from `from` to `to`, or why it cannot move.
pub open spec fn transfer_outcome(from: u64, to: u64, amount: u64) -> Result<(u64, u64), ErrorCode> {
    if from < amount {
        Err(ErrorCode::InsufficientExternalFunds)
    } else if to + amount > u64::MAX {
        Err(ErrorCode::Overflow)
    } else {
        Ok(((from - amount) as u64, (to + amount) as u64))
    }
}

/// Moves `amount` lamports from the holding `from` to the holding `to`,
/// returning both new holdings.
pub fn transfer(from: u64, to: u64, amount: u64) -> (r: Result<(u64, u64), ErrorCode>)
    ensures
        r == transfer_outcome(from, to, amount),
{
    if from < amount {
        return Err(ErrorCode::InsufficientExternalFunds);
    }
    match to.checked_add(amount) {
        Some(credited) => Ok((from - amount, credited)),
        None => Err(ErrorCode::Overflow),
    }
}

} // verus!
