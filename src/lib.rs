//! A custodial ledger: each authority owns one record, at an address derived
//! from its identity, that tracks a balance backed by the lamports the record
//! holds. Deposits and withdrawals are all-or-nothing.
use vstd::prelude::*;

pub mod address;
pub mod state;
pub mod transfer;
pub mod instructions;
pub mod laws;
pub mod bank;
pub mod layout;

pub use bank::Bank;
pub use layout::{decode_instruction, decode_user_account, encode_instruction, encode_user_account, Instruction};
pub use laws::Movement;
pub use address::{find_user_account_address, check_user_account_address};
pub use instructions::{deposit, initialize, withdraw, Deposit, Initialize, Withdraw};
pub use state::{ErrorCode, RecordAccount, SignerAccount, UserAccount};

verus! {

} // verus!
