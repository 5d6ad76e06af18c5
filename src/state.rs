//! The record, the accounts an operation touches, and the errors.
use vstd::prelude::*;

verus! {

/// The ledger record: its authority, fixed at creation, and its balance in lamports.
#[derive(Clone, Copy, Debug, PartialEq, Eq)]
pub struct UserAccount {
    pub authority: [u8; 32],
    pub balance: u64,
}

/// Why an operation failed; a failed operation changes nothing.
#[derive(Clone, Copy, Debug, PartialEq, Eq, Structural)]
pub enum ErrorCode {
    /// The recorded balance or the record's lamports are below the amount.
    InsufficientFunds,
    /// An addition would exceed `u64::MAX`.
    Overflow,
    /// The signer holds fewer lamports than it must pay.
    InsufficientExternalFunds,
    /// A record already stands at the derived address.
    AlreadyExists,
    /// The request is not signed, or the record is not at the signer's derived address.
    Unauthorized,
    /// No record has been created at the address.
    NotInitialized,
}

/// The record's account: its address, the lamports it holds, and the record
/// once it has been created.
#[derive(Clone, Copy, Debug, PartialEq, Eq)]
pub struct RecordAccount {
    pub key: [u8; 32],
    pub lamports: u64,
    pub data: Option<UserAccount>,
}

/// The authority's own account: its identity, the lamports it holds outside
/// the ledger, and whether it signed the request.
#[derive(Clone, Copy, Debug, PartialEq, Eq)]
pub struct SignerAccount {
    pub key: [u8; 32],
    pub lamports: u64,
    pub is_signer: bool,
}

} // verus!
