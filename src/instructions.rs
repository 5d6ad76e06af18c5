//! The three operations on a record: create, deposit and withdraw.
use vstd::prelude::*;
use crate::address::{check_user_account_address, is_user_account_address};
use crate::state::{ErrorCode, RecordAccount, SignerAccount, UserAccount};
use crate::transfer::{transfer, transfer_outcome};

verus! {

/// The accounts that creating a record touches, and the lamports its
/// allocation costs the signer.
#[derive(Clone, Copy, Debug, PartialEq, Eq)]
pub struct Initialize {
    pub user_account: RecordAccount,
    pub user: SignerAccount,
    pub program_id: [u8; 32],
    pub rent: u64,
}

/// The accounts that a deposit touches.
#[derive(Clone, Copy, Debug, PartialEq, Eq)]
pub struct Deposit {
    pub user_account: RecordAccount,
    pub user: SignerAccount,
    pub program_id: [u8; 32],
}

/// The accounts that a withdrawal touches.
#[derive(Clone, Copy, Debug, PartialEq, Eq)]
pub struct Withdraw {
    pub user_account: RecordAccount,
    pub user: SignerAccount,
    pub program_id: [u8; 32],
}

/// The signer signed, and the record stands at the address derived for it.
pub open spec fn authorized(user: SignerAccount, record_key: Seq<u8>, program_id: Seq<u8>) -> bool {
    user.is_signer && is_user_account_address(record_key, user.key@, program_id)
}

/// The accounts after creating the record, or why it cannot be created.
pub open spec fn initialize_outcome(ctx: Initialize) -> Result<Initialize, ErrorCode> {
    if !authorized(ctx.user, ctx.user_account.key@, ctx.program_id@) {
        Err(ErrorCode::Unauthorized)
    } else if ctx.user_account.data is Some {
        Err(ErrorCode::AlreadyExists)
    } else {
        match transfer_outcome(ctx.user.lamports, ctx.user_account.lamports, ctx.rent) {
            Err(e) => Err(e),
            Ok(moved) => Ok(Initialize {
                user_account: RecordAccount {
                    key: ctx.user_account.key,
                    lamports: moved.1,
                    data: Some(UserAccount { authority: ctx.user.key, balance: 0 }),
                },
                user: SignerAccount { key: ctx.user.key, lamports: moved.0, is_signer: ctx.user.is_signer },
                program_id: ctx.program_id,
                rent: ctx.rent,
            }),
        }
    }
}

/// The accounts after depositing `amount`, or why the deposit fails.
pub open spec fn deposit_outcome(ctx: Deposit, amount: u64) -> Result<Deposit, ErrorCode> {
    if !authorized(ctx.user, ctx.user_account.key@, ctx.program_id@) {
        Err(ErrorCode::Unauthorized)
    } else {
        match ctx.user_account.data {
            None => Err(ErrorCode::NotInitialized),
            Some(record) => match transfer_outcome(ctx.user.lamports, ctx.user_account.lamports, amount) {
                Err(e) => Err(e),
                Ok(moved) => if record.balance + amount > u64::MAX {
                    Err(ErrorCode::Overflow)
                } else {
                    Ok(Deposit {
                        user_account: RecordAccount {
                            key: ctx.user_account.key,
                            lamports: moved.1,
                            data: Some(UserAccount { authority: record.authority, balance: (record.balance + amount) as u64 }),
                        },
                        user: SignerAccount { key: ctx.user.key, lamports: moved.0, is_signer: ctx.user.is_signer },
                        program_id: ctx.program_id,
                    })
                },
            },
        }
    }
}

/// The accounts after withdrawing `amount`, or why the withdrawal fails.
pub open spec fn withdraw_outcome(ctx: Withdraw, amount: u64) -> Result<Withdraw, ErrorCode> {
    if !authorized(ctx.user, ctx.user_account.key@, ctx.program_id@) {
        Err(ErrorCode::Unauthorized)
    } else {
        match ctx.user_account.data {
            None => Err(ErrorCode::NotInitialized),
            Some(record) => if record.balance < amount {
                Err(ErrorCode::InsufficientFunds)
            } else if ctx.user_account.lamports < amount {
                Err(ErrorCode::InsufficientFunds)
            } else if ctx.user.lamports + amount > u64::MAX {
                Err(ErrorCode::Overflow)
            } else {
                Ok(Withdraw {
                    user_account: RecordAccount {
                        key: ctx.user_account.key,
                        lamports: (ctx.user_account.lamports - amount) as u64,
                        data: Some(UserAccount { authority: record.authority, balance: (record.balance - amount) as u64 }),
                    },
                    user: SignerAccount { key: ctx.user.key, lamports: (ctx.user.lamports + amount) as u64, is_signer: ctx.user.is_signer },
                    program_id: ctx.program_id,
                })
            },
        }
    }
}

fn check_authority(user: &SignerAccount, record_key: &[u8; 32], program_id: &[u8; 32]) -> (r: bool)
    ensures
        r == authorized(*user, record_key@, program_id@),
{
    user.is_signer && check_user_account_address(record_key, &user.key, program_id)
}

/// Creates the signer's record with a zero balance, the signer paying `rent`
/// into it; on failure nothing changes.
pub fn initialize(ctx: &mut Initialize) -> (r: Result<(), ErrorCode>)
    ensures
        match initialize_outcome(*old(ctx)) {
            Ok(next) => r is Ok && *final(ctx) == next,
            Err(e) => r == Err::<(), ErrorCode>(e) && *final(ctx) == *old(ctx),
        },
{
    if !check_authority(&ctx.user, &ctx.user_account.key, &ctx.program_id) {
        return Err(ErrorCode::Unauthorized);
    }
    if ctx.user_account.data.is_some() {
        return Err(ErrorCode::AlreadyExists);
    }
    let (user_lamports, record_lamports) = match transfer(ctx.user.lamports, ctx.user_account.lamports, ctx.rent) {
        Ok(moved) => moved,
        Err(e) => return Err(e),
    };
    ctx.user.lamports = user_lamports;
    ctx.user_account.lamports = record_lamports;
    ctx.user_account.data = Some(UserAccount { authority: ctx.user.key, balance: 0 });
    Ok(())
}

/// Moves `amount` lamports from the signer into its record and adds it to the
/// recorded balance; on failure nothing changes.
pub fn deposit(ctx: &mut Deposit, amount: u64) -> (r: Result<(), ErrorCode>)
    ensures
        match deposit_outcome(*old(ctx), amount) {
            Ok(next) => r is Ok && *final(ctx) == next,
            Err(e) => r == Err::<(), ErrorCode>(e) && *final(ctx) == *old(ctx),
        },
{
    if !check_authority(&ctx.user, &ctx.user_account.key, &ctx.program_id) {
        return Err(ErrorCode::Unauthorized);
    }
    let record = match ctx.user_account.data {
        Some(record) => record,
        None => return Err(ErrorCode::NotInitialized),
    };
    // Move the lamports first, then account for them.
    let (user_lamports, record_lamports) = match transfer(ctx.user.lamports, ctx.user_account.lamports, amount) {
        Ok(moved) => moved,
        Err(e) => return Err(e),
    };
    let balance = match record.balance.checked_add(amount) {
        Some(b) => b,
        None => return Err(ErrorCode::Overflow),
    };
    ctx.user.lamports = user_lamports;
    ctx.user_account.lamports = record_lamports;
    ctx.user_account.data = Some(UserAccount { authority: record.authority, balance });
    Ok(())
}

/// Takes `amount` off the recorded balance and moves that many lamports from
/// the record back to the signer; on failure, at any step, nothing changes.
pub fn withdraw(ctx: &mut Withdraw, amount: u64) -> (r: Result<(), ErrorCode>)
    ensures
        match withdraw_outcome(*old(ctx), amount) {
            Ok(next) => r is Ok && *final(ctx) == next,
            Err(e) => r == Err::<(), ErrorCode>(e) && *final(ctx) == *old(ctx),
        },
        r is Err ==> *final(ctx) == *old(ctx),
{
    if !check_authority(&ctx.user, &ctx.user_account.key, &ctx.program_id) {
        return Err(ErrorCode::Unauthorized);
    }
    let record = match ctx.user_account.data {
        Some(record) => record,
        None => return Err(ErrorCode::NotInitialized),
    };
    // The recorded balance first.
    let balance = match record.balance.checked_sub(amount) {
        Some(b) => b,
        None => return Err(ErrorCode::InsufficientFunds),
    };
    // Then the lamports the record really holds, checked on their own.
    let record_lamports = match ctx.user_account.lamports.checked_sub(amount) {
        Some(l) => l,
        None => return Err(ErrorCode::InsufficientFunds),
    };
    let user_lamports = match ctx.user.lamports.checked_add(amount) {
        Some(l) => l,
        None => return Err(ErrorCode::Overflow),
    };
    // Every step has passed: commit all of them together.
    ctx.user_account.data = Some(UserAccount { authority: record.authority, balance });
    ctx.user_account.lamports = record_lamports;
    ctx.user.lamports = user_lamports;
    Ok(())
}

} // verus!
