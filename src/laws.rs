//! What holds of the operations taken together.
use vstd::prelude::*;
use crate::instructions::{
    authorized, deposit_outcome, initialize_outcome, withdraw_outcome, Deposit, Initialize, Withdraw,
};
use crate::state::{ErrorCode, RecordAccount, SignerAccount, UserAccount};

verus! {

/// One request that moves lamports into or out of a record.
pub enum Movement {
    Deposit(u64),
    Withdraw(u64),
}

/// The record and signer accounts after one movement; a failed one leaves both as they were.
pub open spec fn movement_step(record: RecordAccount, user: SignerAccount, program_id: [u8; 32], m: Movement) -> (RecordAccount, SignerAccount) {
    match m {
        Movement::Deposit(amount) => match deposit_outcome(Deposit { user_account: record, user, program_id }, amount) {
            Ok(next) => (next.user_account, next.user),
            Err(_) => (record, user),
        },
        Movement::Withdraw(amount) => match withdraw_outcome(Withdraw { user_account: record, user, program_id }, amount) {
            Ok(next) => (next.user_account, next.user),
            Err(_) => (record, user),
        },
    }
}

/// How much one movement adds to the balance: its amount if it is a deposit
/// that succeeds, minus its amount if it is a withdrawal that succeeds, else zero.
pub open spec fn movement_delta(record: RecordAccount, user: SignerAccount, program_id: [u8; 32], m: Movement) -> int {
    match m {
        Movement::Deposit(amount) => if deposit_outcome(Deposit { user_account: record, user, program_id }, amount) is Ok {
            amount as int
        } else {
            0
        },
        Movement::Withdraw(amount) => if withdraw_outcome(Withdraw { user_account: record, user, program_id }, amount) is Ok {
            -(amount as int)
        } else {
            0
        },
    }
}

/// The accounts after the movements in order.
pub open spec fn replay(record: RecordAccount, user: SignerAccount, program_id: [u8; 32], ms: Seq<Movement>) -> (RecordAccount, SignerAccount)
    decreases ms.len(),
{
    if ms.len() == 0 {
        (record, user)
    } else {
        let (r, u) = movement_step(record, user, program_id, ms[0]);
        replay(r, u, program_id, ms.drop_first())
    }
}

/// The sum of the deposits that succeeded minus the sum of the withdrawals that succeeded.
pub open spec fn net_movement(record: RecordAccount, user: SignerAccount, program_id: [u8; 32], ms: Seq<Movement>) -> int
    decreases ms.len(),
{
    if ms.len() == 0 {
        0
    } else {
        let (r, u) = movement_step(record, user, program_id, ms[0]);
        movement_delta(record, user, program_id, ms[0]) + net_movement(r, u, program_id, ms.drop_first())
    }
}

/// The balance of a record is what it started with plus the deposits that
/// succeeded minus the withdrawals that succeeded; the record stays in place
/// under the same authority.
pub proof fn lemma_balance_is_net_movement(record: RecordAccount, user: SignerAccount, program_id: [u8; 32], ms: Seq<Movement>)
    requires
        record.data is Some,
    ensures
        replay(record, user, program_id, ms).0.data is Some,
        replay(record, user, program_id, ms).0.key == record.key,
        replay(record, user, program_id, ms).0.data.unwrap().authority == record.data.unwrap().authority,
        replay(record, user, program_id, ms).0.data.unwrap().balance
            == record.data.unwrap().balance + net_movement(record, user, program_id, ms),
    decreases ms.len(),
{
    if ms.len() > 0 {
        let (r, u) = movement_step(record, user, program_id, ms[0]);
        lemma_balance_is_net_movement(r, u, program_id, ms.drop_first());
    }
}

/// A freshly created record's balance is exactly the deposits that succeeded
/// minus the withdrawals that succeeded.
pub proof fn lemma_created_balance_is_net_movement(ctx: Initialize, ms: Seq<Movement>)
    requires
        initialize_outcome(ctx) is Ok,
    ensures
        ({
            let created = initialize_outcome(ctx).unwrap();
            replay(created.user_account, created.user, created.program_id, ms).0.data.unwrap().balance
                == net_movement(created.user_account, created.user, created.program_id, ms)
        }),
{
    let created = initialize_outcome(ctx).unwrap();
    lemma_balance_is_net_movement(created.user_account, created.user, created.program_id, ms);
}

/// Creating a record a second time fails with `AlreadyExists`, and that
/// failure leaves the record as the first call made it.
pub proof fn lemma_create_twice(ctx: Initialize)
    requires
        initialize_outcome(ctx) is Ok,
    ensures
        initialize_outcome(initialize_outcome(ctx).unwrap()) == Err::<Initialize, ErrorCode>(ErrorCode::AlreadyExists),
        initialize_outcome(ctx).unwrap().user_account.data == Some(UserAccount { authority: ctx.user.key, balance: 0 }),
{
}

/// Withdrawing the whole balance succeeds and leaves it at zero, where the
/// record holds at least its balance and the signer can receive it.
pub proof fn lemma_withdraw_whole_balance(ctx: Withdraw)
    requires
        authorized(ctx.user, ctx.user_account.key@, ctx.program_id@),
        ctx.user_account.data is Some,
        ctx.user_account.lamports >= ctx.user_account.data.unwrap().balance,
        ctx.user.lamports + ctx.user_account.data.unwrap().balance <= u64::MAX,
    ensures
        withdraw_outcome(ctx, ctx.user_account.data.unwrap().balance) is Ok,
        withdraw_outcome(ctx, ctx.user_account.data.unwrap().balance).unwrap().user_account.data.unwrap().balance == 0,
{
}

/// Withdrawing one lamport more than the balance fails with
/// `InsufficientFunds`, and so changes nothing.
pub proof fn lemma_withdraw_past_balance(ctx: Withdraw)
    requires
        authorized(ctx.user, ctx.user_account.key@, ctx.program_id@),
        ctx.user_account.data is Some,
        ctx.user_account.data.unwrap().balance < u64::MAX,
    ensures
        withdraw_outcome(ctx, (ctx.user_account.data.unwrap().balance + 1) as u64)
            == Err::<Withdraw, ErrorCode>(ErrorCode::InsufficientFunds),
{
}

/// A deposit that would carry the balance past `u64::MAX` fails with
/// `Overflow`, and so changes nothing, where the record holds at least its
/// balance and the signer holds the amount.
pub proof fn lemma_deposit_past_max(ctx: Deposit, amount: u64)
    requires
        authorized(ctx.user, ctx.user_account.key@, ctx.program_id@),
        ctx.user_account.data is Some,
        ctx.user_account.lamports >= ctx.user_account.data.unwrap().balance,
        ctx.user.lamports >= amount,
        ctx.user_account.data.unwrap().balance + amount > u64::MAX,
    ensures
        deposit_outcome(ctx, amount) == Err::<Deposit, ErrorCode>(ErrorCode::Overflow),
{
}

/// A record that holds at least its balance still does after any operation
/// on it, and a new record starts so.
pub proof fn lemma_holding_covers_balance(ctx: Initialize, record: RecordAccount, user: SignerAccount, program_id: [u8; 32], m: Movement)
    requires
        record.data is Some ==> record.lamports >= record.data.unwrap().balance,
    ensures
        initialize_outcome(ctx) is Ok ==> ({
            let created = initialize_outcome(ctx).unwrap().user_account;
            created.lamports >= created.data.unwrap().balance
        }),
        ({
            let next = movement_step(record, user, program_id, m).0;
            next.data is Some ==> next.lamports >= next.data.unwrap().balance
        }),
{
}

} // verus!
