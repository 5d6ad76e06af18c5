use anchor_lang::prelude::Pubkey;
use sol_bank::transfer::transfer;
use sol_bank::{
    check_user_account_address, deposit, find_user_account_address, initialize, withdraw, Bank, Deposit,
    ErrorCode, Initialize, RecordAccount, SignerAccount, UserAccount, Withdraw,
};

const PROGRAM: [u8; 32] = [7u8; 32];
const ALICE: [u8; 32] = [1u8; 32];
const BOB: [u8; 32] = [2u8; 32];

fn signer(key: [u8; 32], lamports: u64) -> SignerAccount {
    SignerAccount { key, lamports, is_signer: true }
}

fn address_of(authority: &[u8; 32]) -> [u8; 32] {
    find_user_account_address(authority, &PROGRAM).unwrap().0
}

fn balance_of(bank: &Bank, authority: &[u8; 32]) -> u64 {
    bank.record_of(authority).unwrap().data.unwrap().balance
}

fn record(authority: [u8; 32], lamports: u64, balance: u64) -> RecordAccount {
    RecordAccount {
        key: address_of(&authority),
        lamports,
        data: Some(UserAccount { authority, balance }),
    }
}

#[test]
fn derived_address_matches_program_address() {
    let (address, bump) = find_user_account_address(&ALICE, &PROGRAM).unwrap();
    let expected = Pubkey::find_program_address(
        &[b"user-account", &ALICE[..]],
        &Pubkey::new_from_array(PROGRAM),
    );
    assert_eq!(address, expected.0.to_bytes());
    assert_eq!(bump, expected.1);
    assert_ne!(address, ALICE);
    assert_ne!(address, PROGRAM);
}

#[test]
fn address_check_accepts_only_the_derived_address() {
    let address = address_of(&ALICE);
    assert!(check_user_account_address(&address, &ALICE, &PROGRAM));
    assert!(!check_user_account_address(&address, &BOB, &PROGRAM));
    assert!(!check_user_account_address(&ALICE, &ALICE, &PROGRAM));
}

#[test]
fn scenario_create_deposit_withdraw() {
    let mut bank = Bank::new(PROGRAM, 0);
    let mut alice = signer(ALICE, 10_000);
    assert_eq!(bank.create(&mut alice), Ok(()));
    assert_eq!(balance_of(&bank, &ALICE), 0);
    assert_eq!(bank.deposit(&mut alice, 1000), Ok(()));
    assert_eq!(balance_of(&bank, &ALICE), 1000);
    assert_eq!(bank.withdraw(&mut alice, 400), Ok(()));
    assert_eq!(balance_of(&bank, &ALICE), 600);
    assert_eq!(bank.withdraw(&mut alice, 700), Err(ErrorCode::InsufficientFunds));
    assert_eq!(balance_of(&bank, &ALICE), 600);
    assert_eq!(alice.lamports, 10_000 - 600);
    assert_eq!(bank.record_of(&ALICE).unwrap().lamports, 600);
}

#[test]
fn balance_is_deposits_minus_withdrawals() {
    let mut bank = Bank::new(PROGRAM, 0);
    let mut alice = signer(ALICE, 5_000);
    bank.create(&mut alice).unwrap();
    let mut net: u64 = 0;
    for (is_deposit, amount) in [(true, 300u64), (true, 200), (false, 450), (false, 100), (true, 9_999), (true, 75)] {
        let r = if is_deposit { bank.deposit(&mut alice, amount) } else { bank.withdraw(&mut alice, amount) };
        if r.is_ok() {
            if is_deposit { net += amount } else { net -= amount }
        }
        assert_eq!(balance_of(&bank, &ALICE), net);
    }
    assert_eq!(net, 300 + 200 - 450 + 75);
}

#[test]
fn create_twice_fails_with_already_exists() {
    let mut bank = Bank::new(PROGRAM, 50);
    let mut alice = signer(ALICE, 1_000);
    assert_eq!(bank.create(&mut alice), Ok(()));
    bank.deposit(&mut alice, 100).unwrap();
    let before = bank.record_of(&ALICE).unwrap();
    assert_eq!(bank.create(&mut alice), Err(ErrorCode::AlreadyExists));
    assert_eq!(bank.record_of(&ALICE).unwrap(), before);
    assert_eq!(before.data.unwrap().authority, ALICE);
    assert_eq!(before.data.unwrap().balance, 100);
    assert_eq!(bank.records.len(), 1);
}

#[test]
fn create_charges_rent_outside_the_balance() {
    let mut bank = Bank::new(PROGRAM, 50);
    let mut alice = signer(ALICE, 1_000);
    bank.create(&mut alice).unwrap();
    assert_eq!(alice.lamports, 950);
    let created = bank.record_of(&ALICE).unwrap();
    assert_eq!(created.lamports, 50);
    assert_eq!(created.key, address_of(&ALICE));
    assert_eq!(created.data, Some(UserAccount { authority: ALICE, balance: 0 }));
}

#[test]
fn create_without_rent_fails_with_insufficient_external_funds() {
    let mut bank = Bank::new(PROGRAM, 50);
    let mut alice = signer(ALICE, 49);
    assert_eq!(bank.create(&mut alice), Err(ErrorCode::InsufficientExternalFunds));
    assert_eq!(alice.lamports, 49);
    assert!(bank.record_of(&ALICE).is_none());
}

#[test]
fn unsigned_requests_are_unauthorized() {
    let mut bank = Bank::new(PROGRAM, 0);
    let mut alice = signer(ALICE, 1_000);
    bank.create(&mut alice).unwrap();
    let mut forged = SignerAccount { key: ALICE, lamports: 1_000, is_signer: false };
    assert_eq!(bank.create(&mut forged), Err(ErrorCode::Unauthorized));
    assert_eq!(bank.deposit(&mut forged, 10), Err(ErrorCode::Unauthorized));
    assert_eq!(bank.withdraw(&mut forged, 10), Err(ErrorCode::Unauthorized));
    assert_eq!(forged.lamports, 1_000);
}

#[test]
fn movement_before_create_is_not_initialized() {
    let mut bank = Bank::new(PROGRAM, 0);
    let mut alice = signer(ALICE, 1_000);
    assert_eq!(bank.deposit(&mut alice, 10), Err(ErrorCode::NotInitialized));
    assert_eq!(bank.withdraw(&mut alice, 10), Err(ErrorCode::NotInitialized));
    assert_eq!(alice.lamports, 1_000);
}

#[test]
fn withdraw_whole_balance_leaves_zero() {
    let mut bank = Bank::new(PROGRAM, 0);
    let mut alice = signer(ALICE, 1_000);
    bank.create(&mut alice).unwrap();
    bank.deposit(&mut alice, 640).unwrap();
    assert_eq!(bank.withdraw(&mut alice, 640), Ok(()));
    assert_eq!(balance_of(&bank, &ALICE), 0);
    assert_eq!(alice.lamports, 1_000);
}

#[test]
fn withdraw_one_past_balance_fails() {
    let mut bank = Bank::new(PROGRAM, 0);
    let mut alice = signer(ALICE, 1_000);
    bank.create(&mut alice).unwrap();
    bank.deposit(&mut alice, 640).unwrap();
    assert_eq!(bank.withdraw(&mut alice, 641), Err(ErrorCode::InsufficientFunds));
    assert_eq!(balance_of(&bank, &ALICE), 640);
    assert_eq!(alice.lamports, 360);
}

#[test]
fn deposit_past_max_overflows() {
    let mut ctx = Deposit {
        user_account: record(ALICE, u64::MAX - 5, u64::MAX - 5),
        user: signer(ALICE, 100),
        program_id: PROGRAM,
    };
    let before = ctx;
    assert_eq!(deposit(&mut ctx, 10), Err(ErrorCode::Overflow));
    assert_eq!(ctx, before);
    assert_eq!(deposit(&mut ctx, 5), Ok(()));
    assert_eq!(ctx.user_account.data.unwrap().balance, u64::MAX);
    assert_eq!(ctx.user.lamports, 95);
}

#[test]
fn deposit_overflow_on_recorded_balance_alone() {
    let mut ctx = Deposit {
        user_account: record(ALICE, 0, u64::MAX - 5),
        user: signer(ALICE, 100),
        program_id: PROGRAM,
    };
    let before = ctx;
    assert_eq!(deposit(&mut ctx, 10), Err(ErrorCode::Overflow));
    assert_eq!(ctx, before);
}

#[test]
fn deposit_beyond_signer_holding_fails() {
    let mut ctx = Deposit { user_account: record(ALICE, 0, 0), user: signer(ALICE, 99), program_id: PROGRAM };
    let before = ctx;
    assert_eq!(deposit(&mut ctx, 100), Err(ErrorCode::InsufficientExternalFunds));
    assert_eq!(ctx, before);
}

#[test]
fn deposit_into_foreign_record_is_unauthorized() {
    let mut ctx = Deposit { user_account: record(BOB, 0, 0), user: signer(ALICE, 100), program_id: PROGRAM };
    let before = ctx;
    assert_eq!(deposit(&mut ctx, 10), Err(ErrorCode::Unauthorized));
    assert_eq!(ctx, before);
}

#[test]
fn withdraw_credit_overflow_leaves_no_trace() {
    let mut ctx = Withdraw {
        user_account: record(ALICE, 100, 100),
        user: signer(ALICE, u64::MAX - 10),
        program_id: PROGRAM,
    };
    let before = ctx;
    assert_eq!(withdraw(&mut ctx, 50), Err(ErrorCode::Overflow));
    assert_eq!(ctx, before);
    assert_eq!(withdraw(&mut ctx, 10), Ok(()));
    assert_eq!(ctx.user.lamports, u64::MAX);
    assert_eq!(ctx.user_account.lamports, 90);
    assert_eq!(ctx.user_account.data.unwrap().balance, 90);
}

#[test]
fn withdraw_checks_raw_holding_independently() {
    let mut ctx = Withdraw { user_account: record(ALICE, 30, 100), user: signer(ALICE, 0), program_id: PROGRAM };
    let before = ctx;
    assert_eq!(withdraw(&mut ctx, 50), Err(ErrorCode::InsufficientFunds));
    assert_eq!(ctx, before);
}

#[test]
fn withdraw_from_uncreated_record_is_not_initialized() {
    let mut ctx = Withdraw {
        user_account: RecordAccount { key: address_of(&ALICE), lamports: 0, data: None },
        user: signer(ALICE, 0),
        program_id: PROGRAM,
    };
    assert_eq!(withdraw(&mut ctx, 1), Err(ErrorCode::NotInitialized));
}

#[test]
fn initialize_sets_authority_and_zero_balance() {
    let mut ctx = Initialize {
        user_account: RecordAccount { key: address_of(&ALICE), lamports: 0, data: None },
        user: signer(ALICE, 500),
        program_id: PROGRAM,
        rent: 20,
    };
    assert_eq!(initialize(&mut ctx), Ok(()));
    assert_eq!(ctx.user_account.data, Some(UserAccount { authority: ALICE, balance: 0 }));
    assert_eq!(ctx.user_account.lamports, 20);
    assert_eq!(ctx.user.lamports, 480);
    let after = ctx;
    assert_eq!(initialize(&mut ctx), Err(ErrorCode::AlreadyExists));
    assert_eq!(ctx, after);
}

#[test]
fn initialize_at_wrong_address_is_unauthorized() {
    let mut ctx = Initialize {
        user_account: RecordAccount { key: address_of(&BOB), lamports: 0, data: None },
        user: signer(ALICE, 500),
        program_id: PROGRAM,
        rent: 20,
    };
    let before = ctx;
    assert_eq!(initialize(&mut ctx), Err(ErrorCode::Unauthorized));
    assert_eq!(ctx, before);
}

#[test]
fn records_of_distinct_authorities_are_independent() {
    let mut bank = Bank::new(PROGRAM, 0);
    let mut alice = signer(ALICE, 1_000);
    let mut bob = signer(BOB, 1_000);
    bank.create(&mut alice).unwrap();
    bank.create(&mut bob).unwrap();
    assert_ne!(address_of(&ALICE), address_of(&BOB));
    assert_eq!(bank.records.len(), 2);
    bank.deposit(&mut bob, 70).unwrap();
    bank.deposit(&mut alice, 300).unwrap();
    assert_eq!(balance_of(&bank, &BOB), 70);
    bank.withdraw(&mut alice, 120).unwrap();
    assert_eq!(balance_of(&bank, &BOB), 70);
    assert_eq!(balance_of(&bank, &ALICE), 180);
    bank.withdraw(&mut bob, 70).unwrap();
    assert_eq!(balance_of(&bank, &ALICE), 180);
    assert_eq!(balance_of(&bank, &BOB), 0);
}

#[test]
fn transfer_moves_or_refuses() {
    assert_eq!(transfer(100, 5, 40), Ok((60, 45)));
    assert_eq!(transfer(100, 5, 100), Ok((0, 105)));
    assert_eq!(transfer(39, 5, 40), Err(ErrorCode::InsufficientExternalFunds));
    assert_eq!(transfer(100, u64::MAX - 39, 40), Err(ErrorCode::Overflow));
}
