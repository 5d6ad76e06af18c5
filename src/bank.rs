//! The registry of records: one per authority, each at its derived address.
//! An operation runs on the signer's own record and commits as a whole.
use vstd::prelude::*;
use crate::address::{find_user_account_address, same_key, user_account_address};
use crate::instructions::{
    deposit, deposit_outcome, initialize, initialize_outcome, withdraw, withdraw_outcome, Deposit, Initialize,
    Withdraw,
};
use crate::laws::Movement;
use crate::state::{ErrorCode, RecordAccount, SignerAccount, UserAccount};

verus! {

/// The records, the program identity their addresses derive from, and what
/// creating a record costs.
pub struct Bank {
    pub program_id: [u8; 32],
    pub rent: u64,
    pub records: Vec<RecordAccount>,
}

/// No two records share an address.
pub open spec fn unique_keys(records: Seq<RecordAccount>) -> bool {
    forall|i: int, j: int| 0 <= i < j < records.len() ==> records[i].key@ != records[j].key@
}

/// Some record stands at `key`.
pub open spec fn has_record(records: Seq<RecordAccount>, key: Seq<u8>) -> bool {
    exists|i: int| 0 <= i < records.len() && records[i].key@ == key
}

/// The position of the record at `key`.
pub open spec fn record_index(records: Seq<RecordAccount>, key: Seq<u8>) -> int {
    choose|i: int| 0 <= i < records.len() && records[i].key@ == key
}

/// The records and the signer after the signer creates its record, or why it cannot.
pub open spec fn create_outcome(records: Seq<RecordAccount>, program_id: [u8; 32], rent: u64, user: SignerAccount) -> Result<(Seq<RecordAccount>, SignerAccount), ErrorCode> {
    if !user.is_signer {
        Err(ErrorCode::Unauthorized)
    } else {
        match user_account_address(user.key@, program_id@) {
            None => Err(ErrorCode::Unauthorized),
            Some(p) => if has_record(records, p.0@) {
                Err(ErrorCode::AlreadyExists)
            } else {
                let fresh = Initialize {
                    user_account: RecordAccount { key: p.0, lamports: 0, data: None },
                    user,
                    program_id,
                    rent,
                };
                match initialize_outcome(fresh) {
                    Err(e) => Err(e),
                    Ok(next) => Ok((records.push(next.user_account), next.user)),
                }
            },
        }
    }
}

/// The records and the signer after a movement on the signer's own record, or why it fails.
pub open spec fn move_outcome(records: Seq<RecordAccount>, program_id: [u8; 32], user: SignerAccount, m: Movement) -> Result<(Seq<RecordAccount>, SignerAccount), ErrorCode> {
    if !user.is_signer {
        Err(ErrorCode::Unauthorized)
    } else {
        match user_account_address(user.key@, program_id@) {
            None => Err(ErrorCode::Unauthorized),
            Some(p) => if !has_record(records, p.0@) {
                Err(ErrorCode::NotInitialized)
            } else {
                let i = record_index(records, p.0@);
                match m {
                    Movement::Deposit(amount) => match deposit_outcome(Deposit { user_account: records[i], user, program_id }, amount) {
                        Err(e) => Err(e),
                        Ok(next) => Ok((records.update(i, next.user_account), next.user)),
                    },
                    Movement::Withdraw(amount) => match withdraw_outcome(Withdraw { user_account: records[i], user, program_id }, amount) {
                        Err(e) => Err(e),
                        Ok(next) => Ok((records.update(i, next.user_account), next.user)),
                    },
                }
            },
        }
    }
}

impl Bank {
    /// The records have distinct addresses.
    pub open spec fn wf(&self) -> bool {
        unique_keys(self.records@)
    }

    /// A registry with no records.
    pub fn new(program_id: [u8; 32], rent: u64) -> (r: Bank)
        ensures
            r.wf(),
            r.program_id == program_id,
            r.rent == rent,
            r.records@ == Seq::<RecordAccount>::empty(),
    {
        Bank { program_id, rent, records: Vec::new() }
    }

    fn find_record(&self, key: &[u8; 32]) -> (r: Option<usize>)
        requires
            self.wf(),
        ensures
            match r {
                Some(i) => has_record(self.records@, key@) && i as int == record_index(self.records@, key@),
                None => !has_record(self.records@, key@),
            },
    {
        let mut i: usize = 0;
        while i < self.records.len()
            invariant
                0 <= i <= self.records@.len(),
                self.wf(),
                forall|j: int| 0 <= j < i ==> self.records@[j].key@ != key@,
            decreases self.records@.len() - i,
        {
            if same_key(&self.records[i].key, key) {
                let ghost c = record_index(self.records@, key@);
                assert(self.records@[i as int].key@ == key@);
                assert(c == i as int);
                return Some(i);
            }
            i = i + 1;
        }
        None
    }

    /// The record of `authority`, if it has been created.
    pub fn record_of(&self, authority: &[u8; 32]) -> (r: Option<RecordAccount>)
        requires
            self.wf(),
        ensures
            match user_account_address(authority@, self.program_id@) {
                Some(p) => if has_record(self.records@, p.0@) {
                    r == Some(self.records@[record_index(self.records@, p.0@)])
                } else {
                    r is None
                },
                None => r is None,
            },
    {
        match find_user_account_address(authority, &self.program_id) {
            Some(p) => match self.find_record(&p.0) {
                Some(i) => Some(self.records[i]),
                None => None,
            },
            None => None,
        }
    }

    /// Creates the signer's record at its derived address, the signer paying
    /// the rent into it; on failure nothing changes.
    pub fn create(&mut self, user: &mut SignerAccount) -> (r: Result<(), ErrorCode>)
        requires
            old(self).wf(),
        ensures
            final(self).wf(),
            final(self).program_id == old(self).program_id,
            final(self).rent == old(self).rent,
            match create_outcome(old(self).records@, old(self).program_id, old(self).rent, *old(user)) {
                Ok(next) => r is Ok && final(self).records@ == next.0 && *final(user) == next.1,
                Err(e) => r == Err::<(), ErrorCode>(e) && final(self).records@ == old(self).records@
                    && *final(user) == *old(user),
            },
    {
        if !user.is_signer {
            return Err(ErrorCode::Unauthorized);
        }
        let address = match find_user_account_address(&user.key, &self.program_id) {
            Some(p) => p.0,
            None => return Err(ErrorCode::Unauthorized),
        };
        if self.find_record(&address).is_some() {
            return Err(ErrorCode::AlreadyExists);
        }
        let mut ctx = Initialize {
            user_account: RecordAccount { key: address, lamports: 0, data: None },
            user: *user,
            program_id: self.program_id,
            rent: self.rent,
        };
        match initialize(&mut ctx) {
            Ok(()) => {},
            Err(e) => return Err(e),
        }
        let ghost before = self.records@;
        self.records.push(ctx.user_account);
        *user = ctx.user;
        assert forall|i: int, j: int| 0 <= i < j < self.records@.len() implies self.records@[i].key@ != self.records@[j].key@ by {
            if j == before.len() {
                assert(before[i].key@ != address@);
            }
        }
        Ok(())
    }

    fn apply(&mut self, user: &mut SignerAccount, m: Movement) -> (r: Result<(), ErrorCode>)
        requires
            old(self).wf(),
        ensures
            final(self).wf(),
            final(self).program_id == old(self).program_id,
            final(self).rent == old(self).rent,
            match move_outcome(old(self).records@, old(self).program_id, *old(user), m) {
                Ok(next) => r is Ok && final(self).records@ == next.0 && *final(user) == next.1,
                Err(e) => r == Err::<(), ErrorCode>(e) && final(self).records@ == old(self).records@
                    && *final(user) == *old(user),
            },
    {
        if !user.is_signer {
            return Err(ErrorCode::Unauthorized);
        }
        let address = match find_user_account_address(&user.key, &self.program_id) {
            Some(p) => p.0,
            None => return Err(ErrorCode::Unauthorized),
        };
        let i = match self.find_record(&address) {
            Some(i) => i,
            None => return Err(ErrorCode::NotInitialized),
        };
        let record = self.records[i];
        let result = match m {
            Movement::Deposit(amount) => {
                let mut ctx = Deposit { user_account: record, user: *user, program_id: self.program_id };
                match deposit(&mut ctx, amount) {
                    Ok(()) => Ok((ctx.user_account, ctx.user)),
                    Err(e) => Err(e),
                }
            },
            Movement::Withdraw(amount) => {
                let mut ctx = Withdraw { user_account: record, user: *user, program_id: self.program_id };
                match withdraw(&mut ctx, amount) {
                    Ok(()) => Ok((ctx.user_account, ctx.user)),
                    Err(e) => Err(e),
                }
            },
        };
        match result {
            Ok((next_record, next_user)) => {
                let ghost before = self.records@;
                self.records.set(i, next_record);
                *user = next_user;
                assert(next_record.key == record.key);
                assert forall|a: int, b: int| 0 <= a < b < self.records@.len() implies self.records@[a].key@ != self.records@[b].key@ by {
                    assert(before[a].key@ != before[b].key@);
                }
                Ok(())
            },
            Err(e) => Err(e),
        }
    }

    /// Deposits `amount` lamports from the signer into its own record; on
    /// failure nothing changes.
    pub fn deposit(&mut self, user: &mut SignerAccount, amount: u64) -> (r: Result<(), ErrorCode>)
        requires
            old(self).wf(),
        ensures
            final(self).wf(),
            final(self).program_id == old(self).program_id,
            final(self).rent == old(self).rent,
            match move_outcome(old(self).records@, old(self).program_id, *old(user), Movement::Deposit(amount)) {
                Ok(next) => r is Ok && final(self).records@ == next.0 && *final(user) == next.1,
                Err(e) => r == Err::<(), ErrorCode>(e) && final(self).records@ == old(self).records@
                    && *final(user) == *old(user),
            },
    {
        self.apply(user, Movement::Deposit(amount))
    }

    /// Withdraws `amount` lamports from the signer's own record back to the
    /// signer; on failure nothing changes.
    pub fn withdraw(&mut self, user: &mut SignerAccount, amount: u64) -> (r: Result<(), ErrorCode>)
        requires
            old(self).wf(),
        ensures
            final(self).wf(),
            final(self).program_id == old(self).program_id,
            final(self).rent == old(self).rent,
            match move_outcome(old(self).records@, old(self).program_id, *old(user), Movement::Withdraw(amount)) {
                Ok(next) => r is Ok && final(self).records@ == next.0 && *final(user) == next.1,
                Err(e) => r == Err::<(), ErrorCode>(e) && final(self).records@ == old(self).records@
                    && *final(user) == *old(user),
            },
    {
        self.apply(user, Movement::Withdraw(amount))
    }
}

/// A movement on the signer's record leaves every other record as it was.
pub proof fn lemma_move_touches_only_own_record(records: Seq<RecordAccount>, program_id: [u8; 32], user: SignerAccount, m: Movement)
    requires
        unique_keys(records),
        move_outcome(records, program_id, user, m) is Ok,
    ensures
        ({
            let next = move_outcome(records, program_id, user, m).unwrap().0;
            let own = user_account_address(user.key@, program_id@).unwrap().0;
            &&& next.len() == records.len()
            &&& forall|i: int| 0 <= i < records.len() && records[i].key@ != own@ ==> next[i] == records[i]
        }),
{
}

/// Two authorities that both create a record get records at distinct
/// addresses, and a later movement by either leaves the other's record as
/// it was.
pub proof fn lemma_independent_records(
    records: Seq<RecordAccount>,
    program_id: [u8; 32],
    rent: u64,
    a: SignerAccount,
    b: SignerAccount,
    m: Movement,
)
    requires
        unique_keys(records),
        create_outcome(records, program_id, rent, a) is Ok,
        create_outcome(create_outcome(records, program_id, rent, a).unwrap().0, program_id, rent, b) is Ok,
    ensures
        ({
            let after_a = create_outcome(records, program_id, rent, a).unwrap();
            let after_b = create_outcome(after_a.0, program_id, rent, b).unwrap();
            let both = after_b.0;
            let na = records.len() as int;
            &&& user_account_address(a.key@, program_id@).unwrap().0
                != user_account_address(b.key@, program_id@).unwrap().0
            &&& both.len() == records.len() + 2
            &&& both[na].key == user_account_address(a.key@, program_id@).unwrap().0
            &&& both[na + 1].key == user_account_address(b.key@, program_id@).unwrap().0
            &&& both[na].data == Some(UserAccount { authority: a.key, balance: 0 })
            &&& both[na + 1].data == Some(UserAccount { authority: b.key, balance: 0 })
            &&& (move_outcome(both, program_id, after_b.1, m) is Ok
                ==> move_outcome(both, program_id, after_b.1, m).unwrap().0[na] == both[na])
            &&& (move_outcome(both, program_id, after_a.1, m) is Ok
                ==> move_outcome(both, program_id, after_a.1, m).unwrap().0[na + 1] == both[na + 1])
        }),
{
    let after_a = create_outcome(records, program_id, rent, a).unwrap();
    let after_b = create_outcome(after_a.0, program_id, rent, b).unwrap();
    let both = after_b.0;
    let na = records.len() as int;
    let pa = user_account_address(a.key@, program_id@).unwrap().0;
    let pb = user_account_address(b.key@, program_id@).unwrap().0;
    assert(after_a.0[na].key == pa);
    assert(!has_record(after_a.0, pb@));
    assert(after_a.0[na].key@ != pb@);
    assert(unique_keys(after_a.0)) by {
        assert forall|i: int, j: int| 0 <= i < j < after_a.0.len() implies after_a.0[i].key@ != after_a.0[j].key@ by {
            if j == na {
                assert(!has_record(records, pa@));
                assert(records[i].key@ != pa@);
            }
        }
    }
    assert(unique_keys(both)) by {
        assert forall|i: int, j: int| 0 <= i < j < both.len() implies both[i].key@ != both[j].key@ by {
            if j == na + 1 {
                assert(after_a.0[i].key@ != pb@);
            }
        }
    }
    assert(both[na + 1].key == pb);
    assert(after_b.1.key == b.key);
    assert(after_a.1.key == a.key);
    if move_outcome(both, program_id, after_b.1, m) is Ok {
        lemma_move_touches_only_own_record(both, program_id, after_b.1, m);
    }
    if move_outcome(both, program_id, after_a.1, m) is Ok {
        lemma_move_touches_only_own_record(both, program_id, after_a.1, m);
    }
}

/// In the registry too, creating a record a second time fails with
/// `AlreadyExists` and leaves the records as the first call left them.
pub proof fn lemma_create_twice_in_registry(records: Seq<RecordAccount>, program_id: [u8; 32], rent: u64, user: SignerAccount)
    requires
        unique_keys(records),
        create_outcome(records, program_id, rent, user) is Ok,
    ensures
        ({
            let first = create_outcome(records, program_id, rent, user).unwrap();
            create_outcome(first.0, program_id, rent, first.1) == Err::<(Seq<RecordAccount>, SignerAccount), ErrorCode>(ErrorCode::AlreadyExists)
        }),
{
    let first = create_outcome(records, program_id, rent, user).unwrap();
    let p = user_account_address(user.key@, program_id@).unwrap();
    assert(first.0[records.len() as int].key@ == p.0@);
    assert(has_record(first.0, p.0@));
}

} // verus!
