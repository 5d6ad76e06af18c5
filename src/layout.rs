//! The bytes of a stored record and of a request: an eight-byte tag, then
//! the fields in order, integers little-endian.
use vstd::prelude::*;
use vstd::bytes::{
    lemma_auto_spec_u64_to_from_le_bytes, spec_u64_from_le_bytes, spec_u64_to_le_bytes, u64_from_le_bytes,
    u64_to_le_bytes,
};
use vstd::slice::slice_subrange;
use vstd::string::StringSliceAdditionalSpecFns;
use crate::state::UserAccount;

verus! {

/// The SHA-256 digest of `data`.
pub uninterp spec fn sha256_of(data: Seq<u8>) -> [u8; 32];

/// Relies on `solana_program::hash::hash` (through anchor_lang): the SHA-256
/// digest of the bytes, a function of the bytes alone.
#[verifier::external_body]
fn sha256(data: &[u8]) -> (r: [u8; 32])
    ensures
        r == sha256_of(data@),
{
    anchor_lang::solana_program::hash::hash(data).to_bytes()
}

/// What a stored record is tagged with.
pub const ACCOUNT_TAG: &'static str = "account:UserAccount";
/// What a request to create a record is tagged with.
pub const INITIALIZE_TAG: &'static str = "global:initialize";
/// What a deposit request is tagged with.
pub const DEPOSIT_TAG: &'static str = "global:deposit";
/// What a withdrawal request is tagged with.
pub const WITHDRAW_TAG: &'static str = "global:withdraw";

/// The bytes a stored record takes: tag, authority, balance.
pub const RECORD_LEN: usize = 48;

/// The eight-byte tag derived from a name: the head of its digest.
pub open spec fn tag_of(name: Seq<u8>) -> Seq<u8> {
    sha256_of(name)@.subrange(0, 8)
}

/// Computes the eight-byte tag of `name`.
pub fn tag(name: &str) -> (r: Vec<u8>)
    ensures
        r@ == tag_of(name.spec_bytes()),
{
    let digest = sha256(name.as_bytes());
    let mut r: Vec<u8> = Vec::new();
    let mut i: usize = 0;
    while i < 8
        invariant
            0 <= i <= 8,
            digest@.len() == 32,
            r@ == digest@.subrange(0, i as int),
        decreases 8 - i,
    {
        r.push(digest[i]);
        i = i + 1;
        assert(r@ =~= digest@.subrange(0, i as int));
    }
    r
}

/// The stored form of a record.
pub open spec fn record_bytes(a: UserAccount) -> Seq<u8> {
    tag_of(ACCOUNT_TAG.spec_bytes()) + a.authority@ + spec_u64_to_le_bytes(a.balance)
}

/// A request, as the three operations are told apart.
#[derive(Clone, Copy, Debug, PartialEq, Eq, Structural)]
pub enum Instruction {
    Initialize,
    Deposit { amount: u64 },
    Withdraw { amount: u64 },
}

/// The bytes of a request: its tag, then its amount if it has one.
pub open spec fn instruction_bytes(ix: Instruction) -> Seq<u8> {
    match ix {
        Instruction::Initialize => tag_of(INITIALIZE_TAG.spec_bytes()),
        Instruction::Deposit { amount } => tag_of(DEPOSIT_TAG.spec_bytes()) + spec_u64_to_le_bytes(amount),
        Instruction::Withdraw { amount } => tag_of(WITHDRAW_TAG.spec_bytes()) + spec_u64_to_le_bytes(amount),
    }
}

fn push_all(out: &mut Vec<u8>, s: &[u8])
    ensures
        final(out)@ == old(out)@ + s@,
{
    let mut i: usize = 0;
    while i < s.len()
        invariant
            0 <= i <= s@.len(),
            out@ == old(out)@ + s@.subrange(0, i as int),
        decreases s@.len() - i,
    {
        out.push(s[i]);
        i = i + 1;
        assert(out@ =~= old(out)@ + s@.subrange(0, i as int));
    }
    assert(s@.subrange(0, s@.len() as int) =~= s@);
}

/// Whether `data` holds `expected` from position `start` on.
fn holds_at(data: &[u8], start: usize, expected: &[u8]) -> (r: bool)
    requires
        start + expected@.len() <= data@.len(),
    ensures
        r == (data@.subrange(start as int, start + expected@.len()) == expected@),
{
    let n = data.len();
    let mut i: usize = 0;
    while i < expected.len()
        invariant
            0 <= i <= expected@.len(),
            n == data@.len(),
            start + expected@.len() <= data@.len(),
            forall|j: int| 0 <= j < i ==> data@[start + j] == expected@[j],
        decreases expected@.len() - i,
    {
        if data[start + i] != expected[i] {
            assert(data@.subrange(start as int, start + expected@.len())[i as int] != expected@[i as int]);
            return false;
        }
        i = i + 1;
    }
    assert(data@.subrange(start as int, start + expected@.len()) =~= expected@);
    true
}

/// The stored form of `a`.
pub fn encode_user_account(a: &UserAccount) -> (r: Vec<u8>)
    ensures
        r@ == record_bytes(*a),
{
    let mut r = tag(ACCOUNT_TAG);
    push_all(&mut r, a.authority.as_slice());
    let balance = u64_to_le_bytes(a.balance);
    push_all(&mut r, balance.as_slice());
    r
}

/// The record stored in `data`, or `None` where `data` is no stored record.
pub fn decode_user_account(data: &[u8]) -> (r: Option<UserAccount>)
    ensures
        match r {
            Some(a) => data@ == record_bytes(a),
            None => forall|a: UserAccount| data@ != #[trigger] record_bytes(a),
        },
{
    proof {
        lemma_auto_spec_u64_to_from_le_bytes();
    }
    let head = tag(ACCOUNT_TAG);
    if data.len() != RECORD_LEN || !holds_at(data, 0, head.as_slice()) {
        assert forall|a: UserAccount| data@ != #[trigger] record_bytes(a) by {
            if data@ == record_bytes(a) {
                assert(spec_u64_to_le_bytes(a.balance).len() == 8);
                assert(data@.subrange(0, 8) =~= head@);
            }
        }
        return None;
    }
    let mut authority: [u8; 32] = [0u8; 32];
    let mut i: usize = 0;
    while i < 32
        invariant
            0 <= i <= 32,
            data@.len() == 48,
            forall|j: int| 0 <= j < i ==> authority@[j] == data@[8 + j],
        decreases 32 - i,
    {
        authority[i] = data[8 + i];
        i = i + 1;
    }
    let balance = u64_from_le_bytes(slice_subrange(data, 40, 48));
    let a = UserAccount { authority, balance };
    assert(authority@ =~= data@.subrange(8, 40));
    assert(spec_u64_to_le_bytes(balance) == data@.subrange(40, 48));
    assert(data@ =~= data@.subrange(0, 8) + data@.subrange(8, 40) + data@.subrange(40, 48));
    Some(a)
}

/// The bytes of the request `ix`.
pub fn encode_instruction(ix: &Instruction) -> (r: Vec<u8>)
    ensures
        r@ == instruction_bytes(*ix),
{
    match ix {
        Instruction::Initialize => tag(INITIALIZE_TAG),
        Instruction::Deposit { amount } => {
            let mut r = tag(DEPOSIT_TAG);
            let bytes = u64_to_le_bytes(*amount);
            push_all(&mut r, bytes.as_slice());
            r
        },
        Instruction::Withdraw { amount } => {
            let mut r = tag(WITHDRAW_TAG);
            let bytes = u64_to_le_bytes(*amount);
            push_all(&mut r, bytes.as_slice());
            r
        },
    }
}

/// The request that `data` holds, or `None` where it holds none.
pub fn decode_instruction(data: &[u8]) -> (r: Option<Instruction>)
    ensures
        match r {
            Some(ix) => data@ == instruction_bytes(ix),
            None => forall|ix: Instruction| data@ != #[trigger] instruction_bytes(ix),
        },
{
    proof {
        lemma_auto_spec_u64_to_from_le_bytes();
    }
    let init = tag(INITIALIZE_TAG);
    let dep = tag(DEPOSIT_TAG);
    let wd = tag(WITHDRAW_TAG);
    if data.len() == 8 && holds_at(data, 0, init.as_slice()) {
        assert(data@ =~= init@);
        return Some(Instruction::Initialize);
    }
    if data.len() == 16 {
        let amount = u64_from_le_bytes(slice_subrange(data, 8, 16));
        assert(data@ =~= data@.subrange(0, 8) + data@.subrange(8, 16));
        if holds_at(data, 0, dep.as_slice()) {
            return Some(Instruction::Deposit { amount });
        }
        if holds_at(data, 0, wd.as_slice()) {
            return Some(Instruction::Withdraw { amount });
        }
    }
    assert forall|ix: Instruction| data@ != #[trigger] instruction_bytes(ix) by {
        if data@ == instruction_bytes(ix) {
            match ix {
                Instruction::Initialize => {
                    assert(data@.subrange(0, 8) =~= init@);
                },
                Instruction::Deposit { amount } => {
                    assert(spec_u64_to_le_bytes(amount).len() == 8);
                    assert(data@.subrange(0, 8) =~= dep@);
                },
                Instruction::Withdraw { amount } => {
                    assert(spec_u64_to_le_bytes(amount).len() == 8);
                    assert(data@.subrange(0, 8) =~= wd@);
                },
            }
        }
    }
    None
}

/// Two records with the same stored form are the same record: reading back
/// a stored record gives the record that was stored.
pub proof fn lemma_record_bytes_injective(a: UserAccount, b: UserAccount)
    requires
        record_bytes(a) == record_bytes(b),
    ensures
        a == b,
{
    lemma_auto_spec_u64_to_from_le_bytes();
    assert(record_bytes(a).subrange(8, 40) =~= a.authority@);
    assert(record_bytes(b).subrange(8, 40) =~= b.authority@);
    assert(a.authority =~= b.authority);
    assert(record_bytes(a).subrange(40, 48) =~= spec_u64_to_le_bytes(a.balance));
    assert(record_bytes(b).subrange(40, 48) =~= spec_u64_to_le_bytes(b.balance));
    assert(spec_u64_from_le_bytes(spec_u64_to_le_bytes(a.balance)) == a.balance);
    assert(spec_u64_from_le_bytes(spec_u64_to_le_bytes(b.balance)) == b.balance);
}

} // verus!
