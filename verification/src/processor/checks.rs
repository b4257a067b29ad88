use vstd::prelude::*;
use crate::error::ElemfiError;
use crate::key::Pubkey;
use crate::token::{AccountView, spec_token_balance, spec_token_mint, spec_token_owner, token_balance};

verus! {

/// The program that carries out a transfer.
#[derive(Clone, Copy, Debug, PartialEq, Eq, Structural)]
pub enum TransferProgram {
    /// A lamport transfer through the system program.
    System,
    /// A token transfer through the SPL token program.
    Token,
}

/// An account that a transfer moves funds from or to.
#[derive(Clone, Copy, Debug, PartialEq, Eq, Structural)]
pub enum AccountRef {
    /// The extra account at this index.
    Remaining(usize),
    /// The instruction's destination account.
    Destination,
}

/// A transfer that an instruction asks for once its checks have passed.
#[derive(Clone, Copy, Debug, PartialEq, Eq, Structural)]
pub struct Transfer {
    pub program: TransferProgram,
    pub from: AccountRef,
    pub to: AccountRef,
    pub amount: u64,
}

/// `first`, unless it refuses; otherwise `next`.
pub open spec fn next_if_ok<T>(first: Result<(), ElemfiError>, next: Result<T, ElemfiError>) -> Result<
    T,
    ElemfiError,
> {
    match first {
        Err(e) => Err(e),
        Ok(_) => next,
    }
}

/// Whether `data[at..at + 32]` holds the bytes of `key`.
pub fn bytes_match_key(data: &[u8], at: usize, key: &Pubkey) -> (r: bool)
    requires
        at + 32 <= data.len(),
    ensures
        r == (data@.subrange(at as int, at + 32) == key.bytes@),
{
    let mut i: usize = 0;
    while i < 32
        invariant
            i <= 32,
            at + 32 <= data.len(),
            forall|j: int| 0 <= j < i ==> data@[at + j] == key.bytes@[j],
        decreases 32 - i,
    {
        if data[at + i] != key.bytes[i] {
            assert(data@.subrange(at as int, at + 32)[i as int] != key.bytes@[i as int]);
            return false;
        }
        i = i + 1;
    }
    assert(data@.subrange(at as int, at + 32) =~= key.bytes@);
    true
}

/// The outcome of checking that a token account's recorded mint is `mint`.
pub open spec fn spec_check_token_mint(a: AccountView, mint: Pubkey) -> Result<(), ElemfiError> {
    if a.data@.len() < 32 {
        Err(ElemfiError::InvalidAccountData)
    } else if spec_token_mint(a.data@) != mint.bytes@ {
        Err(ElemfiError::AccountMismatch)
    } else {
        Ok(())
    }
}

/// Checks that a token account's recorded mint is `mint`.
pub fn check_token_mint(a: &AccountView, mint: &Pubkey) -> (r: Result<(), ElemfiError>)
    ensures
        r == spec_check_token_mint(*a, *mint),
{
    if a.data.len() < 32 {
        Err(ElemfiError::InvalidAccountData)
    } else if !bytes_match_key(a.data.as_slice(), 0, mint) {
        Err(ElemfiError::AccountMismatch)
    } else {
        Ok(())
    }
}

/// The outcome of checking that a token account's recorded owner is `owner`.
pub open spec fn spec_check_token_owner(a: AccountView, owner: Pubkey) -> Result<(), ElemfiError> {
    if a.data@.len() < 64 {
        Err(ElemfiError::InvalidAccountData)
    } else if spec_token_owner(a.data@) != owner.bytes@ {
        Err(ElemfiError::AccountMismatch)
    } else {
        Ok(())
    }
}

/// Checks that a token account's recorded owner is `owner`.
pub fn check_token_owner(a: &AccountView, owner: &Pubkey) -> (r: Result<(), ElemfiError>)
    ensures
        r == spec_check_token_owner(*a, *owner),
{
    if a.data.len() < 64 {
        Err(ElemfiError::InvalidAccountData)
    } else if !bytes_match_key(a.data.as_slice(), 32, owner) {
        Err(ElemfiError::AccountMismatch)
    } else {
        Ok(())
    }
}

/// The outcome of checking that a token account holds at least `amount`.
pub open spec fn spec_check_token_balance(a: AccountView, amount: u64) -> Result<(), ElemfiError> {
    if a.data@.len() < 72 {
        Err(ElemfiError::InvalidAccountData)
    } else if spec_token_balance(a.data@) < amount {
        Err(ElemfiError::InsufficientFunds)
    } else {
        Ok(())
    }
}

/// Checks that a token account holds at least `amount`.
pub fn check_token_balance(a: &AccountView, amount: u64) -> (r: Result<(), ElemfiError>)
    ensures
        r == spec_check_token_balance(*a, amount),
{
    if a.data.len() < 72 {
        Err(ElemfiError::InvalidAccountData)
    } else if token_balance(a.data.as_slice()) < amount {
        Err(ElemfiError::InsufficientFunds)
    } else {
        Ok(())
    }
}

/// The outcome of checking that an account's address is `key`, with `err` as the refusal.
pub open spec fn spec_check_key(a: AccountView, key: Pubkey, err: ElemfiError) -> Result<(), ElemfiError> {
    if a.key != key {
        Err(err)
    } else {
        Ok(())
    }
}

/// Checks that an account's address is `key`, refusing with `err` otherwise.
pub fn check_key(a: &AccountView, key: &Pubkey, err: ElemfiError) -> (r: Result<(), ElemfiError>)
    ensures
        r == spec_check_key(*a, *key, err),
{
    if a.key.same(key) {
        Ok(())
    } else {
        Err(err)
    }
}

/// The outcome of checking that at least `n` extra accounts were passed.
pub open spec fn spec_check_count(remaining: Seq<AccountView>, n: int) -> Result<(), ElemfiError> {
    if remaining.len() < n {
        Err(ElemfiError::MissingAccount)
    } else {
        Ok(())
    }
}

/// Checks that at least `n` extra accounts were passed.
pub fn check_count(remaining: &[AccountView], n: usize) -> (r: Result<(), ElemfiError>)
    ensures
        r == spec_check_count(remaining@, n as int),
{
    if remaining.len() < n {
        Err(ElemfiError::MissingAccount)
    } else {
        Ok(())
    }
}

} // verus!
