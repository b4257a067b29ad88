use vstd::prelude::*;
use crate::error::ElemfiError;
use crate::key::{Pubkey, native_mint, native_mint_id, system_program_id, system_program_key, token_program_id, token_program_key};
use crate::processor::checks::{AccountRef, Transfer, TransferProgram, check_count, check_key, check_token_mint, check_token_owner, spec_check_count, spec_check_key, spec_check_token_mint, spec_check_token_owner, next_if_ok};
use crate::state::strategy::Strategy;
use crate::state::vault::Vault;
use crate::token::AccountView;

verus! {

/// What a borrow reads of its declared accounts.
#[derive(Clone, Copy, Debug, PartialEq, Eq)]
pub struct Borrow {
    pub realm: Pubkey,
    pub authority: Pubkey,
    pub vault: Vault,
    pub vault_authority: Pubkey,
    pub strategy: Strategy,
}

/// What a repayment reads of its declared accounts.
#[derive(Clone, Copy, Debug, PartialEq, Eq)]
pub struct Repay {
    pub realm: Pubkey,
    pub vault: Vault,
    pub vault_authority: Pubkey,
    pub strategy: Strategy,
    pub repayer: Pubkey,
}

/// The checks on the accounts through which borrowed funds leave the vault
/// (extra accounts: the strategy's account, the vault's account, the program),
/// and the transfer they allow.
pub open spec fn borrow_outflow(b: Borrow, rem: Seq<AccountView>, amount: u64) -> Result<Transfer, ElemfiError> {
    if b.vault.underlying_token == native_mint() {
        next_if_ok(spec_check_count(rem, 3),
        next_if_ok(spec_check_key(rem[0], b.strategy.authority, ElemfiError::AccountMismatch),
        next_if_ok(spec_check_key(rem[2], system_program_id(), ElemfiError::ProgramMismatch),
        Ok(Transfer {
            program: TransferProgram::System,
            from: AccountRef::Remaining(1),
            to: AccountRef::Remaining(0),
            amount,
        }))))
    } else {
        next_if_ok(spec_check_count(rem, 3),
        next_if_ok(spec_check_token_owner(rem[0], b.strategy.authority),
        next_if_ok(spec_check_token_mint(rem[1], b.vault.underlying_token),
        next_if_ok(spec_check_key(rem[2], token_program_id(), ElemfiError::ProgramMismatch),
        Ok(Transfer {
            program: TransferProgram::Token,
            from: AccountRef::Remaining(1),
            to: AccountRef::Remaining(0),
            amount,
        })))))
    }
}

/// The strategy after a borrow of `amount` and the transfer asked for, or why
/// the borrow is refused.
pub open spec fn borrow_outcome(b: Borrow, rem: Seq<AccountView>, amount: u64) -> Result<(Strategy, Transfer), ElemfiError> {
    let utilized = b.strategy.utilized_amount + amount;
    if utilized > u64::MAX {
        Err(ElemfiError::MathOverflow)
    } else if utilized > b.strategy.utilization_max_amount {
        Err(ElemfiError::UtilizationLimitExceeded)
    } else {
        match borrow_outflow(b, rem, amount) {
            Err(e) => Err(e),
            Ok(t) => Ok((Strategy { utilized_amount: utilized as u64, ..b.strategy }, t)),
        }
    }
}

/// Lends `amount` of the vault's underlying to the strategy's authority, within
/// the strategy's utilization limit. On success the strategy's utilized amount
/// grows by `amount`; on refusal nothing changes.
pub fn process_borrow(accounts: &mut Borrow, remaining: &[AccountView], amount: u64) -> (r: Result<Transfer, ElemfiError>)
    ensures
        match borrow_outcome(*old(accounts), remaining@, amount) {
            Ok((s, t)) => r == Ok::<Transfer, ElemfiError>(t) && *final(accounts) == (Borrow { strategy: s, ..*old(accounts) }),
            Err(e) => r == Err::<Transfer, ElemfiError>(e) && *final(accounts) == *old(accounts),
        },
{
    let utilized = match accounts.strategy.utilized_amount.checked_add(amount) {
        Some(u) => u,
        None => return Err(ElemfiError::MathOverflow),
    };
    if utilized > accounts.strategy.utilization_max_amount {
        return Err(ElemfiError::UtilizationLimitExceeded);
    }
    let transfer = if accounts.vault.underlying_token.same(&native_mint_id()) {
        check_count(remaining, 3)?;
        check_key(&remaining[0], &accounts.strategy.authority, ElemfiError::AccountMismatch)?;
        check_key(&remaining[2], &system_program_key(), ElemfiError::ProgramMismatch)?;
        Transfer {
            program: TransferProgram::System,
            from: AccountRef::Remaining(1),
            to: AccountRef::Remaining(0),
            amount,
        }
    } else {
        check_count(remaining, 3)?;
        check_token_owner(&remaining[0], &accounts.strategy.authority)?;
        check_token_mint(&remaining[1], &accounts.vault.underlying_token)?;
        check_key(&remaining[2], &token_program_key(), ElemfiError::ProgramMismatch)?;
        Transfer {
            program: TransferProgram::Token,
            from: AccountRef::Remaining(1),
            to: AccountRef::Remaining(0),
            amount,
        }
    };
    accounts.strategy.utilized_amount = utilized;
    Ok(transfer)
}

/// The checks on the accounts through which repaid funds return to the vault
/// (extra accounts: the repayer's account, the vault's account, the program),
/// and the transfer they allow.
pub open spec fn repay_inflow(p: Repay, rem: Seq<AccountView>, amount: u64) -> Result<Transfer, ElemfiError> {
    if p.vault.underlying_token == native_mint() {
        next_if_ok(spec_check_count(rem, 3),
        next_if_ok(spec_check_key(rem[1], p.vault_authority, ElemfiError::AccountMismatch),
        next_if_ok(spec_check_key(rem[2], system_program_id(), ElemfiError::ProgramMismatch),
        Ok(Transfer {
            program: TransferProgram::System,
            from: AccountRef::Remaining(0),
            to: AccountRef::Remaining(1),
            amount,
        }))))
    } else {
        next_if_ok(spec_check_count(rem, 3),
        next_if_ok(spec_check_token_mint(rem[0], p.vault.underlying_token),
        next_if_ok(spec_check_token_owner(rem[1], p.vault_authority),
        next_if_ok(spec_check_key(rem[2], token_program_id(), ElemfiError::ProgramMismatch),
        Ok(Transfer {
            program: TransferProgram::Token,
            from: AccountRef::Remaining(0),
            to: AccountRef::Remaining(1),
            amount,
        })))))
    }
}

/// The strategy after a repayment of `amount` and the transfer asked for, or
/// why the repayment is refused.
pub open spec fn repay_outcome(p: Repay, rem: Seq<AccountView>, amount: u64) -> Result<(Strategy, Transfer), ElemfiError> {
    if p.strategy.utilized_amount < amount {
        Err(ElemfiError::MathOverflow)
    } else {
        match repay_inflow(p, rem, amount) {
            Err(e) => Err(e),
            Ok(t) => Ok((Strategy { utilized_amount: (p.strategy.utilized_amount - amount) as u64, ..p.strategy }, t)),
        }
    }
}

/// Takes `amount` back from any repayer into the vault. On success the
/// strategy's utilized amount shrinks by `amount`; on refusal nothing changes.
pub fn process_repay(accounts: &mut Repay, remaining: &[AccountView], amount: u64) -> (r: Result<Transfer, ElemfiError>)
    ensures
        match repay_outcome(*old(accounts), remaining@, amount) {
            Ok((s, t)) => r == Ok::<Transfer, ElemfiError>(t) && *final(accounts) == (Repay { strategy: s, ..*old(accounts) }),
            Err(e) => r == Err::<Transfer, ElemfiError>(e) && *final(accounts) == *old(accounts),
        },
{
    let utilized = match accounts.strategy.utilized_amount.checked_sub(amount) {
        Some(u) => u,
        None => return Err(ElemfiError::MathOverflow),
    };
    let transfer = if accounts.vault.underlying_token.same(&native_mint_id()) {
        check_count(remaining, 3)?;
        check_key(&remaining[1], &accounts.vault_authority, ElemfiError::AccountMismatch)?;
        check_key(&remaining[2], &system_program_key(), ElemfiError::ProgramMismatch)?;
        Transfer {
            program: TransferProgram::System,
            from: AccountRef::Remaining(0),
            to: AccountRef::Remaining(1),
            amount,
        }
    } else {
        check_count(remaining, 3)?;
        check_token_mint(&remaining[0], &accounts.vault.underlying_token)?;
        check_token_owner(&remaining[1], &accounts.vault_authority)?;
        check_key(&remaining[2], &token_program_key(), ElemfiError::ProgramMismatch)?;
        Transfer {
            program: TransferProgram::Token,
            from: AccountRef::Remaining(0),
            to: AccountRef::Remaining(1),
            amount,
        }
    };
    accounts.strategy.utilized_amount = utilized;
    Ok(transfer)
}

} // verus!
