use vstd::prelude::*;
use crate::error::ElemfiError;
use crate::key::{Pubkey, native_mint, native_mint_id, token_program_id, token_program_key};
use crate::processor::checks::{AccountRef, Transfer, TransferProgram, check_count, check_key, check_token_mint, spec_check_count, spec_check_key, spec_check_token_mint, next_if_ok};
use crate::processor::deposit::{check_escrow_nft, escrow_nft_checks};
use crate::state::escrow::Escrow;
use crate::state::located::Located;
use crate::state::obligation::Obligation;
use crate::state::realm::Realm;
use crate::state::vault::{Vault, underlying_for, underlying_for_ok};
use crate::token::{AccountView, MetadataInfo, TokenAccountInfo};

verus! {

/// What the creation of an obligation reads of its declared accounts.
#[derive(Clone, Copy, Debug, PartialEq, Eq)]
pub struct CreateObligation {
    pub realm: Located<Realm>,
    pub vault: Located<Vault>,
    pub vault_authority: Pubkey,
    pub obligation: Pubkey,
    pub collateral_owner: Pubkey,
    pub collateral_token: Pubkey,
    pub collateral_token_account: Pubkey,
    pub token_program: Pubkey,
    pub payer: Pubkey,
    pub system_program: Pubkey,
}

/// What the creation of an obligation through an escrow reads of its declared accounts.
#[derive(Clone, Copy, Debug, PartialEq, Eq)]
pub struct EscrowCreateObligation {
    pub create_obligation: CreateObligation,
    pub escrow: Escrow,
    pub nft_owner: Pubkey,
    pub nft_token_account: TokenAccountInfo,
    pub nft_metadata: MetadataInfo,
}

/// What the closing of an obligation reads of its declared accounts.
#[derive(Clone, Copy, Debug, PartialEq, Eq)]
pub struct CloseObligation {
    pub realm: Pubkey,
    pub authority: Pubkey,
    pub vault: Vault,
    pub vault_authority: Pubkey,
    pub obligation: Obligation,
    pub destination: Pubkey,
    pub rent_collector: Pubkey,
    pub system_program: Pubkey,
}

/// The checks on the destination (extra account 0) that an obligation will pay out to.
pub open spec fn destination_checks(c: CreateObligation, rem: Seq<AccountView>) -> Result<(), ElemfiError> {
    next_if_ok(spec_check_count(rem, 1),
    if c.vault.account.underlying_token == native_mint() {
        if rem[0].owner != c.system_program { Err(ElemfiError::AccountMismatch) } else { Ok(()) }
    } else {
        if rem[0].owner != c.token_program {
            Err(ElemfiError::AccountMismatch)
        } else {
            spec_check_token_mint(rem[0], c.vault.account.underlying_token)
        }
    })
}

/// The vault and the new obligation after `amount` of collateral is burnt for a
/// claim on underlying due at `created_ts`, given the current time `now`; or why
/// the obligation is refused.
pub open spec fn create_obligation_outcome(
    c: CreateObligation,
    rem: Seq<AccountView>,
    amount: u64,
    created_ts: i64,
    now: i64,
) -> Result<(Vault, Obligation), ElemfiError> {
    if created_ts <= now {
        Err(ElemfiError::TimestampNotInFuture)
    } else {
        match destination_checks(c, rem) {
            Err(e) => Err(e),
            Ok(_) => obligation_accounting(c, rem, amount, created_ts),
        }
    }
}

/// The part of `create_obligation_outcome` after the time and destination checks.
pub open spec fn obligation_accounting(
    c: CreateObligation,
    rem: Seq<AccountView>,
    amount: u64,
    created_ts: i64,
) -> Result<(Vault, Obligation), ElemfiError> {
    let v = c.vault.account;
    let pending = underlying_for(v, amount as int);
    if !underlying_for_ok(v, amount as int) {
        Err(ElemfiError::MathOverflow)
    } else if created_ts < 0 || created_ts > u32::MAX {
        Err(ElemfiError::TimestampOutOfRange)
    } else if v.pending_obligation_amount + pending > u64::MAX {
        Err(ElemfiError::MathOverflow)
    } else if v.underlying_liquidity < pending {
        Err(ElemfiError::MathOverflow)
    } else if v.collateral_supply < amount {
        Err(ElemfiError::MathOverflow)
    } else {
        Ok(
            (
                Vault {
                    pending_obligation_amount: (v.pending_obligation_amount + pending) as u64,
                    underlying_liquidity: (v.underlying_liquidity - pending) as u64,
                    collateral_supply: (v.collateral_supply - amount) as u64,
                    ..v
                },
                Obligation {
                    realm: c.realm.key,
                    vault: c.vault.key,
                    rent_collector: c.payer,
                    destination: rem[0].key,
                    burnt_amount: amount,
                    pending_amount: pending as u64,
                    created_ts: created_ts as u32,
                },
            ),
        )
    }
}

/// Checks the destination that an obligation will pay out to.
fn check_destination(c: &CreateObligation, remaining: &[AccountView]) -> (r: Result<(), ElemfiError>)
    ensures
        r == destination_checks(*c, remaining@),
{
    check_count(remaining, 1)?;
    if c.vault.account.underlying_token.same(&native_mint_id()) {
        if !remaining[0].owner.same(&c.system_program) {
            return Err(ElemfiError::AccountMismatch);
        }
        Ok(())
    } else {
        if !remaining[0].owner.same(&c.token_program) {
            return Err(ElemfiError::AccountMismatch);
        }
        check_token_mint(&remaining[0], &c.vault.account.underlying_token)
    }
}

/// Burns `amount` of collateral for an obligation to pay the underlying it is
/// worth to the destination (extra account 0) later. The timestamp must be later
/// than `now` and fit in 32 bits. On success the vault moves the obligation's
/// pending amount from its liquidity to its pending obligations and loses
/// `amount` of collateral supply, and the new obligation is returned; the caller
/// burns `amount` of collateral. On refusal nothing changes.
pub fn process_create_obligation(
    accounts: &mut CreateObligation,
    remaining: &[AccountView],
    amount: u64,
    created_ts: i64,
    now: i64,
) -> (r: Result<Obligation, ElemfiError>)
    ensures
        match create_obligation_outcome(*old(accounts), remaining@, amount, created_ts, now) {
            Ok((v, o)) => r == Ok::<Obligation, ElemfiError>(o)
                && *final(accounts) == (CreateObligation { vault: Located { key: old(accounts).vault.key, account: v }, ..*old(accounts) }),
            Err(e) => r == Err::<Obligation, ElemfiError>(e) && *final(accounts) == *old(accounts),
        },
{
    if created_ts <= now {
        return Err(ElemfiError::TimestampNotInFuture);
    }
    check_destination(accounts, remaining)?;
    let pending = match accounts.vault.account.try_calc_amount_underlying_given_collateral(amount) {
        Some(p) => p,
        None => return Err(ElemfiError::MathOverflow),
    };
    if created_ts < 0 || created_ts > u32::MAX as i64 {
        return Err(ElemfiError::TimestampOutOfRange);
    }
    let obligation = Obligation {
        realm: accounts.realm.key,
        vault: accounts.vault.key,
        rent_collector: accounts.payer,
        destination: remaining[0].key,
        burnt_amount: amount,
        pending_amount: pending,
        created_ts: created_ts as u32,
    };
    let pending_total = match accounts.vault.account.pending_obligation_amount.checked_add(pending) {
        Some(p) => p,
        None => return Err(ElemfiError::MathOverflow),
    };
    let liquidity = match accounts.vault.account.underlying_liquidity.checked_sub(pending) {
        Some(l) => l,
        None => return Err(ElemfiError::MathOverflow),
    };
    let supply = match accounts.vault.account.collateral_supply.checked_sub(amount) {
        Some(s) => s,
        None => return Err(ElemfiError::MathOverflow),
    };
    accounts.vault.account.pending_obligation_amount = pending_total;
    accounts.vault.account.underlying_liquidity = liquidity;
    accounts.vault.account.collateral_supply = supply;
    Ok(obligation)
}

/// The creation of an obligation for collateral held through an escrow; the
/// burn is signed by the escrow authority. Decided as `process_create_obligation`.
pub fn process_escrow_create_obligation(
    accounts: &mut EscrowCreateObligation,
    remaining: &[AccountView],
    amount: u64,
    created_ts: i64,
    now: i64,
) -> (r: Result<Obligation, ElemfiError>)
    ensures
        match create_obligation_outcome(old(accounts).create_obligation, remaining@, amount, created_ts, now) {
            Ok((v, o)) => r == Ok::<Obligation, ElemfiError>(o)
                && *final(accounts) == (EscrowCreateObligation {
                    create_obligation: CreateObligation {
                        vault: Located { key: old(accounts).create_obligation.vault.key, account: v },
                        ..old(accounts).create_obligation
                    },
                    ..*old(accounts)
                }),
            Err(e) => r == Err::<Obligation, ElemfiError>(e) && *final(accounts) == *old(accounts),
        },
{
    process_create_obligation(&mut accounts.create_obligation, remaining, amount, created_ts, now)
}

impl EscrowCreateObligation {
    /// The NFT must belong to the realm's escrow collection, be held by the signer,
    /// and be the escrow's mint.
    pub fn validate(&self) -> (r: Result<(), ElemfiError>)
        ensures
            r == escrow_nft_checks(
                self.create_obligation.realm.account.escrow_collection,
                self.escrow,
                self.nft_owner,
                self.nft_token_account,
                self.nft_metadata,
            ),
    {
        check_escrow_nft(
            &self.create_obligation.realm.account.escrow_collection,
            &self.escrow,
            &self.nft_owner,
            &self.nft_token_account,
            &self.nft_metadata,
        )
    }
}

/// The checks on the vault's account that pays out an obligation, and the transfer they allow.
pub open spec fn close_outflow(c: CloseObligation, rem: Seq<AccountView>) -> Result<Transfer, ElemfiError> {
    let amount = c.obligation.pending_amount;
    if c.vault.underlying_token == native_mint() {
        next_if_ok(spec_check_count(rem, 1),
        next_if_ok(spec_check_key(rem[0], c.vault_authority, ElemfiError::AccountMismatch),
        Ok(Transfer {
            program: TransferProgram::System,
            from: AccountRef::Remaining(0),
            to: AccountRef::Destination,
            amount,
        })))
    } else {
        next_if_ok(spec_check_count(rem, 1),
        next_if_ok(spec_check_token_mint(rem[0], c.vault.underlying_token),
        next_if_ok(spec_check_count(rem, 2),
        next_if_ok(spec_check_key(rem[1], token_program_id(), ElemfiError::ProgramMismatch),
        Ok(Transfer {
            program: TransferProgram::Token,
            from: AccountRef::Remaining(0),
            to: AccountRef::Destination,
            amount,
        })))))
    }
}

/// The vault after an obligation is paid out and closed, and the payment asked
/// for; or why the closing is refused.
pub open spec fn close_obligation_outcome(c: CloseObligation, rem: Seq<AccountView>) -> Result<(Vault, Transfer), ElemfiError> {
    if c.vault.pending_obligation_amount < c.obligation.pending_amount {
        Err(ElemfiError::MathOverflow)
    } else {
        match close_outflow(c, rem) {
            Err(e) => Err(e),
            Ok(t) => Ok((
                Vault {
                    pending_obligation_amount: (c.vault.pending_obligation_amount - c.obligation.pending_amount) as u64,
                    ..c.vault
                },
                t,
            )),
        }
    }
}

/// Pays an obligation's pending amount from the vault to its destination. On
/// success the vault's pending obligations shrink by that amount; the caller
/// closes the obligation account. On refusal nothing changes.
pub fn process_close_obligation(accounts: &mut CloseObligation, remaining: &[AccountView]) -> (r: Result<Transfer, ElemfiError>)
    ensures
        match close_obligation_outcome(*old(accounts), remaining@) {
            Ok((v, t)) => r == Ok::<Transfer, ElemfiError>(t) && *final(accounts) == (CloseObligation { vault: v, ..*old(accounts) }),
            Err(e) => r == Err::<Transfer, ElemfiError>(e) && *final(accounts) == *old(accounts),
        },
{
    let pending_total = match accounts.vault.pending_obligation_amount.checked_sub(accounts.obligation.pending_amount) {
        Some(p) => p,
        None => return Err(ElemfiError::MathOverflow),
    };
    let amount = accounts.obligation.pending_amount;
    let transfer = if accounts.vault.underlying_token.same(&native_mint_id()) {
        check_count(remaining, 1)?;
        check_key(&remaining[0], &accounts.vault_authority, ElemfiError::AccountMismatch)?;
        Transfer {
            program: TransferProgram::System,
            from: AccountRef::Remaining(0),
            to: AccountRef::Destination,
            amount,
        }
    } else {
        check_count(remaining, 1)?;
        check_token_mint(&remaining[0], &accounts.vault.underlying_token)?;
        check_count(remaining, 2)?;
        check_key(&remaining[1], &token_program_key(), ElemfiError::ProgramMismatch)?;
        Transfer {
            program: TransferProgram::Token,
            from: AccountRef::Remaining(0),
            to: AccountRef::Destination,
            amount,
        }
    };
    accounts.vault.pending_obligation_amount = pending_total;
    Ok(transfer)
}

} // verus!
