use vstd::prelude::*;
use crate::error::ElemfiError;
use crate::key::{Pubkey, native_mint, native_mint_id, system_program_id, system_program_key};
use crate::processor::checks::{AccountRef, Transfer, TransferProgram, check_count, check_key, check_token_balance, check_token_mint, check_token_owner, spec_check_count, spec_check_key, spec_check_token_balance, spec_check_token_mint, spec_check_token_owner, next_if_ok};
use crate::state::escrow::Escrow;
use crate::state::vault::{Vault, collateral_for, collateral_for_ok};
use crate::token::{AccountView, MetadataInfo, TokenAccountInfo};

verus! {

/// What a deposit reads of its declared accounts.
#[derive(Clone, Copy, Debug, PartialEq, Eq)]
pub struct Deposit {
    pub realm: Pubkey,
    pub vault: Vault,
    pub vault_authority: Pubkey,
    pub collateral_token: Pubkey,
    pub collateral_token_account: TokenAccountInfo,
    pub underlying_token_owner: Pubkey,
    pub token_program: Pubkey,
}

/// What an escrow deposit reads of its declared accounts.
#[derive(Clone, Copy, Debug, PartialEq, Eq)]
pub struct EscrowDeposit {
    pub deposit: Deposit,
    pub escrow: Escrow,
    pub nft_owner: Pubkey,
    pub nft_account: TokenAccountInfo,
    pub nft_metadata: MetadataInfo,
}

/// What an accepted deposit asks for: the transfer of the underlying into the
/// vault, followed by the minting of `mint_amount` collateral to the depositor.
#[derive(Clone, Copy, Debug, PartialEq, Eq)]
pub struct DepositOutcome {
    pub transfer: Transfer,
    pub mint_amount: u64,
}

/// The checks on the accounts from which the underlying flows into the vault,
/// the extra accounts counted from `base`, and the transfer they allow.
pub open spec fn deposit_inflow(d: Deposit, rem: Seq<AccountView>, base: int, amount: u64) -> Result<
    Transfer,
    ElemfiError,
> {
    if d.vault.underlying_token == native_mint() {
        next_if_ok(spec_check_count(rem, base + 1),
        next_if_ok(if rem[base].lamports < amount { Err(ElemfiError::InsufficientFunds) } else { Ok(()) },
        next_if_ok(spec_check_count(rem, base + 2),
        next_if_ok(spec_check_key(rem[base + 1], d.vault_authority, ElemfiError::AccountMismatch),
        next_if_ok(spec_check_count(rem, base + 3),
        next_if_ok(spec_check_key(rem[base + 2], system_program_id(), ElemfiError::ProgramMismatch),
        Ok(Transfer {
            program: TransferProgram::System,
            from: AccountRef::Remaining(base as usize),
            to: AccountRef::Remaining((base + 1) as usize),
            amount,
        })))))))
    } else {
        next_if_ok(spec_check_count(rem, base + 1),
        next_if_ok(spec_check_token_balance(rem[base], amount),
        next_if_ok(spec_check_token_mint(rem[base], d.vault.underlying_token),
        next_if_ok(spec_check_count(rem, base + 2),
        next_if_ok(spec_check_token_owner(rem[base + 1], d.vault_authority),
        Ok(Transfer {
            program: TransferProgram::Token,
            from: AccountRef::Remaining(base as usize),
            to: AccountRef::Remaining((base + 1) as usize),
            amount,
        }))))))
    }
}

/// The vault after a deposit of `amount` by a holder of `held` collateral, and
/// the collateral minted for it; or why the deposit is refused.
pub open spec fn deposit_accounting(v: Vault, held: u64, amount: u64) -> Result<(Vault, u64), ElemfiError> {
    let minted = collateral_for(v, amount as int);
    if !collateral_for_ok(v, amount as int) {
        Err(ElemfiError::MathOverflow)
    } else if held + minted > u64::MAX {
        Err(ElemfiError::MathOverflow)
    } else if held + minted < v.collateral_min_amount {
        Err(ElemfiError::CollateralBelowMinimum)
    } else if held + minted > v.collateral_max_amount {
        Err(ElemfiError::CollateralAboveMaximum)
    } else if v.underlying_liquidity + amount > u64::MAX {
        Err(ElemfiError::MathOverflow)
    } else if v.collateral_supply + minted > u64::MAX {
        Err(ElemfiError::MathOverflow)
    } else if v.collateral_supply + minted > v.collateral_max_supply {
        Err(ElemfiError::SupplyCapExceeded)
    } else {
        Ok(
            (
                Vault {
                    underlying_liquidity: (v.underlying_liquidity + amount) as u64,
                    collateral_supply: (v.collateral_supply + minted) as u64,
                    ..v
                },
                minted as u64,
            ),
        )
    }
}

/// The whole of a deposit whose extra accounts start at `base`: the new vault
/// and what is asked for, or why the deposit is refused.
pub open spec fn deposit_outcome(d: Deposit, rem: Seq<AccountView>, base: int, amount: u64) -> Result<
    (Vault, DepositOutcome),
    ElemfiError,
> {
    match deposit_inflow(d, rem, base, amount) {
        Err(e) => Err(e),
        Ok(t) => match deposit_accounting(d.vault, d.collateral_token_account.amount, amount) {
            Err(e) => Err(e),
            Ok((v, m)) => Ok((v, DepositOutcome { transfer: t, mint_amount: m })),
        },
    }
}

/// Applies `deposit_accounting` to the vault of `accounts`.
fn apply_deposit_accounting(accounts: &mut Deposit, amount: u64) -> (r: Result<u64, ElemfiError>)
    ensures
        match deposit_accounting(old(accounts).vault, old(accounts).collateral_token_account.amount, amount) {
            Ok((v, m)) => r == Ok::<u64, ElemfiError>(m) && *final(accounts) == (Deposit { vault: v, ..*old(accounts) }),
            Err(e) => r == Err::<u64, ElemfiError>(e) && *final(accounts) == *old(accounts),
        },
{
    let minted = match accounts.vault.try_calc_amount_collateral_given_underlying(amount) {
        Some(m) => m,
        None => return Err(ElemfiError::MathOverflow),
    };
    let post = match accounts.collateral_token_account.amount.checked_add(minted) {
        Some(p) => p,
        None => return Err(ElemfiError::MathOverflow),
    };
    if post < accounts.vault.collateral_min_amount {
        return Err(ElemfiError::CollateralBelowMinimum);
    }
    if post > accounts.vault.collateral_max_amount {
        return Err(ElemfiError::CollateralAboveMaximum);
    }
    let liquidity = match accounts.vault.underlying_liquidity.checked_add(amount) {
        Some(l) => l,
        None => return Err(ElemfiError::MathOverflow),
    };
    let supply = match accounts.vault.collateral_supply.checked_add(minted) {
        Some(s) => s,
        None => return Err(ElemfiError::MathOverflow),
    };
    if supply > accounts.vault.collateral_max_supply {
        return Err(ElemfiError::SupplyCapExceeded);
    }
    accounts.vault.underlying_liquidity = liquidity;
    accounts.vault.collateral_supply = supply;
    Ok(minted)
}

/// Checks the accounts that the underlying flows from and into, extra accounts
/// counted from `base`.
fn check_deposit_inflow(d: &Deposit, remaining: &[AccountView], base: usize, amount: u64) -> (r: Result<Transfer, ElemfiError>)
    requires
        base <= 2,
    ensures
        r == deposit_inflow(*d, remaining@, base as int, amount),
{
    if d.vault.underlying_token.same(&native_mint_id()) {
        check_count(remaining, base + 1)?;
        if remaining[base].lamports < amount {
            return Err(ElemfiError::InsufficientFunds);
        }
        check_count(remaining, base + 2)?;
        check_key(&remaining[base + 1], &d.vault_authority, ElemfiError::AccountMismatch)?;
        check_count(remaining, base + 3)?;
        check_key(&remaining[base + 2], &system_program_key(), ElemfiError::ProgramMismatch)?;
        Ok(Transfer {
            program: TransferProgram::System,
            from: AccountRef::Remaining(base),
            to: AccountRef::Remaining(base + 1),
            amount,
        })
    } else {
        check_count(remaining, base + 1)?;
        check_token_balance(&remaining[base], amount)?;
        check_token_mint(&remaining[base], &d.vault.underlying_token)?;
        check_count(remaining, base + 2)?;
        check_token_owner(&remaining[base + 1], &d.vault_authority)?;
        Ok(Transfer {
            program: TransferProgram::Token,
            from: AccountRef::Remaining(base),
            to: AccountRef::Remaining(base + 1),
            amount,
        })
    }
}

/// A deposit whose extra accounts start at `base`.
fn deposit_from(accounts: &mut Deposit, remaining: &[AccountView], base: usize, amount: u64) -> (r: Result<DepositOutcome, ElemfiError>)
    requires
        base <= 2,
    ensures
        match deposit_outcome(*old(accounts), remaining@, base as int, amount) {
            Ok((v, out)) => r == Ok::<DepositOutcome, ElemfiError>(out) && *final(accounts) == (Deposit { vault: v, ..*old(accounts) }),
            Err(e) => r == Err::<DepositOutcome, ElemfiError>(e) && *final(accounts) == *old(accounts),
        },
{
    let transfer = check_deposit_inflow(accounts, remaining, base, amount)?;
    let mint_amount = apply_deposit_accounting(accounts, amount)?;
    Ok(DepositOutcome { transfer, mint_amount })
}

/// Deposits `amount` of underlying into the vault against newly minted collateral.
/// The extra accounts are the source of the underlying, the vault's account for
/// it and, for the native token, the system program. On success the vault holds
/// `amount` more liquidity and `mint_amount` more collateral supply; on refusal
/// nothing changes.
pub fn process_deposit(accounts: &mut Deposit, remaining: &[AccountView], amount: u64) -> (r: Result<DepositOutcome, ElemfiError>)
    ensures
        match deposit_outcome(*old(accounts), remaining@, 0, amount) {
            Ok((v, out)) => r == Ok::<DepositOutcome, ElemfiError>(out) && *final(accounts) == (Deposit { vault: v, ..*old(accounts) }),
            Err(e) => r == Err::<DepositOutcome, ElemfiError>(e) && *final(accounts) == *old(accounts),
        },
{
    deposit_from(accounts, remaining, 0, amount)
}

/// The checks on the accounts through which an escrow deposit first moves the
/// underlying into the escrow, and the transfer they allow.
pub open spec fn escrow_deposit_inflow(e: EscrowDeposit, rem: Seq<AccountView>, amount: u64) -> Result<
    Transfer,
    ElemfiError,
> {
    if e.deposit.vault.underlying_token == native_mint() {
        next_if_ok(spec_check_count(rem, 1),
        next_if_ok(if rem[0].lamports < amount { Err(ElemfiError::InsufficientFunds) } else { Ok(()) },
        next_if_ok(spec_check_count(rem, 2),
        next_if_ok(spec_check_key(rem[1], e.deposit.underlying_token_owner, ElemfiError::AccountMismatch),
        next_if_ok(spec_check_count(rem, 5),
        next_if_ok(spec_check_key(rem[4], system_program_id(), ElemfiError::ProgramMismatch),
        Ok(Transfer {
            program: TransferProgram::System,
            from: AccountRef::Remaining(0),
            to: AccountRef::Remaining(1),
            amount,
        })))))))
    } else {
        next_if_ok(spec_check_count(rem, 1),
        next_if_ok(spec_check_token_balance(rem[0], amount),
        next_if_ok(spec_check_token_mint(rem[0], e.deposit.vault.underlying_token),
        next_if_ok(spec_check_count(rem, 2),
        next_if_ok(spec_check_token_owner(rem[1], e.deposit.underlying_token_owner),
        Ok(Transfer {
            program: TransferProgram::Token,
            from: AccountRef::Remaining(0),
            to: AccountRef::Remaining(1),
            amount,
        }))))))
    }
}

/// First step of an escrow deposit: checks the accounts that move `amount` of
/// underlying from the NFT holder's account (extra account 0) into the escrow's
/// account (extra account 1), and asks for that transfer. Once it is done, the
/// deposit itself runs on the extra accounts from index 2, read afresh, through
/// `finish_escrow_deposit`.
pub fn process_escrow_deposit(accounts: &EscrowDeposit, remaining: &[AccountView], amount: u64) -> (r: Result<Transfer, ElemfiError>)
    ensures
        r == escrow_deposit_inflow(*accounts, remaining@, amount),
{
    let d = &accounts.deposit;
    if d.vault.underlying_token.same(&native_mint_id()) {
        check_count(remaining, 1)?;
        if remaining[0].lamports < amount {
            return Err(ElemfiError::InsufficientFunds);
        }
        check_count(remaining, 2)?;
        check_key(&remaining[1], &d.underlying_token_owner, ElemfiError::AccountMismatch)?;
        check_count(remaining, 5)?;
        check_key(&remaining[4], &system_program_key(), ElemfiError::ProgramMismatch)?;
        Ok(Transfer {
            program: TransferProgram::System,
            from: AccountRef::Remaining(0),
            to: AccountRef::Remaining(1),
            amount,
        })
    } else {
        check_count(remaining, 1)?;
        check_token_balance(&remaining[0], amount)?;
        check_token_mint(&remaining[0], &d.vault.underlying_token)?;
        check_count(remaining, 2)?;
        check_token_owner(&remaining[1], &d.underlying_token_owner)?;
        Ok(Transfer {
            program: TransferProgram::Token,
            from: AccountRef::Remaining(0),
            to: AccountRef::Remaining(1),
            amount,
        })
    }
}

/// Second step of an escrow deposit: the deposit of `amount` on the extra
/// accounts from index 2, signed by the escrow authority.
pub fn finish_escrow_deposit(accounts: &mut EscrowDeposit, remaining: &[AccountView], amount: u64) -> (r: Result<DepositOutcome, ElemfiError>)
    ensures
        match deposit_outcome(old(accounts).deposit, remaining@, 2, amount) {
            Ok((v, out)) => r == Ok::<DepositOutcome, ElemfiError>(out)
                && *final(accounts) == (EscrowDeposit { deposit: Deposit { vault: v, ..old(accounts).deposit }, ..*old(accounts) }),
            Err(e) => r == Err::<DepositOutcome, ElemfiError>(e) && *final(accounts) == *old(accounts),
        },
{
    deposit_from(&mut accounts.deposit, remaining, 2, amount)
}

impl Deposit {
    /// A plain deposit is refused into a vault that names an escrow collection.
    pub fn validate(&self) -> (r: Result<(), ElemfiError>)
        ensures
            r is Ok <==> self.vault.escrow_collection is None,
            r is Err ==> r == Err::<(), ElemfiError>(ElemfiError::EscrowOnlyVault),
    {
        if self.vault.escrow_collection.is_none() {
            Ok(())
        } else {
            Err(ElemfiError::EscrowOnlyVault)
        }
    }
}

/// The checks on the NFT that admits an escrow, in order: the metadata names a
/// collection, which is `collection` (the escrow collection, if any), the NFT
/// account is the signer's, holds one token, and its mint is the metadata's and
/// the escrow's.
pub open spec fn escrow_nft_checks(
    collection: Option<Pubkey>,
    escrow: Escrow,
    nft_owner: Pubkey,
    nft: TokenAccountInfo,
    metadata: MetadataInfo,
) -> Result<(), ElemfiError> {
    if metadata.collection is None {
        Err(ElemfiError::CollectionMissing)
    } else if collection is None {
        Err(ElemfiError::EscrowCollectionMissing)
    } else if metadata.collection.unwrap().key != collection.unwrap() {
        Err(ElemfiError::CollectionMismatch)
    } else if nft.owner != nft_owner {
        Err(ElemfiError::NftOwnerMismatch)
    } else if nft.amount != 1 {
        Err(ElemfiError::NotSingleToken)
    } else if nft.mint != metadata.mint {
        Err(ElemfiError::NftMintMismatch)
    } else if nft.mint != escrow.mint {
        Err(ElemfiError::NftMintMismatch)
    } else {
        Ok(())
    }
}

/// Checks the NFT that admits an escrow; see `escrow_nft_checks`.
pub fn check_escrow_nft(
    collection: &Option<Pubkey>,
    escrow: &Escrow,
    nft_owner: &Pubkey,
    nft: &TokenAccountInfo,
    metadata: &MetadataInfo,
) -> (r: Result<(), ElemfiError>)
    ensures
        r == escrow_nft_checks(*collection, *escrow, *nft_owner, *nft, *metadata),
{
    let named = match &metadata.collection {
        Some(c) => c.key,
        None => return Err(ElemfiError::CollectionMissing),
    };
    let expected = match collection {
        Some(k) => *k,
        None => return Err(ElemfiError::EscrowCollectionMissing),
    };
    if !named.same(&expected) {
        return Err(ElemfiError::CollectionMismatch);
    }
    if !nft.owner.same(nft_owner) {
        return Err(ElemfiError::NftOwnerMismatch);
    }
    if nft.amount != 1 {
        return Err(ElemfiError::NotSingleToken);
    }
    if !nft.mint.same(&metadata.mint) {
        return Err(ElemfiError::NftMintMismatch);
    }
    if !nft.mint.same(&escrow.mint) {
        return Err(ElemfiError::NftMintMismatch);
    }
    Ok(())
}

impl EscrowDeposit {
    /// The NFT must belong to the vault's escrow collection, be held by the signer,
    /// and be the escrow's mint.
    pub fn validate(&self) -> (r: Result<(), ElemfiError>)
        ensures
            r == escrow_nft_checks(
                self.deposit.vault.escrow_collection,
                self.escrow,
                self.nft_owner,
                self.nft_account,
                self.nft_metadata,
            ),
    {
        check_escrow_nft(
            &self.deposit.vault.escrow_collection,
            &self.escrow,
            &self.nft_owner,
            &self.nft_account,
            &self.nft_metadata,
        )
    }
}

} // verus!
