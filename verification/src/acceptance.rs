use vstd::prelude::*;
use crate::error::ElemfiError;
use crate::key::{native_mint, system_program_id, token_program_id};
use crate::processor::checks::{AccountRef, TransferProgram};
use crate::processor::create::{CreateVault, create_vault_checks, create_vault_outcome};
use crate::processor::deposit::{Deposit, EscrowDeposit, deposit_inflow, deposit_outcome, escrow_deposit_inflow, escrow_nft_checks};
use crate::key::{NATIVE_TOKEN_DECIMALS, Pubkey};
use crate::state::escrow::Escrow;
use crate::token::{MetadataInfo, TokenAccountInfo, mint_data_is_valid};
use crate::processor::lending::{Borrow, Repay, borrow_outcome, repay_outcome};
use crate::processor::obligation::{CloseObligation, CreateObligation, close_obligation_outcome, create_obligation_outcome};
use crate::state::vault::{Vault, collateral_for, collateral_for_ok, underlying_for, underlying_for_ok};
use crate::token::{AccountView, le_u64_at};

verus! {

/// Collateral minted for `amount` of underlying, written out: one to one while
/// no collateral exists, else `amount * supply / liquidity` rounded down.
pub open spec fn minted_for(v: Vault, amount: int) -> int {
    if v.collateral_supply == 0 {
        amount
    } else {
        amount * (v.collateral_supply as int) / (v.underlying_liquidity as int)
    }
}

/// The underlying conversion is computed as in 128 bits: it is refused only
/// for a zero supply or a quotient above `u64::MAX`, and otherwise gives the
/// quotient `amount * liquidity / supply`, however large the product.
pub proof fn law_underlying_conversion_defined(v: Vault, amount: u64)
    ensures
        underlying_for_ok(v, amount as int) <==> (v.collateral_supply != 0
            && (amount as int) * (v.underlying_liquidity as int) / (v.collateral_supply as int) <= u64::MAX),
        underlying_for_ok(v, amount as int) ==> underlying_for(v, amount as int)
            == (amount as int) * (v.underlying_liquidity as int) / (v.collateral_supply as int),
{
}

/// The collateral conversion is refused only where liquidity is missing behind
/// existing collateral or the quotient exceeds `u64::MAX`; otherwise it gives
/// the written-out amount.
pub proof fn law_collateral_conversion_defined(v: Vault, amount: u64)
    ensures
        collateral_for_ok(v, amount as int) <==> (v.collateral_supply == 0 || (v.underlying_liquidity != 0
            && (amount as int) * (v.collateral_supply as int) / (v.underlying_liquidity as int) <= u64::MAX)),
        collateral_for_ok(v, amount as int) ==> collateral_for(v, amount as int) == minted_for(v, amount as int),
{
}

/// Whether the extra accounts from `base` let underlying flow into the vault:
/// for the native token, a source with enough lamports, the vault authority,
/// and the system program; for a token, a source token account of the vault's
/// mint holding enough, and a token account owned by the vault authority.
pub open spec fn deposit_accounts_fit(d: Deposit, rem: Seq<AccountView>, base: int, amount: u64) -> bool {
    if d.vault.underlying_token == native_mint() {
        &&& rem.len() >= base + 3
        &&& rem[base].lamports >= amount
        &&& rem[base + 1].key == d.vault_authority
        &&& rem[base + 2].key == system_program_id()
    } else {
        &&& rem.len() >= base + 2
        &&& rem[base].data@.len() >= 72
        &&& le_u64_at(rem[base].data@, 64) >= amount
        &&& rem[base].data@.subrange(0, 32) == d.vault.underlying_token.bytes@
        &&& rem[base + 1].data@.len() >= 64
        &&& rem[base + 1].data@.subrange(32, 64) == d.vault_authority.bytes@
    }
}

/// Fitting accounts pass the inflow checks.
pub proof fn law_deposit_accounts_accepted(d: Deposit, rem: Seq<AccountView>, base: int, amount: u64)
    requires
        0 <= base,
        deposit_accounts_fit(d, rem, base, amount),
    ensures
        deposit_inflow(d, rem, base, amount) is Ok,
{
}

/// A deposit is accepted whenever its accounts fit, the conversion is defined,
/// the holder ends within `[collateral_min_amount, collateral_max_amount]`, the
/// supply stays within its cap and the liquidity fits; the holder's existing
/// collateral counts towards the bounds. The accepted deposit moves exactly
/// `amount` from the source (extra account `base`) into the vault's account
/// (extra account `base + 1`), mints the written-out amount, and adds both to
/// the vault.
pub proof fn law_deposit_accepted(d: Deposit, rem: Seq<AccountView>, base: int, amount: u64)
    requires
        0 <= base <= 2,
        deposit_accounts_fit(d, rem, base, amount),
        d.vault.collateral_supply == 0 || d.vault.underlying_liquidity != 0,
        minted_for(d.vault, amount as int) <= u64::MAX,
        d.vault.collateral_min_amount <= d.collateral_token_account.amount + minted_for(d.vault, amount as int),
        d.collateral_token_account.amount + minted_for(d.vault, amount as int) <= d.vault.collateral_max_amount,
        d.vault.collateral_supply + minted_for(d.vault, amount as int) <= d.vault.collateral_max_supply,
        d.vault.underlying_liquidity + amount <= u64::MAX,
    ensures
        deposit_outcome(d, rem, base, amount) is Ok,
        ({
            let (v2, out) = deposit_outcome(d, rem, base, amount).unwrap();
            &&& out.mint_amount == minted_for(d.vault, amount as int)
            &&& out.transfer.amount == amount
            &&& out.transfer.from == AccountRef::Remaining(base as usize)
            &&& out.transfer.to == AccountRef::Remaining((base + 1) as usize)
            &&& v2.underlying_liquidity == d.vault.underlying_liquidity + amount
            &&& v2.collateral_supply == d.vault.collateral_supply + minted_for(d.vault, amount as int)
        }),
{
    law_deposit_accounts_accepted(d, rem, base, amount);
}

/// Each refusal over the holder's bounds or the supply cap names a real breach:
/// the holder's collateral after the deposit (existing plus minted) below the
/// minimum or above the maximum, or the supply above its cap.
pub proof fn law_deposit_refusals_are_breaches(d: Deposit, rem: Seq<AccountView>, base: int, amount: u64)
    ensures
        deposit_outcome(d, rem, base, amount) == Err::<(Vault, crate::processor::deposit::DepositOutcome), ElemfiError>(
            ElemfiError::CollateralBelowMinimum)
            ==> d.collateral_token_account.amount + minted_for(d.vault, amount as int) < d.vault.collateral_min_amount,
        deposit_outcome(d, rem, base, amount) == Err::<(Vault, crate::processor::deposit::DepositOutcome), ElemfiError>(
            ElemfiError::CollateralAboveMaximum)
            ==> d.collateral_token_account.amount + minted_for(d.vault, amount as int) > d.vault.collateral_max_amount,
        deposit_outcome(d, rem, base, amount) == Err::<(Vault, crate::processor::deposit::DepositOutcome), ElemfiError>(
            ElemfiError::SupplyCapExceeded)
            ==> d.vault.collateral_supply + minted_for(d.vault, amount as int) > d.vault.collateral_max_supply,
{
}

/// Whether the extra accounts let a borrow pay the strategy: its authority's
/// account (0), the vault's account (1) and the program (2).
pub open spec fn borrow_accounts_fit(b: Borrow, rem: Seq<AccountView>) -> bool {
    &&& rem.len() >= 3
    &&& if b.vault.underlying_token == native_mint() {
        &&& rem[0].key == b.strategy.authority
        &&& rem[2].key == system_program_id()
    } else {
        &&& rem[0].data@.len() >= 64
        &&& rem[0].data@.subrange(32, 64) == b.strategy.authority.bytes@
        &&& rem[1].data@.len() >= 32
        &&& rem[1].data@.subrange(0, 32) == b.vault.underlying_token.bytes@
        &&& rem[2].key == token_program_id()
    }
}

/// An accepted borrow pays exactly the borrowed amount from the vault's account
/// (extra account 1) to the strategy's account (extra account 0), through the
/// system program for the native token and the token program otherwise.
pub proof fn law_borrow_pays_the_strategy(b: Borrow, rem: Seq<AccountView>, amount: u64)
    requires
        borrow_outcome(b, rem, amount) is Ok,
    ensures
        ({
            let t = borrow_outcome(b, rem, amount).unwrap().1;
            &&& t.amount == amount
            &&& t.from == AccountRef::Remaining(1)
            &&& t.to == AccountRef::Remaining(0)
            &&& (t.program == TransferProgram::System <==> b.vault.underlying_token == native_mint())
        }),
{
}

/// A borrow within the limit, with fitting accounts, is accepted.
pub proof fn law_borrow_accepted(b: Borrow, rem: Seq<AccountView>, amount: u64)
    requires
        b.strategy.utilized_amount + amount <= b.strategy.utilization_max_amount,
        borrow_accounts_fit(b, rem),
    ensures
        borrow_outcome(b, rem, amount) is Ok,
{
}

/// Whether the extra accounts let a repayment reach the vault: the repayer's
/// account (0), the vault's account (1) and the program (2).
pub open spec fn repay_accounts_fit(p: Repay, rem: Seq<AccountView>) -> bool {
    &&& rem.len() >= 3
    &&& if p.vault.underlying_token == native_mint() {
        &&& rem[1].key == p.vault_authority
        &&& rem[2].key == system_program_id()
    } else {
        &&& rem[0].data@.len() >= 32
        &&& rem[0].data@.subrange(0, 32) == p.vault.underlying_token.bytes@
        &&& rem[1].data@.len() >= 64
        &&& rem[1].data@.subrange(32, 64) == p.vault_authority.bytes@
        &&& rem[2].key == token_program_id()
    }
}

/// An accepted repayment moves exactly the repaid amount from the repayer's
/// account (extra account 0) into the vault's account (extra account 1).
pub proof fn law_repay_pays_the_vault(p: Repay, rem: Seq<AccountView>, amount: u64)
    requires
        repay_outcome(p, rem, amount) is Ok,
    ensures
        ({
            let t = repay_outcome(p, rem, amount).unwrap().1;
            &&& t.amount == amount
            &&& t.from == AccountRef::Remaining(0)
            &&& t.to == AccountRef::Remaining(1)
            &&& (t.program == TransferProgram::System <==> p.vault.underlying_token == native_mint())
            &&& repay_outcome(p, rem, amount).unwrap().0.utilized_amount == p.strategy.utilized_amount - amount
        }),
{
}

/// A repayment of at most the utilized amount, with fitting accounts, is accepted.
pub proof fn law_repay_accepted(p: Repay, rem: Seq<AccountView>, amount: u64)
    requires
        amount <= p.strategy.utilized_amount,
        repay_accounts_fit(p, rem),
    ensures
        repay_outcome(p, rem, amount) is Ok,
{
}

/// An accepted close pays exactly the obligation's pending amount from the
/// vault's account (extra account 0) to the obligation's destination.
pub proof fn law_close_pays_the_destination(c: CloseObligation, rem: Seq<AccountView>)
    requires
        close_obligation_outcome(c, rem) is Ok,
    ensures
        ({
            let (v2, t) = close_obligation_outcome(c, rem).unwrap();
            &&& t.amount == c.obligation.pending_amount
            &&& t.from == AccountRef::Remaining(0)
            &&& t.to == AccountRef::Destination
            &&& (t.program == TransferProgram::System <==> c.vault.underlying_token == native_mint())
            &&& v2.pending_obligation_amount == c.vault.pending_obligation_amount - c.obligation.pending_amount
        }),
{
}

/// A close whose pending amount is covered and whose vault account (and, for a
/// token, the token program) fit is accepted.
pub proof fn law_close_accepted(c: CloseObligation, rem: Seq<AccountView>)
    requires
        c.obligation.pending_amount <= c.vault.pending_obligation_amount,
        if c.vault.underlying_token == native_mint() {
            rem.len() >= 1 && rem[0].key == c.vault_authority
        } else {
            &&& rem.len() >= 2
            &&& rem[0].data@.len() >= 32
            &&& rem[0].data@.subrange(0, 32) == c.vault.underlying_token.bytes@
            &&& rem[1].key == token_program_id()
        },
    ensures
        close_obligation_outcome(c, rem) is Ok,
{
}

/// Creating an obligation is accepted whenever the timestamp is in the future
/// and fits 32 bits, the destination fits, collateral exists, no more than the
/// supply is burnt, and the pending total fits; the obligation is then owed
/// `amount * liquidity / supply` (computed without 64-bit overflow of the
/// product), taken from the liquidity.
pub proof fn law_obligation_accepted(
    c: CreateObligation,
    rem: Seq<AccountView>,
    amount: u64,
    created_ts: i64,
    now: i64,
)
    requires
        now < created_ts <= u32::MAX,
        0 <= created_ts,
        rem.len() >= 1,
        if c.vault.account.underlying_token == native_mint() {
            rem[0].owner == c.system_program
        } else {
            &&& rem[0].owner == c.token_program
            &&& rem[0].data@.len() >= 32
            &&& rem[0].data@.subrange(0, 32) == c.vault.account.underlying_token.bytes@
        },
        c.vault.account.collateral_supply != 0,
        amount <= c.vault.account.collateral_supply,
        c.vault.account.pending_obligation_amount + (amount as int) * (c.vault.account.underlying_liquidity as int)
            / (c.vault.account.collateral_supply as int) <= u64::MAX,
    ensures
        create_obligation_outcome(c, rem, amount, created_ts, now) is Ok,
        ({
            let v = c.vault.account;
            let owed = (amount as int) * (v.underlying_liquidity as int) / (v.collateral_supply as int);
            let (v2, o) = create_obligation_outcome(c, rem, amount, created_ts, now).unwrap();
            &&& o.pending_amount == owed
            &&& o.burnt_amount == amount
            &&& o.destination == rem[0].key
            &&& v2.underlying_liquidity == v.underlying_liquidity - owed
            &&& v2.pending_obligation_amount == v.pending_obligation_amount + owed
            &&& v2.collateral_supply == v.collateral_supply - amount
        }),
{
    let v = c.vault.account;
    let a = amount as int;
    let l = v.underlying_liquidity as int;
    let s = v.collateral_supply as int;
    assert(a * l <= s * l) by (nonlinear_arith)
        requires 0 <= a <= s, 0 <= l;
    assert(a * l >= 0) by (nonlinear_arith)
        requires 0 <= a, 0 <= l;
    vstd::arithmetic::div_mod::lemma_div_is_ordered(a * l, s * l, s);
    vstd::arithmetic::div_mod::lemma_div_multiples_vanish(l, s);
    vstd::arithmetic::mul::lemma_mul_is_commutative(s, l);
    assert(a * l / s <= l);
}

/// The first step of an escrow deposit moves exactly `amount` from the
/// holder's account (extra account 0) into the escrow's account (extra account 1).
pub proof fn law_escrow_deposit_moves_into_escrow(e: EscrowDeposit, rem: Seq<AccountView>, amount: u64)
    requires
        escrow_deposit_inflow(e, rem, amount) is Ok,
    ensures
        ({
            let t = escrow_deposit_inflow(e, rem, amount).unwrap();
            &&& t.amount == amount
            &&& t.from == AccountRef::Remaining(0)
            &&& t.to == AccountRef::Remaining(1)
            &&& (t.program == TransferProgram::System <==> e.deposit.vault.underlying_token == native_mint())
        }),
{
}

/// The collateral mint is accepted exactly when the vault authority is its mint
/// authority and it has no freeze authority.
pub proof fn law_collateral_mint_accepted(c: CreateVault)
    ensures
        create_vault_checks(c) is Ok <==> (c.collateral_mint.mint_authority == Some(c.vault_authority)
            && c.collateral_mint.freeze_authority is None),
{
}

/// An NFT admits an escrow exactly when its metadata names the escrow
/// collection, the signer holds it, the account holds one token, and its mint
/// is both the metadata's and the escrow's.
pub proof fn law_escrow_nft_accepted(
    collection: Option<Pubkey>,
    escrow: Escrow,
    nft_owner: Pubkey,
    nft: TokenAccountInfo,
    metadata: MetadataInfo,
)
    ensures
        escrow_nft_checks(collection, escrow, nft_owner, nft, metadata) is Ok <==> ({
            &&& metadata.collection is Some
            &&& collection == Some(metadata.collection.unwrap().key)
            &&& nft.owner == nft_owner
            &&& nft.amount == 1
            &&& nft.mint == metadata.mint
            &&& nft.mint == escrow.mint
        }),
{
}

/// A vault is created exactly when the underlying token (extra account 0) is
/// the native token or has valid mint data, with the collateral mint's
/// decimals; it then records those decimals, the collateral mint's supply,
/// the underlying token, the given parameters, and no pending obligations.
pub proof fn law_vault_created(
    c: CreateVault,
    rem: Seq<AccountView>,
    collateral_max_supply: u64,
    collateral_min_amount: u64,
    collateral_max_amount: u64,
    underlying_liquidity: u64,
    escrow_collection: Option<Pubkey>,
)
    ensures
        ({
            let r = create_vault_outcome(c, rem, collateral_max_supply, collateral_min_amount,
                collateral_max_amount, underlying_liquidity, escrow_collection);
            let decimals = if rem[0].key == native_mint() { NATIVE_TOKEN_DECIMALS } else { rem[0].data@[44] };
            &&& r is Ok <==> (rem.len() >= 1
                && (rem[0].key == native_mint() || mint_data_is_valid(rem[0].data@))
                && c.collateral_mint.decimals == decimals)
            &&& r is Ok ==> ({
                let v = r.unwrap();
                &&& v.token_decimals == decimals
                &&& v.collateral_supply == c.collateral_mint.supply
                &&& v.underlying_token == rem[0].key
                &&& v.collateral_token == c.collateral_token
                &&& v.realm == c.realm
                &&& v.authority_bump == c.vault_authority_bump
                &&& v.underlying_liquidity == underlying_liquidity
                &&& v.collateral_max_supply == collateral_max_supply
                &&& v.collateral_min_amount == collateral_min_amount
                &&& v.collateral_max_amount == collateral_max_amount
                &&& v.escrow_collection == escrow_collection
                &&& v.pending_obligation_amount == 0
                &&& v.pending_obligations == 0
            })
        }),
{
}

} // verus!
