use vstd::prelude::*;
use crate::error::ElemfiError;
use crate::key::{NATIVE_TOKEN_DECIMALS, Pubkey, native_mint, native_mint_id};
use crate::processor::checks::{check_count, spec_check_count, next_if_ok};
use crate::state::escrow::Escrow;
use crate::state::located::Located;
use crate::state::realm::Realm;
use crate::state::strategy::{EmitStrategyClosedEvent, Strategy, StrategyClosedEvent};
use crate::state::vault::Vault;
use crate::token::{AccountView, MetadataInfo, MintInfo, TokenAccountInfo, mint_data_is_valid, unpack_mint_decimals};

verus! {

/// What the creation of a realm reads of its declared accounts.
#[derive(Clone, Copy, Debug, PartialEq, Eq)]
pub struct CreateRealm {
    pub realm: Pubkey,
    pub authority: Pubkey,
}

/// Creates a realm governed by the signing authority.
pub fn process_create_realm(
    accounts: &CreateRealm,
    delegator: Pubkey,
    approver: Pubkey,
    escrow_collection: Option<Pubkey>,
) -> (r: Realm)
    ensures
        r == (Realm { authority: accounts.authority, delegator, approver, escrow_collection }),
{
    Realm { authority: accounts.authority, delegator, approver, escrow_collection }
}

/// What the creation of a vault reads of its declared accounts.
#[derive(Clone, Copy, Debug, PartialEq, Eq)]
pub struct CreateVault {
    pub realm: Pubkey,
    pub authority: Pubkey,
    pub vault: Pubkey,
    pub vault_authority: Pubkey,
    pub vault_authority_bump: u8,
    pub collateral_token: Pubkey,
    pub collateral_mint: MintInfo,
}

/// The decimals of the underlying token (extra account 0): those of the native
/// token, or those its mint data records; or why they cannot be read.
pub open spec fn underlying_decimals(rem: Seq<AccountView>) -> Result<u8, ElemfiError> {
    if rem[0].key == native_mint() {
        Ok(NATIVE_TOKEN_DECIMALS)
    } else if !mint_data_is_valid(rem[0].data@) {
        Err(ElemfiError::InvalidAccountData)
    } else {
        Ok(rem[0].data@[44])
    }
}

/// The new vault, or why it is refused.
pub open spec fn create_vault_outcome(
    c: CreateVault,
    rem: Seq<AccountView>,
    collateral_max_supply: u64,
    collateral_min_amount: u64,
    collateral_max_amount: u64,
    underlying_liquidity: u64,
    escrow_collection: Option<Pubkey>,
) -> Result<Vault, ElemfiError> {
    next_if_ok(spec_check_count(rem, 1),
    match underlying_decimals(rem) {
        Err(e) => Err(e),
        Ok(d) => if c.collateral_mint.decimals != d {
            Err(ElemfiError::DecimalsMismatch)
        } else {
            Ok(Vault {
                realm: c.realm,
                authority_bump: c.vault_authority_bump,
                token_decimals: d,
                collateral_token: c.collateral_token,
                collateral_supply: c.collateral_mint.supply,
                collateral_max_supply,
                collateral_min_amount,
                collateral_max_amount,
                underlying_token: rem[0].key,
                underlying_liquidity,
                pending_obligation_amount: 0,
                pending_obligations: 0,
                escrow_collection,
            })
        },
    })
}

/// Creates a vault over the underlying token given as extra account 0, whose
/// collateral is `collateral_token`. The collateral mint must have the decimals
/// of the underlying token; the vault starts with the mint's supply.
pub fn process_create_vault(
    accounts: &CreateVault,
    remaining: &[AccountView],
    collateral_max_supply: u64,
    collateral_min_amount: u64,
    collateral_max_amount: u64,
    underlying_liquidity: u64,
    escrow_collection: Option<Pubkey>,
) -> (r: Result<Vault, ElemfiError>)
    ensures
        r == create_vault_outcome(
            *accounts,
            remaining@,
            collateral_max_supply,
            collateral_min_amount,
            collateral_max_amount,
            underlying_liquidity,
            escrow_collection,
        ),
{
    check_count(remaining, 1)?;
    let underlying_token = &remaining[0];
    let token_decimals = if underlying_token.key.same(&native_mint_id()) {
        NATIVE_TOKEN_DECIMALS
    } else {
        match unpack_mint_decimals(underlying_token.data.as_slice()) {
            Ok(d) => d,
            Err(_) => return Err(ElemfiError::InvalidAccountData),
        }
    };
    if accounts.collateral_mint.decimals != token_decimals {
        return Err(ElemfiError::DecimalsMismatch);
    }
    Ok(Vault {
        realm: accounts.realm,
        authority_bump: accounts.vault_authority_bump,
        token_decimals,
        collateral_token: accounts.collateral_token,
        collateral_supply: accounts.collateral_mint.supply,
        collateral_max_supply,
        collateral_min_amount,
        collateral_max_amount,
        underlying_token: underlying_token.key,
        underlying_liquidity,
        pending_obligation_amount: 0,
        pending_obligations: 0,
        escrow_collection,
    })
}

/// The checks on the collateral mint, in order: it has a mint authority, which
/// is the vault authority, and no freeze authority.
pub open spec fn create_vault_checks(c: CreateVault) -> Result<(), ElemfiError> {
    if c.collateral_mint.mint_authority is None {
        Err(ElemfiError::MintAuthorityMissing)
    } else if c.collateral_mint.mint_authority.unwrap() != c.vault_authority {
        Err(ElemfiError::MintAuthorityMismatch)
    } else if c.collateral_mint.freeze_authority is Some {
        Err(ElemfiError::FreezeAuthorityPresent)
    } else {
        Ok(())
    }
}

impl CreateVault {
    /// The collateral mint must be minted only by the vault authority and not be freezable.
    pub fn validate(&self) -> (r: Result<(), ElemfiError>)
        ensures
            r == create_vault_checks(*self),
    {
        let mint_authority = match self.collateral_mint.mint_authority {
            Some(a) => a,
            None => return Err(ElemfiError::MintAuthorityMissing),
        };
        if !mint_authority.same(&self.vault_authority) {
            return Err(ElemfiError::MintAuthorityMismatch);
        }
        if self.collateral_mint.freeze_authority.is_some() {
            return Err(ElemfiError::FreezeAuthorityPresent);
        }
        Ok(())
    }
}

/// What the creation of an escrow reads of its declared accounts.
#[derive(Clone, Copy, Debug, PartialEq, Eq)]
pub struct CreateEscrow {
    pub escrow: Pubkey,
    pub escrow_authority: Pubkey,
    pub escrow_authority_bump: u8,
    pub nft_token_account: TokenAccountInfo,
    pub nft_metadata: MetadataInfo,
    pub payer: Pubkey,
}

/// Creates the escrow of the NFT held in the given token account.
pub fn process_create_escrow(accounts: &CreateEscrow) -> (r: Escrow)
    ensures
        r == (Escrow {
            mint: accounts.nft_token_account.mint,
            authority_bump: accounts.escrow_authority_bump,
        }),
{
    Escrow { mint: accounts.nft_token_account.mint, authority_bump: accounts.escrow_authority_bump }
}

impl CreateEscrow {
    /// The token account must hold exactly one token of the metadata's mint.
    pub fn validate(&self) -> (r: Result<(), ElemfiError>)
        ensures
            r == (if self.nft_token_account.amount != 1 {
                Err(ElemfiError::NotSingleToken)
            } else if self.nft_token_account.mint != self.nft_metadata.mint {
                Err(ElemfiError::NftMintMismatch)
            } else {
                Ok(())
            }),
    {
        if self.nft_token_account.amount != 1 {
            return Err(ElemfiError::NotSingleToken);
        }
        if !self.nft_token_account.mint.same(&self.nft_metadata.mint) {
            return Err(ElemfiError::NftMintMismatch);
        }
        Ok(())
    }
}

/// What the creation of a strategy reads of its declared accounts.
#[derive(Clone, Copy, Debug, PartialEq, Eq)]
pub struct CreateStrategy {
    pub realm: Pubkey,
    pub approver: Pubkey,
    pub vault: Pubkey,
    pub strategy: Pubkey,
    pub payer: Pubkey,
}

/// Creates a strategy of `authority` on the vault, with the given utilization.
pub fn process_create_strategy(
    accounts: &CreateStrategy,
    authority: Pubkey,
    utilized_amount: u64,
    utilization_max_amount: u64,
) -> (r: Strategy)
    ensures
        r == (Strategy {
            realm: accounts.realm,
            vault: accounts.vault,
            authority,
            utilized_amount,
            utilization_max_amount,
        }),
{
    Strategy { realm: accounts.realm, vault: accounts.vault, authority, utilized_amount, utilization_max_amount }
}

/// What the closing of a strategy reads of its declared accounts.
#[derive(Clone, Copy, Debug, PartialEq, Eq)]
pub struct CloseStrategy {
    pub realm: Pubkey,
    pub approver: Pubkey,
    pub vault: Pubkey,
    pub strategy: Located<Strategy>,
    pub rent_collector: Pubkey,
}

/// Closes a strategy; the caller returns its rent to the rent collector and
/// publishes the event.
pub fn process_close_strategy(accounts: &CloseStrategy) -> (r: StrategyClosedEvent)
    ensures
        r.pubkey == accounts.strategy.key,
{
    accounts.strategy.emit_closed_event()
}

} // verus!
