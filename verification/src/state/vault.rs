use vstd::prelude::*;
use crate::key::Pubkey;
use crate::state::located::{Located, authority_seeds_for};

verus! {

/// Seed prefix of the program-derived authority that holds a vault's funds.
pub const VAULT_AUTHORITY_PREFIX: [u8; 22] = [
    101, 108, 101, 109, 102, 105, 45, 118, 97, 117, 108, 116, 45, 97, 117, 116, 104, 111, 114, 105,
    116, 121,
];

/// A vault: underlying liquidity against which collateral tokens are minted.
#[derive(Clone, Copy, Debug, PartialEq, Eq)]
pub struct Vault {
    pub realm: Pubkey,
    pub authority_bump: u8,
    pub token_decimals: u8,
    pub collateral_token: Pubkey,
    pub collateral_supply: u64,
    pub collateral_max_supply: u64,
    pub collateral_min_amount: u64,
    pub collateral_max_amount: u64,
    pub underlying_token: Pubkey,
    pub underlying_liquidity: u64,
    pub pending_obligation_amount: u64,
    pub pending_obligations: u32,
    /// escrow NFT collection
    pub escrow_collection: Option<Pubkey>,
}

/// Collateral minted for `amount` of underlying: one to one while no collateral
/// exists, else `amount * supply / liquidity` rounded down.
pub open spec fn collateral_for(v: Vault, amount: int) -> int {
    if v.collateral_supply == 0 {
        amount
    } else {
        amount * v.collateral_supply / (v.underlying_liquidity as int)
    }
}

/// Whether `collateral_for` is defined and fits in 64 bits.
pub open spec fn collateral_for_ok(v: Vault, amount: int) -> bool {
    v.collateral_supply == 0 || (v.underlying_liquidity != 0 && collateral_for(v, amount)
        <= u64::MAX)
}

/// Underlying owed for `amount` of collateral: `amount * liquidity / supply` rounded down.
pub open spec fn underlying_for(v: Vault, amount: int) -> int {
    amount * v.underlying_liquidity / (v.collateral_supply as int)
}

/// Whether `underlying_for` is defined and fits in 64 bits.
pub open spec fn underlying_for_ok(v: Vault, amount: int) -> bool {
    v.collateral_supply != 0 && underlying_for(v, amount) <= u64::MAX
}

proof fn lemma_product_fits(a: u64, b: u64)
    ensures
        0 <= (a as int) * (b as int) <= u128::MAX,
{
    assert(0 <= (a as int) * (b as int) <= 0xffff_ffff_ffff_ffffint * 0xffff_ffff_ffff_ffffint)
        by (nonlinear_arith)
        requires
            a <= 0xffff_ffff_ffff_ffffu64,
            b <= 0xffff_ffff_ffff_ffffu64,
    ;
}

/// `a * b / d` in 128 bits, or `None` where it does not fit in 64 bits.
fn mul_div(a: u64, b: u64, d: u64) -> (r: Option<u64>)
    requires
        d != 0,
    ensures
        r is Some <==> (a as int) * (b as int) / (d as int) <= u64::MAX,
        r matches Some(q) ==> q == (a as int) * (b as int) / (d as int),
{
    proof {
        lemma_product_fits(a, b);
    }
    let p: u128 = (a as u128) * (b as u128);
    let q: u128 = p / (d as u128);
    if q <= u64::MAX as u128 {
        Some(q as u64)
    } else {
        None
    }
}

impl Vault {
    /// Collateral to mint for `amount` of underlying, or `None` where the
    /// computation has no 64-bit result (no liquidity behind existing collateral,
    /// or a quotient above `u64::MAX`).
    pub fn try_calc_amount_collateral_given_underlying(&self, amount: u64) -> (r: Option<u64>)
        ensures
            r is Some <==> collateral_for_ok(*self, amount as int),
            r matches Some(c) ==> c == collateral_for(*self, amount as int),
    {
        if self.collateral_supply == 0 {
            Some(amount)
        } else if self.underlying_liquidity == 0 {
            None
        } else {
            mul_div(amount, self.collateral_supply, self.underlying_liquidity)
        }
    }

    /// Collateral to mint for `amount` of underlying.
    pub fn calc_amount_collateral_given_underlying(&self, amount: u64) -> (r: u64)
        requires
            collateral_for_ok(*self, amount as int),
        ensures
            r == collateral_for(*self, amount as int),
    {
        match self.try_calc_amount_collateral_given_underlying(amount) {
            Some(c) => c,
            None => 0,
        }
    }

    /// Underlying owed for `amount` of collateral, or `None` where the
    /// computation has no 64-bit result (no collateral, or a quotient above `u64::MAX`).
    pub fn try_calc_amount_underlying_given_collateral(&self, amount: u64) -> (r: Option<u64>)
        ensures
            r is Some <==> underlying_for_ok(*self, amount as int),
            r matches Some(u) ==> u == underlying_for(*self, amount as int),
    {
        if self.collateral_supply == 0 {
            None
        } else {
            mul_div(amount, self.underlying_liquidity, self.collateral_supply)
        }
    }

    /// Underlying owed for `amount` of collateral.
    pub fn calc_amount_underlying_given_collateral(&self, amount: u64) -> (r: u64)
        requires
            underlying_for_ok(*self, amount as int),
        ensures
            r == underlying_for(*self, amount as int),
    {
        match self.try_calc_amount_underlying_given_collateral(amount) {
            Some(u) => u,
            None => 0,
        }
    }
}

/// The vault figures published after each change.
#[derive(Clone, Copy, Debug, PartialEq, Eq)]
pub struct VaultUpdatedData {
    pub collateral_supply: u64,
    pub collateral_max_supply: u64,
    pub underlying_liquidity: u64,
    pub pending_obligation_amount: u64,
    pub pending_obligations: u32,
}

/// Event published when a vault's figures change.
#[derive(Clone, Copy, Debug, PartialEq, Eq)]
pub struct VaultUpdatedEvent {
    pub pubkey: Pubkey,
    pub data: VaultUpdatedData,
}

pub trait EmitVaultUpdatedEvent {
    /// The event that announces the account's current figures.
    fn emit_updated_event(&self) -> VaultUpdatedEvent;
}

impl EmitVaultUpdatedEvent for Located<Vault> {
    fn emit_updated_event(&self) -> (r: VaultUpdatedEvent)
        ensures
            r.pubkey == self.key,
            r.data.collateral_supply == self.account.collateral_supply,
            r.data.collateral_max_supply == self.account.collateral_max_supply,
            r.data.underlying_liquidity == self.account.underlying_liquidity,
            r.data.pending_obligation_amount == self.account.pending_obligation_amount,
            r.data.pending_obligations == self.account.pending_obligations,
    {
        VaultUpdatedEvent {
            pubkey: self.key,
            data: VaultUpdatedData {
                collateral_supply: self.account.collateral_supply,
                collateral_max_supply: self.account.collateral_max_supply,
                underlying_liquidity: self.account.underlying_liquidity,
                pending_obligation_amount: self.account.pending_obligation_amount,
                pending_obligations: self.account.pending_obligations,
            },
        }
    }
}

pub trait VaultAuthoritySeeds {
    /// The seeds under which the vault authority signs.
    fn authority_seeds(&self) -> Vec<Vec<u8>>;
}

impl VaultAuthoritySeeds for Located<Vault> {
    fn authority_seeds(&self) -> (r: Vec<Vec<u8>>)
        ensures
            r@.len() == 3,
            r@[0]@ == VAULT_AUTHORITY_PREFIX@,
            r@[1]@ == self.key.bytes@,
            r@[2]@ == seq![self.account.authority_bump],
    {
        authority_seeds_for(VAULT_AUTHORITY_PREFIX.as_slice(), &self.key, self.account.authority_bump)
    }
}

} // verus!
