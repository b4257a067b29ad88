use vstd::prelude::*;
use crate::key::Pubkey;
use crate::state::located::Located;

verus! {

/// Seed prefix of a strategy account.
pub const STRATEGY_PREFIX: [u8; 15] = [
    101, 108, 101, 109, 102, 105, 45, 115, 116, 114, 97, 116, 101, 103, 121,
];

/// Space of a strategy account (8 + 32 + 32 + 32 + 8 + 8).
pub const STRATEGY_LEN: usize = 120;

/// A strategy: a borrower of a vault's liquidity, within a limit.
#[derive(Clone, Copy, Debug, PartialEq, Eq)]
pub struct Strategy {
    pub realm: Pubkey,
    pub vault: Pubkey,
    pub authority: Pubkey,
    pub utilized_amount: u64,
    pub utilization_max_amount: u64,
}

#[derive(Clone, Copy, Debug, PartialEq, Eq)]
pub struct StrategyUpdatedData {
    pub utilized_amount: u64,
    pub utilization_max_amount: u64,
}

/// Event published when a strategy's utilization changes.
#[derive(Clone, Copy, Debug, PartialEq, Eq)]
pub struct StrategyUpdatedEvent {
    pub pubkey: Pubkey,
    pub data: StrategyUpdatedData,
}

pub trait EmitStrategyUpdatedEvent {
    /// The event that announces the strategy's current utilization.
    fn emit_updated_event(&self) -> StrategyUpdatedEvent;
}

impl EmitStrategyUpdatedEvent for Located<Strategy> {
    fn emit_updated_event(&self) -> (r: StrategyUpdatedEvent)
        ensures
            r.pubkey == self.key,
            r.data.utilized_amount == self.account.utilized_amount,
            r.data.utilization_max_amount == self.account.utilization_max_amount,
    {
        StrategyUpdatedEvent {
            pubkey: self.key,
            data: StrategyUpdatedData {
                utilized_amount: self.account.utilized_amount,
                utilization_max_amount: self.account.utilization_max_amount,
            },
        }
    }
}

#[derive(Clone, Copy, Debug, PartialEq, Eq)]
pub struct StrategyCreatedData {
    pub realm: Pubkey,
    pub vault: Pubkey,
    pub authority: Pubkey,
    pub utilized_amount: u64,
    pub utilization_max_amount: u64,
}

/// Event published when a strategy is created.
#[derive(Clone, Copy, Debug, PartialEq, Eq)]
pub struct StrategyCreatedEvent {
    pub pubkey: Pubkey,
    pub data: StrategyCreatedData,
}

pub trait EmitStrategyCreatedEvent {
    /// The event that announces the strategy as created.
    fn emit_created_event(&self) -> StrategyCreatedEvent;
}

impl EmitStrategyCreatedEvent for Located<Strategy> {
    fn emit_created_event(&self) -> (r: StrategyCreatedEvent)
        ensures
            r.pubkey == self.key,
            r.data.realm == self.account.realm,
            r.data.vault == self.account.vault,
            r.data.authority == self.account.authority,
            r.data.utilized_amount == self.account.utilized_amount,
            r.data.utilization_max_amount == self.account.utilization_max_amount,
    {
        StrategyCreatedEvent {
            pubkey: self.key,
            data: StrategyCreatedData {
                realm: self.account.realm,
                vault: self.account.vault,
                authority: self.account.authority,
                utilized_amount: self.account.utilized_amount,
                utilization_max_amount: self.account.utilization_max_amount,
            },
        }
    }
}

/// Event published when a strategy is closed.
#[derive(Clone, Copy, Debug, PartialEq, Eq)]
pub struct StrategyClosedEvent {
    pub pubkey: Pubkey,
}

pub trait EmitStrategyClosedEvent {
    /// The event that announces the strategy as closed.
    fn emit_closed_event(&self) -> StrategyClosedEvent;
}

impl EmitStrategyClosedEvent for Located<Strategy> {
    fn emit_closed_event(&self) -> (r: StrategyClosedEvent)
        ensures
            r.pubkey == self.key,
    {
        StrategyClosedEvent { pubkey: self.key }
    }
}

} // verus!
