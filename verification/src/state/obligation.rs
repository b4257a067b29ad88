use vstd::prelude::*;
use crate::key::Pubkey;
use crate::state::located::Located;

verus! {

/// Seed prefix of an obligation account.
pub const OBLIGATION_PREFIX: [u8; 17] = [
    101, 108, 101, 109, 102, 105, 45, 111, 98, 108, 105, 103, 97, 116, 105, 111, 110,
];

/// Space of an obligation account (8 + 32 + 32 + 32 + 32 + 8 + 8 + 4).
pub const OBLIGATION_LEN: usize = 156;

/// An obligation: underlying owed to a destination for burnt collateral.
#[derive(Clone, Copy, Debug, PartialEq, Eq)]
pub struct Obligation {
    pub realm: Pubkey,
    pub vault: Pubkey,
    pub rent_collector: Pubkey,
    pub destination: Pubkey,
    pub burnt_amount: u64,
    pub pending_amount: u64,
    pub created_ts: u32,
}

#[derive(Clone, Copy, Debug, PartialEq, Eq)]
pub struct ObligationCreatedData {
    pub realm: Pubkey,
    pub vault: Pubkey,
    pub rent_collector: Pubkey,
    pub destination: Pubkey,
    pub burnt_amount: u64,
    pub pending_amount: u64,
    pub created_ts: u32,
}

/// Event published when an obligation is created.
#[derive(Clone, Copy, Debug, PartialEq, Eq)]
pub struct ObligationCreatedEvent {
    pub pubkey: Pubkey,
    pub data: ObligationCreatedData,
}

pub trait EmitObligationCreatedEvent {
    /// The event that announces the obligation as created.
    fn emit_created_event(&self) -> ObligationCreatedEvent;
}

impl EmitObligationCreatedEvent for Located<Obligation> {
    fn emit_created_event(&self) -> (r: ObligationCreatedEvent)
        ensures
            r.pubkey == self.key,
            r.data.realm == self.account.realm,
            r.data.vault == self.account.vault,
            r.data.rent_collector == self.account.rent_collector,
            r.data.destination == self.account.destination,
            r.data.burnt_amount == self.account.burnt_amount,
            r.data.pending_amount == self.account.pending_amount,
            r.data.created_ts == self.account.created_ts,
    {
        ObligationCreatedEvent {
            pubkey: self.key,
            data: ObligationCreatedData {
                realm: self.account.realm,
                vault: self.account.vault,
                rent_collector: self.account.rent_collector,
                destination: self.account.destination,
                burnt_amount: self.account.burnt_amount,
                pending_amount: self.account.pending_amount,
                created_ts: self.account.created_ts,
            },
        }
    }
}

/// Event published when an obligation is closed.
#[derive(Clone, Copy, Debug, PartialEq, Eq)]
pub struct ObligationClosedEvent {
    pub pubkey: Pubkey,
}

pub trait EmitObligationClosedEvent {
    /// The event that announces the obligation as closed.
    fn emit_closed_event(&self) -> ObligationClosedEvent;
}

impl EmitObligationClosedEvent for Located<Obligation> {
    fn emit_closed_event(&self) -> (r: ObligationClosedEvent)
        ensures
            r.pubkey == self.key,
    {
        ObligationClosedEvent { pubkey: self.key }
    }
}

} // verus!
