use vstd::prelude::*;
use crate::key::Pubkey;

verus! {

/// A realm: the roles that govern a set of vaults.
#[derive(Clone, Copy, Debug, PartialEq, Eq)]
pub struct Realm {
    /// authority
    pub authority: Pubkey,
    /// offchain bot
    pub delegator: Pubkey,
    /// approver has power to add new router
    pub approver: Pubkey,
    /// escrow NFT collection
    pub escrow_collection: Option<Pubkey>,
}

} // verus!
