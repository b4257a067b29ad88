use vstd::prelude::*;
use crate::key::Pubkey;
use crate::state::located::{Located, authority_seeds_for};

verus! {

/// Seed prefix of an escrow account.
pub const ESCROW_PREFIX: [u8; 13] = [101, 108, 101, 109, 102, 105, 45, 101, 115, 99, 114, 111, 119];

/// Space of an escrow account: discriminator, mint and bump (8 + 32 + 1).
pub const ESCROW_LEN: usize = 41;

/// Seed prefix of the program-derived authority of an escrow.
pub const ESCROW_AUTHORITY_PREFIX: [u8; 23] = [
    101, 108, 101, 109, 102, 105, 45, 101, 115, 99, 114, 111, 119, 45, 97, 117, 116, 104, 111, 114,
    105, 116, 121,
];

/// An escrow: an NFT mint whose holder acts through a program-derived authority.
#[derive(Clone, Copy, Debug, PartialEq, Eq)]
pub struct Escrow {
    pub mint: Pubkey,
    pub authority_bump: u8,
}

pub trait EscrowAuthoritySeeds {
    /// The seeds under which the escrow authority signs.
    fn authority_seeds(&self) -> Vec<Vec<u8>>;
}

impl EscrowAuthoritySeeds for Located<Escrow> {
    fn authority_seeds(&self) -> (r: Vec<Vec<u8>>)
        ensures
            r@.len() == 3,
            r@[0]@ == ESCROW_AUTHORITY_PREFIX@,
            r@[1]@ == self.account.mint.bytes@,
            r@[2]@ == seq![self.account.authority_bump],
    {
        authority_seeds_for(
            ESCROW_AUTHORITY_PREFIX.as_slice(),
            &self.account.mint,
            self.account.authority_bump,
        )
    }
}

} // verus!
