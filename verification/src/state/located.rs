use vstd::prelude::*;
use crate::key::Pubkey;

verus! {

/// An account's contents together with the address it is stored at.
#[derive(Clone, Copy, Debug, PartialEq, Eq)]
pub struct Located<T> {
    pub key: Pubkey,
    pub account: T,
}

impl<T> Located<T> {
    /// The address the account is stored at.
    pub fn key(&self) -> (r: Pubkey)
        ensures
            r == self.key,
    {
        self.key
    }

    /// The account's contents.
    pub fn as_ref(&self) -> (r: &T)
        ensures
            *r == self.account,
    {
        &self.account
    }
}

/// The seeds `[prefix, key, [bump]]` under which a program-derived authority signs.
pub open spec fn spec_authority_seeds(prefix: Seq<u8>, key: Pubkey, bump: u8) -> Seq<Seq<u8>> {
    seq![prefix, key.bytes@, seq![bump]]
}

/// Builds the signer seeds `[prefix, key, [bump]]`.
pub fn authority_seeds_for(prefix: &[u8], key: &Pubkey, bump: u8) -> (r: Vec<Vec<u8>>)
    ensures
        r@.len() == 3,
        r@[0]@ == prefix@,
        r@[1]@ == key.bytes@,
        r@[2]@ == seq![bump],
{
    let mut seeds: Vec<Vec<u8>> = Vec::new();
    seeds.push(vstd::slice::slice_to_vec(prefix));
    seeds.push(key.to_bytes());
    let mut last: Vec<u8> = Vec::new();
    last.push(bump);
    seeds.push(last);
    assert(seeds@[2]@ =~= seq![bump]);
    seeds
}

} // verus!
