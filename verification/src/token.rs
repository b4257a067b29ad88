use vstd::prelude::*;
use anchor_lang::AccountDeserialize;
use crate::key::Pubkey;

verus! {

/// What the instructions read of an account passed without a declared type:
/// its address, the program that owns it, its lamports and its raw data.
#[derive(Clone, Debug)]
pub struct AccountView {
    pub key: Pubkey,
    pub owner: Pubkey,
    pub lamports: u64,
    pub data: Vec<u8>,
}

/// The fields of an SPL token account that the instructions read.
#[derive(Clone, Copy, Debug, PartialEq, Eq)]
pub struct TokenAccountInfo {
    pub mint: Pubkey,
    pub owner: Pubkey,
    pub amount: u64,
}

/// The fields of an SPL mint that the instructions read.
#[derive(Clone, Copy, Debug, PartialEq, Eq)]
pub struct MintInfo {
    pub mint_authority: Option<Pubkey>,
    pub supply: u64,
    pub decimals: u8,
    pub freeze_authority: Option<Pubkey>,
}

/// The collection that a token metadata account names.
#[derive(Clone, Copy, Debug, PartialEq, Eq)]
pub struct CollectionInfo {
    pub verified: bool,
    pub key: Pubkey,
}

/// The fields of a token metadata account that the instructions read.
#[derive(Clone, Copy, Debug, PartialEq, Eq)]
pub struct MetadataInfo {
    pub mint: Pubkey,
    pub collection: Option<CollectionInfo>,
}

/// The little-endian unsigned value of the eight bytes `s[at..at + 8]`.
pub open spec fn le_u64_at(s: Seq<u8>, at: int) -> int {
    s[at] + 0x100 * s[at + 1] + 0x1_0000 * s[at + 2] + 0x100_0000 * s[at + 3]
        + 0x1_0000_0000 * s[at + 4] + 0x100_0000_0000 * s[at + 5]
        + 0x1_0000_0000_0000 * s[at + 6] + 0x100_0000_0000_0000 * s[at + 7]
}

/// The mint recorded in the data of an SPL token account (bytes 0..32).
pub open spec fn spec_token_mint(data: Seq<u8>) -> Seq<u8> {
    data.subrange(0, 32)
}

/// The owner recorded in the data of an SPL token account (bytes 32..64).
pub open spec fn spec_token_owner(data: Seq<u8>) -> Seq<u8> {
    data.subrange(32, 64)
}

/// The balance recorded in the data of an SPL token account (bytes 64..72).
pub open spec fn spec_token_balance(data: Seq<u8>) -> int {
    le_u64_at(data, 64)
}

/// Reads the mint of an SPL token account from its data.
pub fn token_mint(data: &[u8]) -> (r: Pubkey)
    requires
        32 <= data.len(),
    ensures
        r.bytes@ == spec_token_mint(data@),
{
    Pubkey::read_from(data, 0)
}

/// Reads the owner of an SPL token account from its data.
pub fn token_account_owner(data: &[u8]) -> (r: Pubkey)
    requires
        64 <= data.len(),
    ensures
        r.bytes@ == spec_token_owner(data@),
{
    Pubkey::read_from(data, 32)
}

/// Reads the balance of an SPL token account from its data.
pub fn token_balance(data: &[u8]) -> (r: u64)
    requires
        72 <= data.len(),
    ensures
        r == spec_token_balance(data@),
{
    let b0 = data[64] as u64;
    let b1 = data[65] as u64;
    let b2 = data[66] as u64;
    let b3 = data[67] as u64;
    let b4 = data[68] as u64;
    let b5 = data[69] as u64;
    let b6 = data[70] as u64;
    let b7 = data[71] as u64;
    b0 + 0x100 * b1 + 0x1_0000 * b2 + 0x100_0000 * b3 + 0x1_0000_0000 * b4
        + 0x100_0000_0000 * b5 + 0x1_0000_0000_0000 * b6 + 0x100_0000_0000_0000 * b7
}

/// Whether four bytes at `at` hold a valid optional-key tag (0 or 1, little endian).
pub open spec fn coption_tag_ok(s: Seq<u8>, at: int) -> bool {
    &&& (s[at] == 0 || s[at] == 1)
    &&& s[at + 1] == 0
    &&& s[at + 2] == 0
    &&& s[at + 3] == 0
}

/// Whether `s` is the data of an initialized SPL mint: 82 bytes, valid tags for
/// the mint and freeze authorities (at 0 and 46), and the initialized flag (at 45) set.
pub open spec fn mint_data_is_valid(s: Seq<u8>) -> bool {
    &&& s.len() == 82
    &&& coption_tag_ok(s, 0)
    &&& s[45] == 1
    &&& coption_tag_ok(s, 46)
}

#[verifier::external_type_specification]
#[verifier::external_body]
pub struct ExAnchorError(anchor_lang::error::Error);

/// Decodes mint data with `anchor_spl::token::Mint::try_deserialize` (which runs
/// `spl_token::state::Mint::unpack`) and hands back the decimals. Claimed of it: it
/// succeeds exactly on initialized 82-byte mint data, and the decimals are byte 44.
#[verifier::external_body]
pub(crate) fn unpack_mint_decimals(data: &[u8]) -> (r: Result<u8, anchor_lang::error::Error>)
    ensures
        r is Ok <==> mint_data_is_valid(data@),
        r matches Ok(d) ==> d == data@[44],
{
    let mut buf: &[u8] = data;
    anchor_spl::token::Mint::try_deserialize(&mut buf).map(|m| m.decimals)
}

} // verus!
