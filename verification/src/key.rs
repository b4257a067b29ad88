use vstd::prelude::*;

verus! {

broadcast use vstd::array::group_array_axioms;

/// A 32-byte account address.
#[derive(Clone, Copy, Debug, PartialEq, Eq)]
pub struct Pubkey {
    pub bytes: [u8; 32],
}

/// Bytes of the wrapped-SOL mint, which stands for the native token.
pub const NATIVE_MINT_BYTES: [u8; 32] = [
    6, 155, 136, 87, 254, 171, 129, 132, 251, 104, 127, 99, 70, 24, 192, 53,
    218, 196, 57, 220, 26, 235, 59, 85, 152, 160, 240, 0, 0, 0, 0, 1,
];

/// Bytes of the SPL token program id.
pub const TOKEN_PROGRAM_BYTES: [u8; 32] = [
    6, 221, 246, 225, 215, 101, 161, 147, 217, 203, 225, 70, 206, 235, 121, 172,
    28, 180, 133, 237, 95, 91, 55, 145, 58, 140, 245, 133, 126, 255, 0, 169,
];

/// Bytes of the system program id.
pub const SYSTEM_PROGRAM_BYTES: [u8; 32] = [
    0, 0, 0, 0, 0, 0, 0, 0, 0, 0, 0, 0, 0, 0, 0, 0,
    0, 0, 0, 0, 0, 0, 0, 0, 0, 0, 0, 0, 0, 0, 0, 0,
];

/// Decimals of the native token.
pub const NATIVE_TOKEN_DECIMALS: u8 = 9;

pub open spec fn native_mint() -> Pubkey {
    Pubkey { bytes: NATIVE_MINT_BYTES }
}

pub open spec fn token_program_id() -> Pubkey {
    Pubkey { bytes: TOKEN_PROGRAM_BYTES }
}

pub open spec fn system_program_id() -> Pubkey {
    Pubkey { bytes: SYSTEM_PROGRAM_BYTES }
}

/// The address of the native token's mint.
pub fn native_mint_id() -> (r: Pubkey)
    ensures
        r == native_mint(),
{
    Pubkey { bytes: NATIVE_MINT_BYTES }
}

/// The address of the SPL token program.
pub fn token_program_key() -> (r: Pubkey)
    ensures
        r == token_program_id(),
{
    Pubkey { bytes: TOKEN_PROGRAM_BYTES }
}

/// The address of the system program.
pub fn system_program_key() -> (r: Pubkey)
    ensures
        r == system_program_id(),
{
    Pubkey { bytes: SYSTEM_PROGRAM_BYTES }
}

impl Pubkey {
    /// Whether two addresses hold the same bytes.
    pub fn same(&self, other: &Pubkey) -> (r: bool)
        ensures
            r == (*self == *other),
    {
        let mut i: usize = 0;
        while i < 32
            invariant
                i <= 32,
                forall|j: int| 0 <= j < i ==> self.bytes[j] == other.bytes[j],
            decreases 32 - i,
        {
            if self.bytes[i] != other.bytes[i] {
                return false;
            }
            i = i + 1;
        }
        assert(self.bytes@ =~= other.bytes@);
        assert(self.bytes == other.bytes);
        true
    }

    /// The address held in `data[at..at + 32]`.
    pub fn read_from(data: &[u8], at: usize) -> (r: Pubkey)
        requires
            at + 32 <= data.len(),
        ensures
            r.bytes@ == data@.subrange(at as int, at + 32),
    {
        let mut b: [u8; 32] = [0u8; 32];
        let mut i: usize = 0;
        while i < 32
            invariant
                i <= 32,
                at + 32 <= data.len(),
                forall|j: int| 0 <= j < i ==> b[j] == data@[at + j],
            decreases 32 - i,
        {
            b[i] = data[at + i];
            i = i + 1;
        }
        let r = Pubkey { bytes: b };
        assert(r.bytes@ =~= data@.subrange(at as int, at + 32));
        r
    }

    /// The address's bytes, in order.
    pub fn to_bytes(&self) -> (r: Vec<u8>)
        ensures
            r@ == self.bytes@,
    {
        vstd::slice::slice_to_vec(self.bytes.as_slice())
    }
}

} // verus!
