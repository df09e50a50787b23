use vstd::prelude::*;

verus! {

/// An account address: 32 bytes, an ed25519 public key or a program address.
pub type Address = [u8; 32];

/// Number of bytes in an account address.
pub const ADDRESS_LEN: usize = 32;

/// The escrow program's own address (`2222…2222` in base58).
pub const ESCROW_PROGRAM_ID: [u8; 32] = [
    15, 30, 107, 20, 33, 192, 74, 7, 4, 49, 38, 92, 25, 197, 187, 238,
    25, 146, 186, 232, 175, 209, 205, 7, 142, 248, 175, 112, 71, 220, 17, 247,
];

/// The SPL Token program (`TokenkegQfeZyiNwAJbNbGKPFXCWuBvf9Ss623VQ5DA`).
pub const TOKEN_PROGRAM_ID: [u8; 32] = [
    6, 221, 246, 225, 215, 101, 161, 147, 217, 203, 225, 70, 206, 235, 121, 172,
    28, 180, 133, 237, 95, 91, 55, 145, 58, 140, 245, 133, 126, 255, 0, 169,
];

/// The SPL Token-2022 program (`TokenzQdBNbLqP5VEhdkAS6EPFLC1PHnBqCXEpPxuEb`).
pub const TOKEN_2022_PROGRAM_ID: [u8; 32] = [
    6, 221, 246, 225, 238, 117, 143, 222, 24, 66, 93, 188, 228, 108, 205, 218,
    182, 26, 252, 77, 131, 185, 13, 39, 254, 189, 249, 40, 216, 161, 139, 252,
];

/// The associated token account program (`ATokenGPvbdGVxr1b2hvZbsiqW5xWH25efTNsLJA8knL`).
pub const ASSOCIATED_TOKEN_PROGRAM_ID: [u8; 32] = [
    140, 151, 37, 143, 78, 36, 137, 241, 187, 61, 16, 41, 20, 142, 13, 131,
    11, 90, 19, 153, 218, 255, 16, 132, 4, 142, 123, 216, 219, 233, 248, 89,
];

/// The system program (all zero bytes); closed accounts are handed back to it.
pub const SYSTEM_PROGRAM_ID: [u8; 32] = [
    0, 0, 0, 0, 0, 0, 0, 0, 0, 0, 0, 0, 0, 0, 0, 0,
    0, 0, 0, 0, 0, 0, 0, 0, 0, 0, 0, 0, 0, 0, 0, 0,
];

/// What an instruction sees of one account passed to it: its address, the
/// program that owns it, whether it signed the transaction, whether it may be
/// written, its balance in lamports and its data bytes.
#[derive(Debug, Clone, PartialEq, Eq)]
pub struct AccountInfo {
    pub address: [u8; 32],
    pub owner: [u8; 32],
    pub is_signer: bool,
    pub is_writable: bool,
    pub lamports: u64,
    pub data: Vec<u8>,
}

/// Compares two addresses byte by byte.
pub fn address_eq(a: &[u8; 32], b: &[u8; 32]) -> (r: bool)
    ensures
        r == (a@ == b@),
{
    let mut i: usize = 0;
    while i < ADDRESS_LEN
        invariant
            i <= ADDRESS_LEN,
            a@.len() == ADDRESS_LEN,
            b@.len() == ADDRESS_LEN,
            forall|j: int| 0 <= j < i ==> a@[j] == b@[j],
        decreases ADDRESS_LEN - i,
    {
        if a[i] != b[i] {
            return false;
        }
        i = i + 1;
    }
    assert(a@ =~= b@);
    true
}

/// The bytes of an address, as a vector.
pub fn address_to_vec(a: &[u8; 32]) -> (r: Vec<u8>)
    ensures
        r@ == a@,
{
    let mut v: Vec<u8> = Vec::new();
    let mut i: usize = 0;
    while i < ADDRESS_LEN
        invariant
            i <= ADDRESS_LEN,
            a@.len() == ADDRESS_LEN,
            v@ == a@.subrange(0, i as int),
        decreases ADDRESS_LEN - i,
    {
        v.push(a[i]);
        i = i + 1;
        assert(v@ =~= a@.subrange(0, i as int));
    }
    assert(a@.subrange(0, ADDRESS_LEN as int) =~= a@);
    v
}

} // verus!
