use vstd::prelude::*;
use vstd::bytes::{spec_u64_from_le_bytes, spec_u64_to_le_bytes, u64_from_le_bytes, u64_to_le_bytes};
use vstd::slice::slice_subrange;

use crate::account::{address_eq, address_to_vec, AccountInfo, Address, ADDRESS_LEN, ESCROW_PROGRAM_ID};
use crate::error::EscrowError;
use crate::pda::{create_program_address, push_seed, spec_create_program_address};

verus! {

broadcast use vstd::array::group_array_axioms;

/// Bytes that an escrow account's data holds: the seed, three addresses, the
/// amount asked for and the bump, packed without padding.
pub const ESCROW_LEN: usize = 113;

/// The terms of one offer, as an escrow account stores them: the seed that,
/// with the maker's address, derives the escrow's address; the maker; the mint
/// of the tokens offered (A) and of those asked for (B); how many B tokens the
/// maker asks for; and the bump of the escrow's program address.
#[derive(Debug, Clone, Copy, PartialEq, Eq)]
pub struct Escrow {
    pub seed: u64,
    pub maker: Address,
    pub mint_a: Address,
    pub mint_b: Address,
    pub receive: u64,
    pub bump: [u8; 1],
}

/// The bytes that store `e`: the seed and the amount asked for in
/// little-endian order, the addresses as they are, the bump last.
pub open spec fn escrow_bytes(e: Escrow) -> Seq<u8> {
    spec_u64_to_le_bytes(e.seed) + e.maker@ + e.mint_a@ + e.mint_b@ + spec_u64_to_le_bytes(e.receive) + e.bump@
}

/// `e` is what the bytes `s` store.
pub open spec fn escrow_stored_in(s: Seq<u8>, e: Escrow) -> bool {
    &&& s.len() == ESCROW_LEN
    &&& e.seed == spec_u64_from_le_bytes(s.subrange(0, 8))
    &&& e.maker@ == s.subrange(8, 40)
    &&& e.mint_a@ == s.subrange(40, 72)
    &&& e.mint_b@ == s.subrange(72, 104)
    &&& e.receive == spec_u64_from_le_bytes(s.subrange(104, 112))
    &&& e.bump@ == s.subrange(112, 113)
}

/// The first seed of every escrow's address: the bytes of `"escrow"`.
pub open spec fn escrow_tag() -> Seq<u8> {
    seq![101u8, 115u8, 99u8, 114u8, 111u8, 119u8]
}

/// The seeds that, with a bump, derive the address of the escrow that `maker`
/// opened with `seed`: `"escrow"`, the maker's address and the seed in
/// little-endian order.
pub open spec fn spec_escrow_seeds(maker: Seq<u8>, seed: u64) -> Seq<Seq<u8>> {
    seq![escrow_tag(), maker, spec_u64_to_le_bytes(seed)]
}

/// The seeds of the escrow that `maker` opened with `seed`.
pub fn escrow_seeds(maker: &Address, seed: u64) -> (r: Vec<Vec<u8>>)
    ensures
        r.deep_view() == spec_escrow_seeds(maker@, seed),
{
    let tag: Vec<u8> = vec![101u8, 115u8, 99u8, 114u8, 111u8, 119u8];
    assert(tag@ =~= escrow_tag());
    let mut seeds: Vec<Vec<u8>> = Vec::new();
    assert(seeds.deep_view() =~= Seq::<Seq<u8>>::empty());
    push_seed(&mut seeds, tag);
    push_seed(&mut seeds, address_to_vec(maker));
    push_seed(&mut seeds, u64_to_le_bytes(seed));
    assert(seeds.deep_view() =~= spec_escrow_seeds(maker@, seed));
    seeds
}

/// The seeds with which the escrow program signs for the escrow that `maker`
/// opened with `seed`: its address seeds followed by the bump.
pub fn escrow_signer_seeds(maker: &Address, seed: u64, bump: &[u8; 1]) -> (r: Vec<Vec<u8>>)
    ensures
        r.deep_view() == spec_escrow_seeds(maker@, seed).push(bump@),
{
    let mut seeds = escrow_seeds(maker, seed);
    let mut b: Vec<u8> = Vec::new();
    b.push(bump[0]);
    assert(b@ =~= bump@);
    push_seed(&mut seeds, b);
    seeds
}

/// Copies 32 bytes of `data` from `offset` into an address.
fn read_address(data: &[u8], offset: usize) -> (a: Address)
    requires
        offset + ADDRESS_LEN <= data@.len(),
    ensures
        a@ == data@.subrange(offset as int, offset + ADDRESS_LEN),
{
    let mut a: Address = [0u8; 32];
    let mut i: usize = 0;
    while i < ADDRESS_LEN
        invariant
            i <= ADDRESS_LEN,
            offset + ADDRESS_LEN <= data.len(),
            a@.len() == ADDRESS_LEN,
            forall|j: int| 0 <= j < i ==> a@[j] == data@[offset + j],
        decreases ADDRESS_LEN - i,
    {
        a[i] = data[offset + i];
        i = i + 1;
    }
    assert(a@ =~= data@.subrange(offset as int, offset + ADDRESS_LEN));
    a
}

/// Appends the bytes of `src` to `v`.
fn push_all(v: &mut Vec<u8>, src: &[u8])
    ensures
        final(v)@ == old(v)@ + src@,
{
    let mut i: usize = 0;
    while i < src.len()
        invariant
            i <= src@.len(),
            v@ == old(v)@ + src@.subrange(0, i as int),
        decreases src@.len() - i,
    {
        v.push(src[i]);
        i = i + 1;
        assert(v@ =~= old(v)@ + src@.subrange(0, i as int));
    }
    assert(src@.subrange(0, src@.len() as int) =~= src@);
}

impl Escrow {
    /// Bytes that an escrow account's data holds.
    pub const LEN: usize = ESCROW_LEN;

    /// The terms of an offer, field by field.
    pub fn new(seed: u64, maker: Address, mint_a: Address, mint_b: Address, receive: u64, bump: [u8; 1]) -> (e: Escrow)
        ensures
            e.seed == seed,
            e.maker == maker,
            e.mint_a == mint_a,
            e.mint_b == mint_b,
            e.receive == receive,
            e.bump == bump,
    {
        Escrow { seed, maker, mint_a, mint_b, receive, bump }
    }

    /// Reads the terms that an escrow account's data stores. Data of any
    /// other length than `ESCROW_LEN` is refused with `InvalidAccountData`.
    pub fn load(data: &[u8]) -> (r: Result<Escrow, EscrowError>)
        ensures
            data@.len() != ESCROW_LEN ==> r == Err::<Escrow, EscrowError>(EscrowError::InvalidAccountData),
            data@.len() == ESCROW_LEN ==> (r matches Ok(e) && escrow_stored_in(data@, e)),
    {
        if data.len() != ESCROW_LEN {
            return Err(EscrowError::InvalidAccountData);
        }
        let seed = u64_from_le_bytes(slice_subrange(data, 0, 8));
        let maker = read_address(data, 8);
        let mint_a = read_address(data, 40);
        let mint_b = read_address(data, 72);
        let receive = u64_from_le_bytes(slice_subrange(data, 104, 112));
        let bump: [u8; 1] = [data[112]];
        assert(bump@ =~= data@.subrange(112, 113));
        Ok(Escrow { seed, maker, mint_a, mint_b, receive, bump })
    }

    /// Writes these terms over an escrow account's data. Data of any other
    /// length than `ESCROW_LEN` is refused with `InvalidAccountData` and left
    /// as it was.
    pub fn write_to(&self, data: &mut Vec<u8>) -> (r: Result<(), EscrowError>)
        ensures
            old(data)@.len() != ESCROW_LEN ==> r == Err::<(), EscrowError>(EscrowError::InvalidAccountData) && final(data)@ == old(data)@,
            old(data)@.len() == ESCROW_LEN ==> r is Ok && final(data)@ == escrow_bytes(*self),
    {
        if data.len() != ESCROW_LEN {
            return Err(EscrowError::InvalidAccountData);
        }
        let mut out = u64_to_le_bytes(self.seed);
        push_all(&mut out, &self.maker);
        push_all(&mut out, &self.mint_a);
        push_all(&mut out, &self.mint_b);
        let receive = u64_to_le_bytes(self.receive);
        push_all(&mut out, receive.as_slice());
        push_all(&mut out, &self.bump);
        *data = out;
        Ok(())
    }
}

/// The seed that escrow data stores.
pub open spec fn stored_seed(data: Seq<u8>) -> u64 {
    spec_u64_from_le_bytes(data.subrange(0, 8))
}

/// The amount asked for that escrow data stores.
pub open spec fn stored_receive(data: Seq<u8>) -> u64 {
    spec_u64_from_le_bytes(data.subrange(104, 112))
}

/// The bump (one byte, as a seed) that escrow data stores.
pub open spec fn stored_bump(data: Seq<u8>) -> Seq<u8> {
    data.subrange(112, 113)
}

/// The seeds with which the escrow program signs for an escrow of `maker`
/// whose data is `data`: the seeds of its address and its stored bump.
pub open spec fn stored_signer_seeds(maker: Seq<u8>, data: Seq<u8>) -> Seq<Seq<u8>> {
    spec_escrow_seeds(maker, stored_seed(data)).push(stored_bump(data))
}

/// What checking an escrow against its maker finds: its data must have the
/// escrow's length (`InvalidAccountData`), and its address must be the program
/// address derived from the maker's address and the seed and bump it stores
/// (errors of the derivation, then `InvalidAccountOwner` for another address).
pub open spec fn spec_escrow_key_check(maker: AccountInfo, escrow: AccountInfo) -> Result<(), EscrowError> {
    if escrow.data@.len() != ESCROW_LEN {
        Err(EscrowError::InvalidAccountData)
    } else {
        match spec_create_program_address(stored_signer_seeds(maker.address@, escrow.data@), ESCROW_PROGRAM_ID@) {
            Err(e) => Err(e),
            Ok(key) => if key == escrow.address@ {
                Ok(())
            } else {
                Err(EscrowError::InvalidAccountOwner)
            },
        }
    }
}

/// Reads the terms that `escrow` stores and checks that its address is the
/// one its maker, seed and bump derive.
pub fn load_checked(maker: &AccountInfo, escrow: &AccountInfo) -> (r: Result<Escrow, EscrowError>)
    ensures
        spec_escrow_key_check(*maker, *escrow) is Err ==> r is Err && r->Err_0 == spec_escrow_key_check(*maker, *escrow)->Err_0,
        spec_escrow_key_check(*maker, *escrow) is Ok ==> r is Ok && escrow_stored_in(escrow.data@, r->Ok_0),
{
    let terms = Escrow::load(escrow.data.as_slice())?;
    let seeds = escrow_signer_seeds(&maker.address, terms.seed, &terms.bump);
    assert(seeds.deep_view() == stored_signer_seeds(maker.address@, escrow.data@));
    let key = create_program_address(&seeds, &ESCROW_PROGRAM_ID)?;
    if !address_eq(&key, &escrow.address) {
        return Err(EscrowError::InvalidAccountOwner);
    }
    Ok(terms)
}

/// The stored form of an escrow has `ESCROW_LEN` bytes, and the only terms
/// that those bytes store are the ones that were written: what a read gives
/// back is exactly what a write wrote.
pub proof fn lemma_escrow_bytes_roundtrip(e: Escrow, read: Escrow)
    ensures
        escrow_bytes(e).len() == ESCROW_LEN,
        escrow_stored_in(escrow_bytes(e), e),
        escrow_stored_in(escrow_bytes(e), read) ==> read == e,
{
    vstd::bytes::lemma_auto_spec_u64_to_from_le_bytes();
    let s = escrow_bytes(e);
    let seed = spec_u64_to_le_bytes(e.seed);
    let receive = spec_u64_to_le_bytes(e.receive);
    assert(s.subrange(0, 8) =~= seed);
    assert(s.subrange(8, 40) =~= e.maker@);
    assert(s.subrange(40, 72) =~= e.mint_a@);
    assert(s.subrange(72, 104) =~= e.mint_b@);
    assert(s.subrange(104, 112) =~= receive);
    assert(s.subrange(112, 113) =~= e.bump@);
    if escrow_stored_in(s, read) {
        assert(read.maker@ == e.maker@);
        assert(read.mint_a@ == e.mint_a@);
        assert(read.mint_b@ == e.mint_b@);
        assert(read.bump@ == e.bump@);
        assert(read.maker == e.maker);
        assert(read.mint_a == e.mint_a);
        assert(read.mint_b == e.mint_b);
        assert(read.bump == e.bump);
        assert(read.seed == spec_u64_from_le_bytes(spec_u64_to_le_bytes(e.seed)));
        assert(read.receive == spec_u64_from_le_bytes(spec_u64_to_le_bytes(e.receive)));
    }
}

} // verus!
