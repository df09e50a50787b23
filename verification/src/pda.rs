use vstd::prelude::*;

use crate::account::Address;
use crate::error::EscrowError;

verus! {

/// Most seeds that one program address may be derived from.
pub const MAX_SEEDS: usize = 16;

/// Most bytes in one seed.
pub const MAX_SEED_LEN: usize = 32;

/// The program address that `program_id` derives from `seeds`: a SHA-256 hash
/// of the seeds, the program id and a fixed marker, or `None` where that hash
/// lies on the ed25519 curve and so cannot serve as a program address.
pub uninterp spec fn derived_program_address(seeds: Seq<Seq<u8>>, program_id: Seq<u8>) -> Option<Seq<u8>>;

/// There are at most `MAX_SEEDS` seeds and none is longer than `MAX_SEED_LEN`.
pub open spec fn seeds_within_limits(seeds: Seq<Seq<u8>>) -> bool {
    &&& seeds.len() <= MAX_SEEDS
    &&& forall|i: int| 0 <= i < seeds.len() ==> #[trigger] seeds[i].len() <= MAX_SEED_LEN
}

/// What deriving a program address from exactly these seeds gives.
pub open spec fn spec_create_program_address(seeds: Seq<Seq<u8>>, program_id: Seq<u8>) -> Result<Seq<u8>, EscrowError> {
    if !seeds_within_limits(seeds) {
        Err(EscrowError::MaxSeedLengthExceeded)
    } else {
        match derived_program_address(seeds, program_id) {
            Some(address) => Ok(address),
            None => Err(EscrowError::InvalidSeeds),
        }
    }
}

/// The first bump seed, counting down from `bump` to 1, whose one-byte seed
/// appended to `seeds` derives a program address, with that address.
pub open spec fn bump_search(seeds: Seq<Seq<u8>>, program_id: Seq<u8>, bump: nat) -> Option<(Seq<u8>, u8)>
    decreases bump,
{
    if bump == 0 {
        None
    } else {
        match derived_program_address(seeds.push(seq![bump as u8]), program_id) {
            Some(address) => Some((address, bump as u8)),
            None => bump_search(seeds, program_id, (bump - 1) as nat),
        }
    }
}

/// The canonical program address of `seeds`: the one derived with the
/// highest bump seed from 255 down to 1 that derives one at all.
pub open spec fn spec_find_program_address(seeds: Seq<Seq<u8>>, program_id: Seq<u8>) -> Option<(Seq<u8>, u8)> {
    if seeds.len() >= MAX_SEEDS || !seeds_within_limits(seeds) {
        None
    } else {
        bump_search(seeds, program_id, 255)
    }
}

/// Calls `solana_address::Address::create_program_address` on the seeds and
/// the program id. The contract claims what its source shows: too many or too
/// long seeds are refused with `MaxSeedLengthExceeded`; otherwise the result is
/// the hash named by `derived_program_address`, or `InvalidSeeds` where that
/// hash lies on the curve. Nothing is claimed about the hash itself.
#[verifier::external_body]
pub(crate) fn create_program_address(seeds: &Vec<Vec<u8>>, program_id: &Address) -> (r: Result<Address, EscrowError>)
    ensures
        !seeds_within_limits(seeds.deep_view()) ==> (r is Err && r->Err_0 == EscrowError::MaxSeedLengthExceeded),
        seeds_within_limits(seeds.deep_view()) && !(derived_program_address(seeds.deep_view(), program_id@) is Some) ==> (r is Err && r->Err_0 == EscrowError::InvalidSeeds),
        seeds_within_limits(seeds.deep_view()) && (derived_program_address(seeds.deep_view(), program_id@) is Some) ==> (r is Ok && r->Ok_0@ == derived_program_address(seeds.deep_view(), program_id@).unwrap()),
{
    let refs: Vec<&[u8]> = seeds.iter().map(|s| s.as_slice()).collect();
    let id = solana_address::Address::new_from_array(*program_id);
    match solana_address::Address::create_program_address(&refs, &id) {
        Ok(address) => Ok(address.to_bytes()),
        Err(solana_address::error::AddressError::MaxSeedLengthExceeded) => Err(EscrowError::MaxSeedLengthExceeded),
        Err(solana_address::error::AddressError::InvalidSeeds) => Err(EscrowError::InvalidSeeds),
        Err(solana_address::error::AddressError::IllegalOwner) => Err(EscrowError::IllegalOwner),
    }
}

/// Calls `solana_address::Address::try_find_program_address`, the form of
/// `find_program_address` that reports failure instead of panicking. The
/// contract claims what its source shows: with fewer than `MAX_SEEDS` seeds,
/// none too long, it tries the bump seeds 255 down to 1 in turn and returns the
/// first whose derivation succeeds, with the derived address; otherwise `None`.
#[verifier::external_body]
pub(crate) fn find_program_address(seeds: &Vec<Vec<u8>>, program_id: &Address) -> (r: Option<([u8; 32], u8)>)
    ensures
        r matches Some((address, bump)) ==> spec_find_program_address(seeds.deep_view(), program_id@) == Some((address@, bump)),
        !(r is Some) ==> !(spec_find_program_address(seeds.deep_view(), program_id@) is Some),
        r matches Some((address, bump)) ==> derived_program_address(seeds.deep_view().push(seq![bump]), program_id@) == Some(address@),
{
    let refs: Vec<&[u8]> = seeds.iter().map(|s| s.as_slice()).collect();
    let id = solana_address::Address::new_from_array(*program_id);
    match solana_address::Address::try_find_program_address(&refs, &id) {
        Some((address, bump)) => Some((address.to_bytes(), bump)),
        None => None,
    }
}

/// Appends one seed to a list of seeds.
pub fn push_seed(seeds: &mut Vec<Vec<u8>>, seed: Vec<u8>)
    ensures
        final(seeds).deep_view() == old(seeds).deep_view().push(seed@),
{
    let ghost before = seeds.deep_view();
    seeds.push(seed);
    proof {
        let after = seeds.deep_view();
        assert(seeds@[seeds@.len() - 1].deep_view() =~= seed@);
        assert forall|i: int| 0 <= i < before.len() implies #[trigger] after[i] == before[i] by {
            assert(seeds@[i] == old(seeds)@[i]);
        }
        assert(after =~= before.push(seed@));
    }
}

/// A bump found by the search re-derives, with the seeds it was found for,
/// the very address the search returned.
proof fn lemma_bump_search_rederives(seeds: Seq<Seq<u8>>, program_id: Seq<u8>, bump: nat)
    requires
        bump <= 255,
    ensures
        bump_search(seeds, program_id, bump) matches Some((address, b)) ==> {
            &&& 1 <= b <= bump
            &&& derived_program_address(seeds.push(seq![b]), program_id) == Some(address)
        },
    decreases bump,
{
    if bump > 0 {
        lemma_bump_search_rederives(seeds, program_id, (bump - 1) as nat);
    }
}

/// Finding a program address and then deriving it again from the seeds with
/// the bump that was found gives the same address: what `find` returns,
/// `create` confirms.
pub proof fn lemma_find_then_create(seeds: Seq<Seq<u8>>, program_id: Seq<u8>)
    ensures
        spec_find_program_address(seeds, program_id) matches Some((address, bump)) ==>
            spec_create_program_address(seeds.push(seq![bump]), program_id) == Ok::<Seq<u8>, EscrowError>(address),
{
    if spec_find_program_address(seeds, program_id) is Some {
        lemma_bump_search_rederives(seeds, program_id, 255);
        let (address, bump) = spec_find_program_address(seeds, program_id).unwrap();
        let pushed = seeds.push(seq![bump]);
        assert forall|i: int| 0 <= i < pushed.len() implies #[trigger] pushed[i].len() <= MAX_SEED_LEN by {
            if i < seeds.len() {
                assert(pushed[i] == seeds[i]);
            }
        }
        assert(seeds_within_limits(pushed));
    }
}

} // verus!
