use solana_program::pubkey::Pubkey;
use vstd::prelude::*;

verus! {

/// The second seed of the verifier state's program address: the ASCII bytes
/// of `storage`.
pub const STORAGE_SEED: [u8; 7] = [115u8, 116u8, 111u8, 114u8, 97u8, 103u8, 101u8];

/// Result of the search for a program derived address: for the given seeds and
/// program id, the address and the bump seed that the search settles on, or
/// `None` where no bump seed gives an address off the curve.
pub uninterp spec fn program_address_search(seeds: Seq<Seq<u8>>, program_id: Seq<u8>) -> Option<(Seq<u8>, u8)>;

/// The view of a found address and bump seed.
pub open spec fn found_view(r: Option<([u8; 32], u8)>) -> Option<(Seq<u8>, u8)> {
    match r {
        Some((address, bump)) => Some((address@, bump)),
        None => None,
    }
}

/// Calls `solana_program::pubkey::Pubkey::try_find_program_address`.
/// Trusted: its result is the named search result for the seeds and program id;
/// a found bump seed is at least 1 (the search tries 255 down to 1); with 16 or
/// more seeds, or a seed longer than 32 bytes, nothing is found.
#[verifier::external_body]
fn try_find_program_address(seeds: &Vec<Vec<u8>>, program_id: &[u8; 32]) -> (r: Option<([u8; 32], u8)>)
    ensures
        found_view(r) == program_address_search(seeds.deep_view(), program_id@),
        r matches Some((_, bump)) ==> bump >= 1,
        seeds.len() >= 16 || (exists|i: int| 0 <= i < seeds.len() && seeds@[i].len() > 32) ==> r is None,
{
    let seed_slices: Vec<&[u8]> = seeds.iter().map(|seed| seed.as_slice()).collect();
    Pubkey::try_find_program_address(&seed_slices, &Pubkey::new_from_array(*program_id))
        .map(|(address, bump)| (address.to_bytes(), bump))
}

/// The seeds that the verifier state's address is derived from.
pub open spec fn spec_storage_seeds(tx_integrity_hash: Seq<u8>) -> Seq<Seq<u8>> {
    seq![tx_integrity_hash, STORAGE_SEED@]
}

/// The seeds with which the program signs for the verifier state's address:
/// the derivation seeds followed by the bump seed.
pub open spec fn spec_signer_seeds(tx_integrity_hash: Seq<u8>, bump: u8) -> Seq<Seq<u8>> {
    spec_storage_seeds(tx_integrity_hash).push(seq![bump])
}

/// The verifier state's address is derived from the integrity hash itself,
/// byte for byte, followed by the storage seed; the bump found is the one
/// the search finds for exactly those seeds.
pub proof fn lemma_storage_seeds_are_hash_then_storage(tx_integrity_hash: Seq<u8>, program_id: Seq<u8>)
    ensures
        spec_storage_seeds(tx_integrity_hash).len() == 2,
        spec_storage_seeds(tx_integrity_hash)[0] == tx_integrity_hash,
        spec_storage_seeds(tx_integrity_hash)[1] == STORAGE_SEED@,
        match program_address_search(seq![tx_integrity_hash, STORAGE_SEED@], program_id) {
            Some((_, b)) => storage_bump(tx_integrity_hash, program_id) == Some(b),
            None => storage_bump(tx_integrity_hash, program_id) is None,
        },
{
    assert(spec_storage_seeds(tx_integrity_hash) =~= seq![tx_integrity_hash, STORAGE_SEED@]);
}

/// The program signs with the very seeds its state's address is derived
/// from, followed by the bump seed alone.
pub proof fn lemma_signer_seeds_extend_storage_seeds(tx_integrity_hash: Seq<u8>, bump: u8)
    ensures
        spec_signer_seeds(tx_integrity_hash, bump).len() == 3,
        spec_signer_seeds(tx_integrity_hash, bump).take(2) == spec_storage_seeds(tx_integrity_hash),
        spec_signer_seeds(tx_integrity_hash, bump)[2] == seq![bump],
        spec_signer_seeds(tx_integrity_hash, bump)[0] == tx_integrity_hash,
        spec_signer_seeds(tx_integrity_hash, bump)[1] == STORAGE_SEED@,
{
    assert(spec_signer_seeds(tx_integrity_hash, bump).take(2) =~= spec_storage_seeds(tx_integrity_hash));
}

/// Builds the seeds of the verifier state's address.
pub fn storage_seeds(tx_integrity_hash: &[u8; 32]) -> (seeds: Vec<Vec<u8>>)
    ensures
        seeds.deep_view() == spec_storage_seeds(tx_integrity_hash@),
        seeds.len() == 2,
        seeds@[0]@ == tx_integrity_hash@,
        seeds@[1]@ == STORAGE_SEED@,
        seeds.deep_view() == seq![tx_integrity_hash@, STORAGE_SEED@],
{
    let mut seeds: Vec<Vec<u8>> = Vec::new();
    seeds.push(bytes_to_vec(tx_integrity_hash));
    seeds.push(bytes_to_vec(&STORAGE_SEED));
    proof {
        lemma_byte_vec_deep_view(seeds@[0]);
        lemma_byte_vec_deep_view(seeds@[1]);
        assert(seeds.deep_view() =~= spec_storage_seeds(tx_integrity_hash@));
    }
    seeds
}

/// Builds the signer seeds for the verifier state's address and `bump`.
pub fn signer_seeds(tx_integrity_hash: &[u8; 32], bump: u8) -> (seeds: Vec<Vec<u8>>)
    ensures
        seeds.deep_view() == spec_signer_seeds(tx_integrity_hash@, bump),
        seeds.len() == 3,
        seeds@[0]@ == tx_integrity_hash@,
        seeds@[1]@ == STORAGE_SEED@,
        seeds@[2]@ == seq![bump],
        seeds.deep_view() == seq![tx_integrity_hash@, STORAGE_SEED@, seq![bump]],
{
    let mut seeds = storage_seeds(tx_integrity_hash);
    let mut bump_seed: Vec<u8> = Vec::new();
    bump_seed.push(bump);
    seeds.push(bump_seed);
    proof {
        assert(bump_seed@ =~= seq![bump]);
        lemma_byte_vec_deep_view(seeds@[0]);
        lemma_byte_vec_deep_view(seeds@[1]);
        lemma_byte_vec_deep_view(seeds@[2]);
        assert(seeds.deep_view() =~= spec_signer_seeds(tx_integrity_hash@, bump));
    }
    seeds
}

/// Finds the bump seed of the verifier state's address for `program_id`.
pub fn find_storage_bump(tx_integrity_hash: &[u8; 32], program_id: &[u8; 32]) -> (bump: Option<u8>)
    ensures
        bump == storage_bump(tx_integrity_hash@, program_id@),
        bump matches Some(b) ==> b >= 1,
        match program_address_search(seq![tx_integrity_hash@, STORAGE_SEED@], program_id@) {
            Some((_, b)) => bump == Some(b),
            None => bump is None,
        },
{
    let seeds = storage_seeds(tx_integrity_hash);
    match try_find_program_address(&seeds, program_id) {
        Some((_, b)) => Some(b),
        None => None,
    }
}

/// The bump seed found for the verifier state's address, if any.
pub open spec fn storage_bump(tx_integrity_hash: Seq<u8>, program_id: Seq<u8>) -> Option<u8> {
    match program_address_search(spec_storage_seeds(tx_integrity_hash), program_id) {
        Some((_, bump)) => Some(bump),
        None => None,
    }
}

/// The deep view of a byte vector is its view.
pub proof fn lemma_byte_vec_deep_view(v: Vec<u8>)
    ensures
        v.deep_view() == v@,
{
    assert(v.deep_view() =~= v@);
}

/// Copies a byte array into a vector.
pub fn bytes_to_vec<const N: usize>(bytes: &[u8; N]) -> (v: Vec<u8>)
    ensures
        v@ == bytes@,
{
    let mut v: Vec<u8> = Vec::new();
    let mut i: usize = 0;
    while i < N
        invariant
            i <= N,
            bytes@.len() == N,
            v@ == bytes@.subrange(0, i as int),
        decreases N - i,
    {
        v.push(bytes[i]);
        i = i + 1;
        proof {
            assert(v@ =~= bytes@.subrange(0, i as int));
        }
    }
    proof {
        assert(v@ =~= bytes@);
    }
    v
}

} // verus!
