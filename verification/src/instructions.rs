//! The instruction data that a verification starts from, and the data handed
//! to the Merkle tree program.
use vstd::prelude::*;
use vstd::bytes::{spec_u64_from_le_bytes, spec_u64_to_le_bytes, u64_from_le_bytes};

use crate::state::{VerifierState, all_zero, fq12_one, fq12_one_bytes, is_fq12_one};
use crate::pda::bytes_to_vec;

verus! {

/// Byte length of a Groth16 proof: the points A (64 bytes), B (128 bytes) and
/// C (64 bytes).
pub const PROOF_BYTES: usize = 256;

/// Number of bytes of encrypted UTXOs that the state keeps.
pub const ENCRYPTED_UTXOS_BYTES: usize = 222;

/// Compute budget of a Miller loop step, set when the proof is stored.
pub const MAX_MILLER_LOOP_COMPUTE: u64 = 1_350_000;

/// Length of the data that starts a Merkle tree update: the transaction's
/// integrity hash, the two new leaves and the root hash, 32 bytes each.
pub const MERKLE_TREE_UPDATE_DATA_BYTES: usize = 128;

/// Copies `N` bytes of `src` from position `start` into an array.
pub fn take_bytes<const N: usize>(src: &[u8], start: usize) -> (out: [u8; N])
    requires
        start + N <= src@.len(),
    ensures
        out@ == src@.subrange(start as int, start + N),
{
    let mut out = [0u8; N];
    let len = src.len();
    let mut i: usize = 0;
    while i < N
        invariant
            i <= N,
            len == src@.len(),
            start + N <= src@.len(),
            out@.len() == N,
            forall|j: int| 0 <= j < i ==> out@[j] == src@[start + j],
        decreases N - i,
    {
        out[i] = src[start + i];
        i = i + 1;
    }
    assert(out@ =~= src@.subrange(start as int, start + N));
    out
}

/// A state that holds the instruction data of a new verification: the
/// signer, the root hash, the amounts, the integrity hash, the nullifiers,
/// the new leaves, the recipient, the fee (also read as a little-endian
/// `u64` relayer fee), the first 222 bytes of the encrypted UTXOs and the
/// Merkle tree index. Every other field is zero.
pub fn create_verifier_state(
    signing_address: [u8; 32],
    root_hash: [u8; 32],
    amount: [u8; 32],
    tx_integrity_hash: [u8; 32],
    nullifier0: [u8; 32],
    nullifier1: [u8; 32],
    leaf_right: [u8; 32],
    leaf_left: [u8; 32],
    recipient: [u8; 32],
    ext_amount: [u8; 8],
    fee: [u8; 8],
    encrypted_utxos: &[u8; 256],
    merkle_tree_index: [u8; 1],
) -> (s: VerifierState)
    ensures
        s.signing_address == signing_address,
        s.root_hash == root_hash,
        s.amount == amount,
        s.tx_integrity_hash == tx_integrity_hash,
        s.nullifier0 == nullifier0,
        s.nullifier1 == nullifier1,
        s.leaf_right == leaf_right,
        s.leaf_left == leaf_left,
        s.recipient == recipient,
        s.ext_amount == ext_amount,
        s.fee == fee,
        s.relayer_fee == spec_u64_from_le_bytes(fee@),
        s.encrypted_utxos@ == encrypted_utxos@.subrange(0, ENCRYPTED_UTXOS_BYTES as int),
        s.merkle_tree_index == merkle_tree_index[0],
        all_zero(s.proof_a_bytes@),
        all_zero(s.proof_b_bytes@),
        all_zero(s.proof_c_bytes@),
        s.computation_zeroed(),
        spec_u64_to_le_bytes(s.relayer_fee) == fee@,
{
    let mut s = VerifierState::zeroed();
    s.signing_address = signing_address;
    s.root_hash = root_hash;
    s.amount = amount;
    s.merkle_tree_index = merkle_tree_index[0];
    s.relayer_fee = u64_from_le_bytes(fee.as_slice());
    s.recipient = recipient;
    s.tx_integrity_hash = tx_integrity_hash;
    s.ext_amount = ext_amount;
    s.fee = fee;
    s.leaf_left = leaf_left;
    s.leaf_right = leaf_right;
    s.nullifier0 = nullifier0;
    s.nullifier1 = nullifier1;
    s.encrypted_utxos = take_bytes(encrypted_utxos.as_slice(), 0);
    proof {
        vstd::bytes::lemma_auto_spec_u64_to_from_le_bytes();
    }
    s
}

/// `t` is `s` once the proof is stored and the preparation of the public
/// inputs is under way: the first input has been taken in, the proof is split
/// into its points A, B and C, the Miller loop's budget is set, the Miller
/// loop's accumulator `f` starts as the serialized unit of Fq12 (byte 1
/// followed by 383 zeros), and `r`
/// holds the point B in projective form, as `r_bytes` gives it.
pub open spec fn began_proof_computation(s: VerifierState, t: VerifierState, proof: Seq<u8>, r_bytes: [u8; 192]) -> bool {
    &&& t.proof_a_bytes@ == proof.subrange(0, 64)
    &&& t.proof_b_bytes@ == proof.subrange(64, 192)
    &&& t.proof_c_bytes@ == proof.subrange(192, 256)
    &&& t == (VerifierState {
        current_index: 1,
        current_instruction_index: 1,
        computing_prepared_inputs: true,
        proof_a_bytes: t.proof_a_bytes,
        proof_b_bytes: t.proof_b_bytes,
        proof_c_bytes: t.proof_c_bytes,
        compute_max_miller_loop: MAX_MILLER_LOOP_COMPUTE,
        f_bytes: fq12_one(),
        r_bytes: r_bytes,
        ..s
    })
}

/// Stores the proof and starts the preparation of the public inputs, once
/// its first input has been taken in. `r_bytes` is the point B of the proof
/// with the z coordinate one, serialized.
pub fn begin_proof_computation(state: &mut VerifierState, proof: &[u8; 256], r_bytes: [u8; 192])
    ensures
        began_proof_computation(*old(state), *final(state), proof@, r_bytes),
        is_fq12_one(final(state).f_bytes@),
        final(state).proof_a_bytes@ == proof@.subrange(0, 64),
        final(state).proof_b_bytes@ == proof@.subrange(64, 192),
        final(state).proof_c_bytes@ == proof@.subrange(192, 256),
        *final(state) == (VerifierState {
            current_index: 1,
            current_instruction_index: 1,
            computing_prepared_inputs: true,
            proof_a_bytes: final(state).proof_a_bytes,
            proof_b_bytes: final(state).proof_b_bytes,
            proof_c_bytes: final(state).proof_c_bytes,
            compute_max_miller_loop: 1_350_000,
            f_bytes: final(state).f_bytes,
            r_bytes: r_bytes,
            ..*old(state)
        }),
        final(state).proof_a_bytes@ + final(state).proof_b_bytes@ + final(state).proof_c_bytes@ == proof@,
{
    state.current_index = 1;
    state.current_instruction_index = 1;
    state.computing_prepared_inputs = true;
    state.proof_a_bytes = take_bytes(proof.as_slice(), 0);
    state.proof_b_bytes = take_bytes(proof.as_slice(), 64);
    state.proof_c_bytes = take_bytes(proof.as_slice(), 192);
    state.compute_max_miller_loop = MAX_MILLER_LOOP_COMPUTE;
    state.f_bytes = fq12_one_bytes();
    state.r_bytes = r_bytes;
    proof {
        assert(proof@.subrange(0, 64) + proof@.subrange(64, 192) + proof@.subrange(192, 256) =~= proof@);
    }
}

/// The data that starts the Merkle tree update of a verified transaction.
pub open spec fn spec_merkle_tree_update_data(s: VerifierState) -> Seq<u8> {
    s.tx_integrity_hash@ + s.leaf_left@ + s.leaf_right@ + s.root_hash@
}

/// The data that starts the Merkle tree update: the integrity hash, the left
/// leaf, the right leaf and the root hash, one after another. Each can be
/// read back at its 32-byte offset.
pub fn merkle_tree_update_data(state: &VerifierState) -> (data: Vec<u8>)
    ensures
        data@ == spec_merkle_tree_update_data(*state),
        data@.len() == MERKLE_TREE_UPDATE_DATA_BYTES,
        data@.subrange(0, 32) == state.tx_integrity_hash@,
        data@.subrange(32, 64) == state.leaf_left@,
        data@.subrange(64, 96) == state.leaf_right@,
        data@.subrange(96, 128) == state.root_hash@,
{
    let mut data = bytes_to_vec(&state.tx_integrity_hash);
    let mut left = bytes_to_vec(&state.leaf_left);
    let mut right = bytes_to_vec(&state.leaf_right);
    let mut root = bytes_to_vec(&state.root_hash);
    data.append(&mut left);
    data.append(&mut right);
    data.append(&mut root);
    proof {
        let d = spec_merkle_tree_update_data(*state);
        assert(d.subrange(0, 32) =~= state.tx_integrity_hash@);
        assert(d.subrange(32, 64) =~= state.leaf_left@);
        assert(d.subrange(64, 96) =~= state.leaf_right@);
        assert(d.subrange(96, 128) =~= state.root_hash@);
    }
    data
}

} // verus!
