//! What holds of whole runs of `compute` instructions.
use vstd::prelude::*;

use vstd::bytes::{spec_u64_from_le_bytes, spec_u64_to_le_bytes};

use crate::state::VerifierState;
use crate::instructions::began_proof_computation;
use crate::state::{is_fq12_one, lemma_fq12_one};
use crate::pda::{program_address_search, STORAGE_SEED, lemma_storage_seeds_are_hash_then_storage};
use crate::compute::{
    ComputeStep, step_of, Phase, phase_of, spec_begin_compute, spec_finish_compute, finish_compute_allowed,
    begin_compute_allowed, MERKLE_TREE_UPDATE_INSTRUCTIONS,
};

verus! {

/// The fields that hold what the transaction's instruction data and proof
/// brought in, equal in `s` and `t`.
pub open spec fn same_instruction_data(s: VerifierState, t: VerifierState) -> bool {
    &&& t.signing_address == s.signing_address
    &&& t.root_hash == s.root_hash
    &&& t.amount == s.amount
    &&& t.merkle_tree_index == s.merkle_tree_index
    &&& t.relayer_fee == s.relayer_fee
    &&& t.recipient == s.recipient
    &&& t.tx_integrity_hash == s.tx_integrity_hash
    &&& t.ext_amount == s.ext_amount
    &&& t.fee == s.fee
    &&& t.leaf_left == s.leaf_left
    &&& t.leaf_right == s.leaf_right
    &&& t.nullifier0 == s.nullifier0
    &&& t.nullifier1 == s.nullifier1
    &&& t.encrypted_utxos == s.encrypted_utxos
    &&& t.proof_a_bytes == s.proof_a_bytes
    &&& t.proof_b_bytes == s.proof_b_bytes
    &&& t.proof_c_bytes == s.proof_c_bytes
}

/// The state after a whole `compute` instruction on `s` whose work left the
/// state as it was (as the Merkle tree program's work does).
pub open spec fn compute_round(s: VerifierState) -> VerifierState {
    spec_finish_compute(spec_begin_compute(s), phase_of(s))
}

/// The state after `n` such `compute` instructions.
pub open spec fn compute_rounds(s: VerifierState, n: nat) -> VerifierState
    decreases n,
{
    if n == 0 {
        s
    } else {
        compute_rounds(compute_round(s), (n - 1) as nat)
    }
}

/// A `compute` instruction never changes the instruction data or the proof,
/// and counts itself: `current_instruction_index` goes up by exactly one.
pub proof fn lemma_compute_keeps_data_and_counts(s: VerifierState)
    requires
        begin_compute_allowed(s),
        finish_compute_allowed(spec_begin_compute(s), phase_of(s)),
    ensures
        same_instruction_data(s, spec_begin_compute(s)),
        same_instruction_data(s, compute_round(s)),
        compute_round(s).current_instruction_index == s.current_instruction_index + 1,
{
}

/// The phase of a state is only changed by the work of a step, never by the
/// scheduling around it, except at the end of the Merkle tree update.
pub proof fn lemma_compute_keeps_phase(s: VerifierState)
    requires
        begin_compute_allowed(s),
        finish_compute_allowed(spec_begin_compute(s), phase_of(s)),
    ensures
        phase_of(spec_begin_compute(s)) == phase_of(s),
        phase_of(s) != Phase::MerkleTreeUpdate ==> phase_of(compute_round(s)) == phase_of(s),
{
}

/// The final exponentiation is initialised only once: on a state that has been
/// through it, the start of a `compute` instruction changes nothing.
pub proof fn lemma_final_exponentiation_initialised_once(s: VerifierState)
    requires
        phase_of(s) == Phase::FinalExponentiation,
        begin_compute_allowed(s),
    ensures
        spec_begin_compute(s).computing_final_exponentiation,
        phase_of(spec_begin_compute(s)) == Phase::FinalExponentiation,
        spec_begin_compute(spec_begin_compute(s)) == spec_begin_compute(s),
        !s.computing_final_exponentiation ==> {
            &&& is_fq12_one(spec_begin_compute(s).f_bytes2@)
            &&& is_fq12_one(spec_begin_compute(s).f_bytes3@)
            &&& is_fq12_one(spec_begin_compute(s).f_bytes4@)
            &&& is_fq12_one(spec_begin_compute(s).f_bytes5@)
            &&& is_fq12_one(spec_begin_compute(s).i_bytes@)
        },
{
    lemma_fq12_one();
}

/// Each `compute` instruction runs exactly one step, the one of the state's
/// phase: the prepared-inputs step (on the current instruction and input
/// positions) when that flag is set, else the Miller loop step when its flag
/// is set, else the Merkle tree step when its flag is set, else the final
/// exponentiation step. Whatever state that step's work leaves, finishing
/// the instruction counts it: the instruction counter goes up by exactly one.
pub proof fn lemma_one_step_per_compute(
    s: VerifierState,
    bump: u64,
    program_id: Seq<u8>,
    step: ComputeStep,
    left: VerifierState,
)
    requires
        step_of(s, bump, program_id, step),
        finish_compute_allowed(left, step.spec_phase()),
    ensures
        step.spec_phase() == phase_of(s),
        s.computing_prepared_inputs <==> step is PreparedInputs,
        !s.computing_prepared_inputs && s.computing_miller_loop <==> step is MillerLoop,
        !s.computing_prepared_inputs && !s.computing_miller_loop && s.updating_merkle_tree
            <==> step is MerkleTreeUpdate,
        !s.computing_prepared_inputs && !s.computing_miller_loop && !s.updating_merkle_tree
            <==> step is FinalExponentiation,
        step matches ComputeStep::PreparedInputs { instruction_index, current_index }
            ==> instruction_index == s.current_instruction_index && current_index == s.current_index,
        spec_finish_compute(left, step.spec_phase()).current_instruction_index
            == left.current_instruction_index + 1,
{
}

/// The Merkle tree update takes exactly `MERKLE_TREE_UPDATE_INSTRUCTIONS`
/// instructions: from a state in the update with `k` instructions done, the
/// next `74 - k - 1` instructions stay in the update and the one after ends
/// it, marks the state as ready for the last transaction and moves it on to
/// the final exponentiation phase. Each instruction is counted, wherever the
/// instruction counter has room for them.
pub proof fn lemma_merkle_tree_update_length(s: VerifierState, n: nat)
    requires
        phase_of(s) == Phase::MerkleTreeUpdate,
        s.merkle_tree_instruction_index < MERKLE_TREE_UPDATE_INSTRUCTIONS,
        n <= MERKLE_TREE_UPDATE_INSTRUCTIONS - s.merkle_tree_instruction_index,
    ensures
        compute_rounds(s, n).merkle_tree_instruction_index == s.merkle_tree_instruction_index + n,
        s.current_instruction_index + n <= u64::MAX
            ==> compute_rounds(s, n).current_instruction_index == s.current_instruction_index + n,
        same_instruction_data(s, compute_rounds(s, n)),
        n < MERKLE_TREE_UPDATE_INSTRUCTIONS - s.merkle_tree_instruction_index ==> {
            &&& phase_of(compute_rounds(s, n)) == Phase::MerkleTreeUpdate
            &&& compute_rounds(s, n).last_transaction == s.last_transaction
        },
        n == MERKLE_TREE_UPDATE_INSTRUCTIONS - s.merkle_tree_instruction_index ==> {
            &&& phase_of(compute_rounds(s, n)) == Phase::FinalExponentiation
            &&& !compute_rounds(s, n).updating_merkle_tree
            &&& compute_rounds(s, n).last_transaction
        },
    decreases n,
{
    if n > 0 {
        let t = compute_round(s);
        assert(spec_begin_compute(s) == s);
        if s.merkle_tree_instruction_index + 1 == MERKLE_TREE_UPDATE_INSTRUCTIONS {
            assert(n == 1);
            assert(compute_rounds(t, 0) == t);
        } else {
            lemma_merkle_tree_update_length(t, (n - 1) as nat);
        }
    }
}

/// A verification starts with the preparation of the public inputs, at the
/// first instruction, with the instruction data it was created with.
pub proof fn lemma_verification_starts_with_prepared_inputs(
    s: VerifierState,
    t: VerifierState,
    proof: Seq<u8>,
    r_bytes: [u8; 192],
)
    requires
        began_proof_computation(s, t, proof, r_bytes),
    ensures
        phase_of(t) == Phase::PreparedInputs,
        t.current_instruction_index == 1,
        t.current_index == 1,
        t.root_hash == s.root_hash,
        t.tx_integrity_hash == s.tx_integrity_hash,
        t.nullifier0 == s.nullifier0,
        t.nullifier1 == s.nullifier1,
        t.leaf_left == s.leaf_left,
        t.leaf_right == s.leaf_right,
        t.relayer_fee == s.relayer_fee,
{
}

/// The data of a Merkle tree update instruction reads back, as a
/// little-endian `u64`, as the bump argument it was made from.
pub proof fn lemma_merkle_step_data_reads_back(bump: u64)
    ensures
        spec_u64_to_le_bytes(bump).len() == 8,
        spec_u64_from_le_bytes(spec_u64_to_le_bytes(bump)) == bump,
{
    vstd::bytes::lemma_auto_spec_u64_to_from_le_bytes();
}

/// The Merkle tree step of a `compute` instruction signs for the verifier
/// state's own address: its signer seeds are the state's integrity hash, byte
/// for byte, the storage seed, and the bump seed found for exactly those two
/// seeds; its data is the instruction's bump argument in little-endian bytes.
pub proof fn lemma_merkle_step_signs_for_state_address(
    s: VerifierState,
    bump: u64,
    program_id: Seq<u8>,
    step: ComputeStep,
)
    requires
        step_of(s, bump, program_id, step),
        !s.computing_prepared_inputs,
        !s.computing_miller_loop,
        s.updating_merkle_tree,
    ensures
        program_address_search(seq![s.tx_integrity_hash@, STORAGE_SEED@], program_id) matches Some((_, b))
            && step matches ComputeStep::MerkleTreeUpdate { data, signer_seeds } && {
                &&& signer_seeds.deep_view().len() == 3
                &&& signer_seeds.deep_view()[0] == s.tx_integrity_hash@
                &&& signer_seeds.deep_view()[1] == STORAGE_SEED@
                &&& signer_seeds.deep_view()[2] == seq![b]
                &&& spec_u64_from_le_bytes(data@) == bump
            },
{
    lemma_storage_seeds_are_hash_then_storage(s.tx_integrity_hash@, program_id);
    vstd::bytes::lemma_auto_spec_u64_to_from_le_bytes();
}

/// In the final exponentiation phase the step handed out is the first one,
/// on which the conjugate of `f` is to be taken, exactly when the final
/// exponentiation has not been started yet, whatever the counters say.
pub proof fn lemma_final_exponentiation_first_exactly_when_not_started(
    s: VerifierState,
    bump: u64,
    program_id: Seq<u8>,
    step: ComputeStep,
)
    requires
        step_of(s, bump, program_id, step),
        !s.computing_prepared_inputs,
        !s.computing_miller_loop,
        !s.updating_merkle_tree,
    ensures
        step matches ComputeStep::FinalExponentiation { first } && first == !s.computing_final_exponentiation,
{
}

/// Finishing a prepared-inputs step always moves on to the next input, and
/// counts the instruction.
pub proof fn lemma_prepared_inputs_step_moves_to_next_input(s: VerifierState)
    requires
        s.current_index < u64::MAX,
        s.current_instruction_index < u64::MAX,
    ensures
        spec_finish_compute(s, Phase::PreparedInputs).current_index == s.current_index + 1,
        spec_finish_compute(s, Phase::PreparedInputs).current_instruction_index == s.current_instruction_index + 1,
{
}

/// Finishing any step but a Merkle tree step changes nothing but the
/// counters: the instruction counter, and for a prepared-inputs step the
/// input position. In particular no phase flag changes, so the next
/// instruction's phase is decided by the step's own work alone.
pub proof fn lemma_finish_outside_merkle_changes_only_counters(s: VerifierState, phase: Phase)
    requires
        phase != Phase::MerkleTreeUpdate,
    ensures
        spec_finish_compute(s, phase) == (VerifierState {
            current_instruction_index: (s.current_instruction_index + 1) as u64,
            current_index: spec_finish_compute(s, phase).current_index,
            ..s
        }),
        phase != Phase::PreparedInputs ==> spec_finish_compute(s, phase).current_index == s.current_index,
        spec_finish_compute(s, phase).computing_prepared_inputs == s.computing_prepared_inputs,
        spec_finish_compute(s, phase).computing_miller_loop == s.computing_miller_loop,
        spec_finish_compute(s, phase).updating_merkle_tree == s.updating_merkle_tree,
        spec_finish_compute(s, phase).computing_final_exponentiation == s.computing_final_exponentiation,
        spec_finish_compute(s, phase).last_transaction == s.last_transaction,
        phase_of(spec_finish_compute(s, phase)) == phase_of(s),
{
}

/// Starting a `compute` instruction changes only the fields named for its
/// phase: nothing for prepared inputs and Merkle tree steps, only the budget
/// for a Miller loop step, and only the initialisation fields when the final
/// exponentiation starts. The Miller loop accumulator `f_bytes` and
/// `f_bytes1` are never touched.
pub proof fn lemma_begin_changes_only_phase_fields(s: VerifierState)
    ensures
        spec_begin_compute(s).f_bytes == s.f_bytes,
        spec_begin_compute(s).f_bytes1 == s.f_bytes1,
        s.computing_prepared_inputs ==> spec_begin_compute(s) == s,
        !s.computing_prepared_inputs && s.computing_miller_loop
            ==> spec_begin_compute(s) == (VerifierState { max_compute: 1_300_000, ..s }),
        !s.computing_prepared_inputs && !s.computing_miller_loop && s.updating_merkle_tree
            ==> spec_begin_compute(s) == s,
        s.computing_final_exponentiation ==> spec_begin_compute(s) == (VerifierState {
            max_compute: spec_begin_compute(s).max_compute,
            ..s
        }),
{
}

} // verus!
