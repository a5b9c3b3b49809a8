use vstd::prelude::*;
use vstd::bytes::{spec_u64_to_le_bytes, u64_to_le_bytes};

use crate::state::{VerifierState, fq12_one, fq12_one_bytes, is_fq12_one};
use crate::pda::{find_storage_bump, signer_seeds, storage_bump, spec_signer_seeds, program_address_search, STORAGE_SEED, lemma_storage_seeds_are_hash_then_storage};

verus! {

/// Compute budget set for a step of the Miller loop.
pub const MILLER_LOOP_MAX_COMPUTE: u64 = 1_300_000;

/// Compute budget set for a step of the final exponentiation.
pub const FINAL_EXPONENTIATION_MAX_COMPUTE: u64 = 1_200_000;

/// Compute charged for packing the initialised values of the final exponentiation.
pub const FINAL_EXPONENTIATION_INIT_COMPUTE: u64 = 150_000;

/// Number of instructions that the Merkle tree update takes.
pub const MERKLE_TREE_UPDATE_INSTRUCTIONS: u64 = 74;

/// The piece of the verification that a `compute` instruction works on.
#[derive(PartialEq, Eq, Structural, Debug, Clone, Copy)]
pub enum Phase {
    PreparedInputs,
    MillerLoop,
    MerkleTreeUpdate,
    FinalExponentiation,
}

/// Which phase a state is in: the first of the prepared inputs, the Miller
/// loop and the Merkle tree update whose flag is set, and otherwise the final
/// exponentiation.
pub open spec fn phase_of(s: VerifierState) -> Phase {
    if s.computing_prepared_inputs {
        Phase::PreparedInputs
    } else if s.computing_miller_loop {
        Phase::MillerLoop
    } else if s.updating_merkle_tree {
        Phase::MerkleTreeUpdate
    } else {
        Phase::FinalExponentiation
    }
}

impl VerifierState {
    /// The phase that the next `compute` instruction works on.
    pub fn phase(&self) -> (p: Phase)
        ensures
            p == phase_of(*self),
    {
        if self.computing_prepared_inputs {
            Phase::PreparedInputs
        } else if self.computing_miller_loop {
            Phase::MillerLoop
        } else if self.updating_merkle_tree {
            Phase::MerkleTreeUpdate
        } else {
            Phase::FinalExponentiation
        }
    }
}

/// The work that a `compute` instruction hands to the proof arithmetic or to
/// the Merkle tree program.
pub enum ComputeStep {
    /// One step of preparing the public inputs: the instruction at position
    /// `instruction_index` of the instruction order, on the input at position
    /// `current_index` of the index table.
    PreparedInputs { instruction_index: u64, current_index: u64 },
    /// One step of the Miller loop.
    MillerLoop,
    /// One instruction of the Merkle tree update, sent with `data` and signed
    /// with `signer_seeds`.
    MerkleTreeUpdate { data: Vec<u8>, signer_seeds: Vec<Vec<u8>> },
    /// One step of the final exponentiation; `first` is set on the step that
    /// initialised it, before which `f_bytes1` is to hold the conjugate of
    /// `f_bytes`.
    FinalExponentiation { first: bool },
}

/// Why a `compute` instruction could not be carried out.
#[derive(PartialEq, Eq, Structural, Debug, Clone, Copy)]
pub enum ComputeError {
    /// No bump seed gives the verifier state's program address.
    NoViableBumpSeed,
}

impl ComputeStep {
    /// The phase that this step belongs to.
    pub open spec fn spec_phase(&self) -> Phase {
        match self {
            ComputeStep::PreparedInputs { .. } => Phase::PreparedInputs,
            ComputeStep::MillerLoop => Phase::MillerLoop,
            ComputeStep::MerkleTreeUpdate { .. } => Phase::MerkleTreeUpdate,
            ComputeStep::FinalExponentiation { .. } => Phase::FinalExponentiation,
        }
    }

    /// The phase that this step belongs to.
    pub fn phase(&self) -> (p: Phase)
        ensures
            p == self.spec_phase(),
    {
        match self {
            ComputeStep::PreparedInputs { .. } => Phase::PreparedInputs,
            ComputeStep::MillerLoop => Phase::MillerLoop,
            ComputeStep::MerkleTreeUpdate { .. } => Phase::MerkleTreeUpdate,
            ComputeStep::FinalExponentiation { .. } => Phase::FinalExponentiation,
        }
    }
}

/// The state once the final exponentiation has been initialised: the
/// temporary values `f_bytes2` to `f_bytes5` and `i_bytes` start as the
/// serialized unit of Fq12 (byte 1 followed by 383 zeros), the first outer
/// loop iteration is skipped, and the compute budget and counter are set.
pub open spec fn spec_init_final_exponentiation(s: VerifierState) -> VerifierState {
    VerifierState {
        computing_final_exponentiation: true,
        f_bytes2: fq12_one(),
        f_bytes3: fq12_one(),
        f_bytes4: fq12_one(),
        f_bytes5: fq12_one(),
        i_bytes: fq12_one(),
        outer_loop: 1,
        max_compute: FINAL_EXPONENTIATION_MAX_COMPUTE,
        current_compute: (s.current_compute + FINAL_EXPONENTIATION_INIT_COMPUTE) as u64,
        ..s
    }
}

/// The state when the work of a `compute` instruction starts.
pub open spec fn spec_begin_compute(s: VerifierState) -> VerifierState {
    match phase_of(s) {
        Phase::MillerLoop => VerifierState { max_compute: MILLER_LOOP_MAX_COMPUTE, ..s },
        Phase::FinalExponentiation => if s.computing_final_exponentiation {
            s
        } else {
            spec_init_final_exponentiation(s)
        },
        _ => s,
    }
}

/// What `begin_compute` needs of the state: room for the compute counter.
pub open spec fn begin_compute_allowed(s: VerifierState) -> bool {
    phase_of(s) == Phase::FinalExponentiation && !s.computing_final_exponentiation
        ==> s.current_compute + FINAL_EXPONENTIATION_INIT_COMPUTE <= u64::MAX
}

/// The step that `begin_compute` hands out on state `s` with instruction
/// argument `bump`.
pub open spec fn step_of(s: VerifierState, bump: u64, program_id: Seq<u8>, step: ComputeStep) -> bool {
    match phase_of(s) {
        Phase::PreparedInputs => step == (ComputeStep::PreparedInputs {
            instruction_index: s.current_instruction_index,
            current_index: s.current_index,
        }),
        Phase::MillerLoop => step == ComputeStep::MillerLoop,
        Phase::MerkleTreeUpdate => match step {
            ComputeStep::MerkleTreeUpdate { data, signer_seeds } => {
                &&& data@ == spec_u64_to_le_bytes(bump)
                &&& storage_bump(s.tx_integrity_hash@, program_id) matches Some(b)
                &&& signer_seeds.deep_view() == spec_signer_seeds(s.tx_integrity_hash@, b)
            },
            _ => false,
        },
        Phase::FinalExponentiation => step == (ComputeStep::FinalExponentiation {
            first: !s.computing_final_exponentiation,
        }),
    }
}

/// The step of the Merkle tree update phase, given the bump seed `found_bump`
/// found for the verifier state's address: the instruction data is `bump` in
/// little-endian bytes and the program signs with the address's seeds and the
/// found bump seed; where none was found, the instruction fails.
pub fn merkle_tree_update_step(tx_integrity_hash: &[u8; 32], bump: u64, found_bump: Option<u8>) -> (r: Result<ComputeStep, ComputeError>)
    ensures
        match found_bump {
            None => r == Err::<ComputeStep, ComputeError>(ComputeError::NoViableBumpSeed),
            Some(b) => r matches Ok(ComputeStep::MerkleTreeUpdate { data, signer_seeds }) && {
                &&& data@ == spec_u64_to_le_bytes(bump)
                &&& signer_seeds.deep_view() == spec_signer_seeds(tx_integrity_hash@, b)
                &&& signer_seeds.deep_view() == seq![tx_integrity_hash@, STORAGE_SEED@, seq![b]]
            },
        },
{
    match found_bump {
        Some(b) => {
            let data = u64_to_le_bytes(bump);
            let seeds = signer_seeds(tx_integrity_hash, b);
            Ok(ComputeStep::MerkleTreeUpdate { data, signer_seeds: seeds })
        },
        None => Err(ComputeError::NoViableBumpSeed),
    }
}

/// Starts a `compute` instruction: decides the phase, prepares the state for
/// it and returns the work to be done. In the Merkle tree phase the
/// instruction data is `bump` in little-endian bytes and the program signs
/// for the verifier state's address; where no bump seed gives that address
/// the instruction fails and the state is left as it was.
pub fn begin_compute(state: &mut VerifierState, bump: u64, program_id: &[u8; 32]) -> (r: Result<ComputeStep, ComputeError>)
    requires
        begin_compute_allowed(*old(state)),
    ensures
        match r {
            Ok(step) => {
                &&& step_of(*old(state), bump, program_id@, step)
                &&& step.spec_phase() == phase_of(*old(state))
                &&& step == (ComputeStep::FinalExponentiation { first: true }) ==> {
                    &&& is_fq12_one(final(state).f_bytes2@)
                    &&& is_fq12_one(final(state).f_bytes3@)
                    &&& is_fq12_one(final(state).f_bytes4@)
                    &&& is_fq12_one(final(state).f_bytes5@)
                    &&& is_fq12_one(final(state).i_bytes@)
                }
                &&& *final(state) == spec_begin_compute(*old(state))
            },
            Err(e) => {
                &&& e == ComputeError::NoViableBumpSeed
                &&& *final(state) == *old(state)
            },
        },
        r is Err <==> (phase_of(*old(state)) == Phase::MerkleTreeUpdate
            && storage_bump(old(state).tx_integrity_hash@, program_id@) is None),
        old(state).computing_prepared_inputs ==> {
            &&& *final(state) == *old(state)
            &&& r == Ok::<ComputeStep, ComputeError>(ComputeStep::PreparedInputs {
                instruction_index: old(state).current_instruction_index,
                current_index: old(state).current_index,
            })
        },
        !old(state).computing_prepared_inputs && old(state).computing_miller_loop ==> {
            &&& *final(state) == (VerifierState { max_compute: 1_300_000, ..*old(state) })
            &&& r == Ok::<ComputeStep, ComputeError>(ComputeStep::MillerLoop)
        },
        !old(state).computing_prepared_inputs && !old(state).computing_miller_loop
            && old(state).updating_merkle_tree ==> {
            &&& *final(state) == *old(state)
            &&& match program_address_search(seq![old(state).tx_integrity_hash@, STORAGE_SEED@], program_id@) {
                None => r == Err::<ComputeStep, ComputeError>(ComputeError::NoViableBumpSeed),
                Some((_, b)) => r matches Ok(ComputeStep::MerkleTreeUpdate { data, signer_seeds }) && {
                    &&& data@ == spec_u64_to_le_bytes(bump)
                    &&& signer_seeds.deep_view() == seq![old(state).tx_integrity_hash@, STORAGE_SEED@, seq![b]]
                },
            }
        },
        !old(state).computing_prepared_inputs && !old(state).computing_miller_loop
            && !old(state).updating_merkle_tree ==> {
            &&& r matches Ok(ComputeStep::FinalExponentiation { first }) && first == !old(state).computing_final_exponentiation
            &&& old(state).computing_final_exponentiation ==> *final(state) == *old(state)
            &&& !old(state).computing_final_exponentiation ==> {
                &&& *final(state) == (VerifierState {
                    computing_final_exponentiation: true,
                    f_bytes2: final(state).f_bytes2,
                    f_bytes3: final(state).f_bytes3,
                    f_bytes4: final(state).f_bytes4,
                    f_bytes5: final(state).f_bytes5,
                    i_bytes: final(state).i_bytes,
                    outer_loop: 1,
                    max_compute: 1_200_000,
                    current_compute: (old(state).current_compute + 150_000) as u64,
                    ..*old(state)
                })
                &&& is_fq12_one(final(state).f_bytes2@)
                &&& is_fq12_one(final(state).f_bytes3@)
                &&& is_fq12_one(final(state).f_bytes4@)
                &&& is_fq12_one(final(state).f_bytes5@)
                &&& is_fq12_one(final(state).i_bytes@)
            }
        },
        final(state).f_bytes == old(state).f_bytes,
        final(state).f_bytes1 == old(state).f_bytes1,
{
    if state.computing_prepared_inputs {
        Ok(ComputeStep::PreparedInputs {
            instruction_index: state.current_instruction_index,
            current_index: state.current_index,
        })
    } else if state.computing_miller_loop {
        state.max_compute = MILLER_LOOP_MAX_COMPUTE;
        Ok(ComputeStep::MillerLoop)
    } else if state.updating_merkle_tree {
        let found = find_storage_bump(&state.tx_integrity_hash, program_id);
        proof {
            lemma_storage_seeds_are_hash_then_storage(state.tx_integrity_hash@, program_id@);
        }
        merkle_tree_update_step(&state.tx_integrity_hash, bump, found)
    } else {
        let first = !state.computing_final_exponentiation;
        if first {
            state.computing_final_exponentiation = true;
            state.f_bytes2 = fq12_one_bytes();
            state.f_bytes3 = fq12_one_bytes();
            state.f_bytes4 = fq12_one_bytes();
            state.f_bytes5 = fq12_one_bytes();
            state.i_bytes = fq12_one_bytes();
            state.outer_loop = 1;
            state.max_compute = FINAL_EXPONENTIATION_MAX_COMPUTE;
            state.current_compute = state.current_compute + FINAL_EXPONENTIATION_INIT_COMPUTE;
        }
        Ok(ComputeStep::FinalExponentiation { first })
    }
}

/// The state once the work of a `compute` instruction of phase `phase` is
/// done: a prepared-inputs step moves to the next input; a Merkle tree step
/// counts the update instruction and, with the last of them, ends the update
/// and marks the state as ready for the last transaction; every step counts
/// the instruction.
pub open spec fn spec_finish_compute(s: VerifierState, phase: Phase) -> VerifierState {
    let t = match phase {
        Phase::PreparedInputs => VerifierState { current_index: (s.current_index + 1) as u64, ..s },
        Phase::MerkleTreeUpdate => {
            let done = (s.merkle_tree_instruction_index + 1) as u64;
            if done == MERKLE_TREE_UPDATE_INSTRUCTIONS {
                VerifierState {
                    merkle_tree_instruction_index: done,
                    last_transaction: true,
                    updating_merkle_tree: false,
                    ..s
                }
            } else {
                VerifierState { merkle_tree_instruction_index: done, ..s }
            }
        },
        _ => s,
    };
    VerifierState { current_instruction_index: (t.current_instruction_index + 1) as u64, ..t }
}

/// What `finish_compute` needs of the state: room in the counters it advances.
pub open spec fn finish_compute_allowed(s: VerifierState, phase: Phase) -> bool {
    &&& s.current_instruction_index < u64::MAX
    &&& phase == Phase::PreparedInputs ==> s.current_index < u64::MAX
    &&& phase == Phase::MerkleTreeUpdate ==> s.merkle_tree_instruction_index < u64::MAX
}

/// Ends a `compute` instruction whose step was of phase `phase`, once its work
/// is done.
pub fn finish_compute(state: &mut VerifierState, phase: Phase)
    requires
        finish_compute_allowed(*old(state), phase),
    ensures
        *final(state) == spec_finish_compute(*old(state), phase),
        final(state).current_instruction_index == old(state).current_instruction_index + 1,
        phase == Phase::PreparedInputs ==> *final(state) == (VerifierState {
            current_instruction_index: (old(state).current_instruction_index + 1) as u64,
            current_index: (old(state).current_index + 1) as u64,
            ..*old(state)
        }),
        phase == Phase::MillerLoop || phase == Phase::FinalExponentiation ==> *final(state) == (VerifierState {
            current_instruction_index: (old(state).current_instruction_index + 1) as u64,
            ..*old(state)
        }),
        phase == Phase::MerkleTreeUpdate ==> {
            &&& final(state).merkle_tree_instruction_index == old(state).merkle_tree_instruction_index + 1
            &&& old(state).merkle_tree_instruction_index + 1 == 74 ==> *final(state) == (VerifierState {
                current_instruction_index: (old(state).current_instruction_index + 1) as u64,
                merkle_tree_instruction_index: 74,
                last_transaction: true,
                updating_merkle_tree: false,
                ..*old(state)
            })
            &&& old(state).merkle_tree_instruction_index + 1 != 74 ==> *final(state) == (VerifierState {
                current_instruction_index: (old(state).current_instruction_index + 1) as u64,
                merkle_tree_instruction_index: (old(state).merkle_tree_instruction_index + 1) as u64,
                ..*old(state)
            })
        },
{
    match phase {
        Phase::PreparedInputs => {
            state.current_index = state.current_index + 1;
        },
        Phase::MerkleTreeUpdate => {
            state.merkle_tree_instruction_index = state.merkle_tree_instruction_index + 1;
            if state.merkle_tree_instruction_index == MERKLE_TREE_UPDATE_INSTRUCTIONS {
                state.last_transaction = true;
                state.updating_merkle_tree = false;
            }
        },
        _ => {},
    }
    state.current_instruction_index = state.current_instruction_index + 1;
}

} // verus!
