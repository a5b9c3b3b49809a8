use vstd::prelude::*;
use vstd::array::{spec_array_fill_for_copy_type, spec_array_update};

verus! {

/// Everything that the verification of one transaction keeps between
/// instructions. Cryptographic intermediate values are held as bytes;
/// account keys are held as their 32 bytes.
pub struct VerifierState {
    pub signing_address: [u8; 32],
    pub root_hash: [u8; 32],
    pub amount: [u8; 32],
    pub merkle_tree_index: u8,
    pub relayer_fee: u64,
    pub recipient: [u8; 32],
    pub tx_integrity_hash: [u8; 32],
    pub ext_amount: [u8; 8],
    pub fee: [u8; 8],
    pub leaf_left: [u8; 32],
    pub leaf_right: [u8; 32],
    pub nullifier0: [u8; 32],
    pub nullifier1: [u8; 32],
    pub encrypted_utxos: [u8; 222],
    pub current_index: u64,
    pub current_instruction_index: u64,
    pub computing_prepared_inputs: bool,
    pub computing_miller_loop: bool,
    pub updating_merkle_tree: bool,
    pub computing_final_exponentiation: bool,
    pub last_transaction: bool,
    pub merkle_tree_instruction_index: u64,
    pub proof_a_bytes: [u8; 64],
    pub proof_b_bytes: [u8; 128],
    pub proof_c_bytes: [u8; 64],
    pub compute_max_miller_loop: u64,
    pub max_compute: u64,
    pub current_compute: u64,
    pub outer_loop: u64,
    pub f_bytes: [u8; 384],
    pub f_bytes1: [u8; 384],
    pub f_bytes2: [u8; 384],
    pub f_bytes3: [u8; 384],
    pub f_bytes4: [u8; 384],
    pub f_bytes5: [u8; 384],
    pub i_bytes: [u8; 384],
    pub r_bytes: [u8; 192],
}

/// Byte length of a serialized element of Fq12.
pub const FQ12_BYTES: usize = 384;

/// The serialized unit of Fq12: byte 1 followed by 383 zero bytes.
pub open spec fn fq12_one() -> [u8; 384] {
    spec_array_update(spec_array_fill_for_copy_type::<u8, 384>(0u8), 0, 1u8)
}

/// `b` is the serialized unit of Fq12: byte 1 followed by 383 zero bytes.
pub open spec fn is_fq12_one(b: Seq<u8>) -> bool {
    &&& b.len() == FQ12_BYTES
    &&& b[0] == 1u8
    &&& forall|i: int| 1 <= i < FQ12_BYTES ==> b[i] == 0u8
}

/// `fq12_one()` holds byte 1 followed by 383 zero bytes.
pub proof fn lemma_fq12_one()
    ensures
        is_fq12_one(fq12_one()@),
        fq12_one()@ == seq![1u8] + Seq::new(383, |i: int| 0u8),
{
    broadcast use vstd::array::axiom_spec_array_fill_for_copy_type, vstd::array::axiom_spec_array_update;
    let z = spec_array_fill_for_copy_type::<u8, 384>(0u8);
    assert(z@.len() == 384);
    assert(forall|i: int| 0 <= i < 384 ==> z@[i] == 0u8);
    assert(fq12_one()@ =~= seq![1u8] + Seq::new(383, |i: int| 0u8));
}

/// The serialized unit of Fq12.
pub fn fq12_one_bytes() -> (b: [u8; 384])
    ensures
        b == fq12_one(),
        is_fq12_one(b@),
{
    let mut b = [0u8; 384];
    b[0] = 1;
    proof {
        lemma_fq12_one();
    }
    b
}

/// Every byte of `s` is zero.
pub open spec fn all_zero(s: Seq<u8>) -> bool {
    forall|i: int| 0 <= i < s.len() ==> s[i] == 0u8
}

impl VerifierState {
    /// The fields that the instruction data and the proof fill are all zero.
    pub open spec fn instruction_data_zeroed(self) -> bool {
        &&& all_zero(self.signing_address@)
        &&& all_zero(self.root_hash@)
        &&& all_zero(self.amount@)
        &&& self.merkle_tree_index == 0
        &&& self.relayer_fee == 0
        &&& all_zero(self.recipient@)
        &&& all_zero(self.tx_integrity_hash@)
        &&& all_zero(self.ext_amount@)
        &&& all_zero(self.fee@)
        &&& all_zero(self.leaf_left@)
        &&& all_zero(self.leaf_right@)
        &&& all_zero(self.nullifier0@)
        &&& all_zero(self.nullifier1@)
        &&& all_zero(self.encrypted_utxos@)
        &&& all_zero(self.proof_a_bytes@)
        &&& all_zero(self.proof_b_bytes@)
        &&& all_zero(self.proof_c_bytes@)
    }

    /// The fields that the computation works in are all zero or `false`.
    pub open spec fn computation_zeroed(self) -> bool {
        &&& self.current_index == 0
        &&& self.current_instruction_index == 0
        &&& !self.computing_prepared_inputs
        &&& !self.computing_miller_loop
        &&& !self.updating_merkle_tree
        &&& !self.computing_final_exponentiation
        &&& !self.last_transaction
        &&& self.merkle_tree_instruction_index == 0
        &&& self.compute_max_miller_loop == 0
        &&& self.max_compute == 0
        &&& self.current_compute == 0
        &&& self.outer_loop == 0
        &&& all_zero(self.f_bytes@)
        &&& all_zero(self.f_bytes1@)
        &&& all_zero(self.f_bytes2@)
        &&& all_zero(self.f_bytes3@)
        &&& all_zero(self.f_bytes4@)
        &&& all_zero(self.f_bytes5@)
        &&& all_zero(self.i_bytes@)
        &&& all_zero(self.r_bytes@)
    }

    /// The state of a freshly created account: every field zero or `false`.
    pub open spec fn is_zeroed(self) -> bool {
        self.instruction_data_zeroed() && self.computation_zeroed()
    }

    /// A state with every field zero, as an account is before it is first written.
    pub fn zeroed() -> (s: VerifierState)
        ensures
            s.is_zeroed(),
    {
        VerifierState {
            signing_address: [0u8; 32],
            root_hash: [0u8; 32],
            amount: [0u8; 32],
            merkle_tree_index: 0,
            relayer_fee: 0,
            recipient: [0u8; 32],
            tx_integrity_hash: [0u8; 32],
            ext_amount: [0u8; 8],
            fee: [0u8; 8],
            leaf_left: [0u8; 32],
            leaf_right: [0u8; 32],
            nullifier0: [0u8; 32],
            nullifier1: [0u8; 32],
            encrypted_utxos: [0u8; 222],
            current_index: 0,
            current_instruction_index: 0,
            computing_prepared_inputs: false,
            computing_miller_loop: false,
            updating_merkle_tree: false,
            computing_final_exponentiation: false,
            last_transaction: false,
            merkle_tree_instruction_index: 0,
            proof_a_bytes: [0u8; 64],
            proof_b_bytes: [0u8; 128],
            proof_c_bytes: [0u8; 64],
            compute_max_miller_loop: 0,
            max_compute: 0,
            current_compute: 0,
            outer_loop: 0,
            f_bytes: [0u8; 384],
            f_bytes1: [0u8; 384],
            f_bytes2: [0u8; 384],
            f_bytes3: [0u8; 384],
            f_bytes4: [0u8; 384],
            f_bytes5: [0u8; 384],
            i_bytes: [0u8; 384],
            r_bytes: [0u8; 192],
        }
    }
}

} // verus!
