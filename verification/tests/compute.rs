use solana_program::pubkey::Pubkey;
use verifier_program::compute::{
    begin_compute, finish_compute, merkle_tree_update_step, ComputeError, ComputeStep, Phase, FINAL_EXPONENTIATION_INIT_COMPUTE,
    FINAL_EXPONENTIATION_MAX_COMPUTE, MERKLE_TREE_UPDATE_INSTRUCTIONS, MILLER_LOOP_MAX_COMPUTE,
};
use verifier_program::instructions::{begin_proof_computation, create_verifier_state, merkle_tree_update_data};
use verifier_program::pda::{find_storage_bump, signer_seeds, storage_seeds, STORAGE_SEED};
use verifier_program::state::{fq12_one_bytes, VerifierState};

fn sample_state() -> VerifierState {
    let mut utxos = [0u8; 256];
    for (i, b) in utxos.iter_mut().enumerate() {
        *b = i as u8;
    }
    create_verifier_state(
        [1u8; 32],
        [2u8; 32],
        [3u8; 32],
        [4u8; 32],
        [5u8; 32],
        [6u8; 32],
        [7u8; 32],
        [8u8; 32],
        [9u8; 32],
        [10, 0, 0, 0, 0, 0, 0, 0],
        [0x10, 0x27, 0, 0, 0, 0, 0, 0],
        &utxos,
        [3],
    )
}

fn program_id() -> [u8; 32] {
    let mut id = [0u8; 32];
    for (i, b) in id.iter_mut().enumerate() {
        *b = (7 * i + 3) as u8;
    }
    id
}

fn fq12_one_encoding() -> [u8; 384] {
    let v = [[1u8].as_slice(), &[0u8; 383]].concat();
    let mut a = [0u8; 384];
    a.copy_from_slice(&v);
    a
}

#[test]
fn final_exponentiation_start_overwrites_nonzero_tails() {
    let mut s = sample_state();
    for buf in [&mut s.f_bytes2, &mut s.f_bytes3, &mut s.f_bytes4, &mut s.f_bytes5, &mut s.i_bytes] {
        for (i, b) in buf.iter_mut().enumerate() {
            *b = (i % 200 + 5) as u8;
        }
    }
    s.f_bytes1[3] = 77;
    let step = begin_compute(&mut s, 0, &program_id()).unwrap();
    assert!(matches!(step, ComputeStep::FinalExponentiation { first: true }));
    let one = fq12_one_encoding();
    assert_eq!(s.f_bytes2, one);
    assert_eq!(s.f_bytes3, one);
    assert_eq!(s.f_bytes4, one);
    assert_eq!(s.f_bytes5, one);
    assert_eq!(s.i_bytes, one);
    assert_eq!(s.f_bytes1[3], 77);
}

#[test]
fn begin_proof_computation_sets_f_to_one() {
    let mut s = sample_state();
    s.f_bytes[7] = 3;
    begin_proof_computation(&mut s, &[0u8; 256], [0u8; 192]);
    assert_eq!(s.f_bytes, fq12_one_encoding());
}

#[test]
fn fq12_one_bytes_value() {
    assert_eq!(fq12_one_bytes(), fq12_one_encoding());
}

#[test]
fn zeroed_state_is_all_zero() {
    let s = VerifierState::zeroed();
    assert_eq!(s.current_index, 0);
    assert!(s.f_bytes.iter().all(|b| *b == 0));
    assert!(!s.computing_prepared_inputs && !s.computing_miller_loop && !s.updating_merkle_tree);
    assert_eq!(s.phase(), Phase::FinalExponentiation);
}

#[test]
fn create_stores_instruction_data() {
    let s = sample_state();
    assert_eq!(s.signing_address, [1u8; 32]);
    assert_eq!(s.root_hash, [2u8; 32]);
    assert_eq!(s.amount, [3u8; 32]);
    assert_eq!(s.tx_integrity_hash, [4u8; 32]);
    assert_eq!(s.nullifier0, [5u8; 32]);
    assert_eq!(s.nullifier1, [6u8; 32]);
    assert_eq!(s.leaf_right, [7u8; 32]);
    assert_eq!(s.leaf_left, [8u8; 32]);
    assert_eq!(s.recipient, [9u8; 32]);
    assert_eq!(s.ext_amount, [10, 0, 0, 0, 0, 0, 0, 0]);
    assert_eq!(s.fee, [0x10, 0x27, 0, 0, 0, 0, 0, 0]);
    assert_eq!(s.relayer_fee, 10_000);
    assert_eq!(s.merkle_tree_index, 3);
    assert_eq!(s.encrypted_utxos.len(), 222);
    assert_eq!(s.encrypted_utxos[0], 0);
    assert_eq!(s.encrypted_utxos[221], 221);
    assert_eq!(s.current_instruction_index, 0);
    assert!(s.proof_a_bytes.iter().all(|b| *b == 0));
}

#[test]
fn relayer_fee_reads_all_eight_bytes() {
    let mut utxos = [0u8; 256];
    utxos[255] = 1;
    let s = create_verifier_state(
        [0u8; 32], [0u8; 32], [0u8; 32], [0u8; 32], [0u8; 32], [0u8; 32], [0u8; 32], [0u8; 32],
        [0u8; 32], [0u8; 8], [1, 2, 3, 4, 5, 6, 7, 8], &utxos, [0],
    );
    assert_eq!(s.relayer_fee, 0x0807060504030201);
    assert!(s.encrypted_utxos.iter().all(|b| *b == 0));
}

#[test]
fn begin_proof_computation_splits_the_proof() {
    let mut s = sample_state();
    let mut proof = [0u8; 256];
    for (i, b) in proof.iter_mut().enumerate() {
        *b = (i % 251) as u8;
    }
    let r = [0xabu8; 192];
    begin_proof_computation(&mut s, &proof, r);
    assert_eq!(&s.proof_a_bytes[..], &proof[0..64]);
    assert_eq!(&s.proof_b_bytes[..], &proof[64..192]);
    assert_eq!(&s.proof_c_bytes[..], &proof[192..256]);
    assert_eq!(s.r_bytes, r);
    assert_eq!(s.f_bytes[0], 1);
    assert!(s.f_bytes[1..].iter().all(|b| *b == 0));
    assert_eq!(s.compute_max_miller_loop, 1_350_000);
    assert_eq!(s.current_index, 1);
    assert_eq!(s.current_instruction_index, 1);
    assert!(s.computing_prepared_inputs);
    assert_eq!(s.phase(), Phase::PreparedInputs);
    assert_eq!(s.root_hash, [2u8; 32]);
}

#[test]
fn phase_priority() {
    let mut s = VerifierState::zeroed();
    s.computing_prepared_inputs = true;
    s.computing_miller_loop = true;
    s.updating_merkle_tree = true;
    assert_eq!(s.phase(), Phase::PreparedInputs);
    s.computing_prepared_inputs = false;
    assert_eq!(s.phase(), Phase::MillerLoop);
    s.computing_miller_loop = false;
    assert_eq!(s.phase(), Phase::MerkleTreeUpdate);
    s.updating_merkle_tree = false;
    assert_eq!(s.phase(), Phase::FinalExponentiation);
}

#[test]
fn prepared_inputs_step() {
    let mut s = sample_state();
    s.computing_prepared_inputs = true;
    s.current_index = 4;
    s.current_instruction_index = 9;
    let before_max = s.max_compute;
    let step = begin_compute(&mut s, 0, &program_id()).unwrap();
    match step {
        ComputeStep::PreparedInputs { instruction_index, current_index } => {
            assert_eq!(instruction_index, 9);
            assert_eq!(current_index, 4);
        }
        _ => panic!("wrong step"),
    }
    assert_eq!(s.max_compute, before_max);
    finish_compute(&mut s, step.phase());
    assert_eq!(s.current_index, 5);
    assert_eq!(s.current_instruction_index, 10);
}

#[test]
fn miller_loop_step_sets_budget() {
    let mut s = sample_state();
    s.computing_miller_loop = true;
    s.current_instruction_index = 30;
    let step = begin_compute(&mut s, 0, &program_id()).unwrap();
    assert!(matches!(step, ComputeStep::MillerLoop));
    assert_eq!(s.max_compute, MILLER_LOOP_MAX_COMPUTE);
    assert_eq!(s.max_compute, 1_300_000);
    finish_compute(&mut s, Phase::MillerLoop);
    assert_eq!(s.current_instruction_index, 31);
    assert_eq!(s.current_index, 0);
}

#[test]
fn merkle_step_derives_signer_seeds() {
    let mut s = sample_state();
    s.updating_merkle_tree = true;
    let id = program_id();
    let before = merkle_tree_update_data(&s);
    let step = begin_compute(&mut s, 0x0102, &id).unwrap();
    let (expected_address, expected_bump) =
        Pubkey::find_program_address(&[&s.tx_integrity_hash[..], &b"storage"[..]], &Pubkey::new_from_array(id));
    assert_ne!(expected_address, Pubkey::new_from_array(id));
    match step {
        ComputeStep::MerkleTreeUpdate { data, signer_seeds } => {
            assert_eq!(data, vec![0x02, 0x01, 0, 0, 0, 0, 0, 0]);
            assert_eq!(signer_seeds.len(), 3);
            assert_eq!(signer_seeds[0], s.tx_integrity_hash.to_vec());
            assert_eq!(signer_seeds[1], b"storage".to_vec());
            assert_eq!(signer_seeds[2], vec![expected_bump]);
        }
        _ => panic!("wrong step"),
    }
    assert_eq!(merkle_tree_update_data(&s), before);
}

#[test]
fn storage_bump_matches_solana() {
    let hash = [4u8; 32];
    let id = program_id();
    let bump = find_storage_bump(&hash, &id).unwrap();
    let (_, expected) = Pubkey::find_program_address(&[&hash[..], &b"storage"[..]], &Pubkey::new_from_array(id));
    assert_eq!(bump, expected);
    assert!(bump >= 1);
    let other = find_storage_bump(&[5u8; 32], &id).unwrap();
    let (_, expected_other) =
        Pubkey::find_program_address(&[&[5u8; 32][..], &b"storage"[..]], &Pubkey::new_from_array(id));
    assert_eq!(other, expected_other);
}

#[test]
fn seeds_layout() {
    assert_eq!(&STORAGE_SEED, b"storage");
    let hash = [9u8; 32];
    assert_eq!(storage_seeds(&hash), vec![hash.to_vec(), b"storage".to_vec()]);
    assert_eq!(signer_seeds(&hash, 254), vec![hash.to_vec(), b"storage".to_vec(), vec![254]]);
}

#[test]
fn merkle_update_takes_74_instructions() {
    let mut s = sample_state();
    s.updating_merkle_tree = true;
    s.current_instruction_index = 100;
    let id = program_id();
    for i in 0..MERKLE_TREE_UPDATE_INSTRUCTIONS {
        assert_eq!(s.phase(), Phase::MerkleTreeUpdate);
        assert!(!s.last_transaction);
        let step = begin_compute(&mut s, i, &id).unwrap();
        finish_compute(&mut s, step.phase());
    }
    assert_eq!(s.merkle_tree_instruction_index, 74);
    assert!(s.last_transaction);
    assert!(!s.updating_merkle_tree);
    assert_eq!(s.phase(), Phase::FinalExponentiation);
    assert_eq!(s.current_instruction_index, 174);
}

#[test]
fn final_exponentiation_initialised_once() {
    let mut s = sample_state();
    s.f_bytes2[0] = 7;
    s.f_bytes2[5] = 9;
    s.current_compute = 1000;
    s.outer_loop = 5;
    let step = begin_compute(&mut s, 0, &program_id()).unwrap();
    assert!(matches!(step, ComputeStep::FinalExponentiation { first: true }));
    assert!(s.computing_final_exponentiation);
    let one = fq12_one_encoding();
    assert_eq!(s.f_bytes2, one);
    assert_eq!(s.f_bytes2[5], 0);
    assert_eq!(s.f_bytes3, one);
    assert_eq!(s.f_bytes4, one);
    assert_eq!(s.f_bytes5, one);
    assert_eq!(s.i_bytes, one);
    assert_eq!(s.outer_loop, 1);
    assert_eq!(s.max_compute, FINAL_EXPONENTIATION_MAX_COMPUTE);
    assert_eq!(s.current_compute, 1000 + FINAL_EXPONENTIATION_INIT_COMPUTE);
    assert_eq!(s.current_compute, 151_000);
    s.outer_loop = 3;
    s.f_bytes2[0] = 42;
    let step = begin_compute(&mut s, 0, &program_id()).unwrap();
    assert!(matches!(step, ComputeStep::FinalExponentiation { first: false }));
    assert_eq!(s.outer_loop, 3);
    assert_eq!(s.f_bytes2[0], 42);
    assert_eq!(s.current_compute, 151_000);
    finish_compute(&mut s, Phase::FinalExponentiation);
    assert_eq!(s.current_instruction_index, 1);
}

#[test]
fn merkle_update_data_layout() {
    let s = sample_state();
    let data = merkle_tree_update_data(&s);
    assert_eq!(data.len(), 128);
    assert_eq!(&data[0..32], &[4u8; 32]);
    assert_eq!(&data[32..64], &[8u8; 32]);
    assert_eq!(&data[64..96], &[7u8; 32]);
    assert_eq!(&data[96..128], &[2u8; 32]);
}

#[test]
fn merkle_step_from_found_bump() {
    let hash = [3u8; 32];
    match merkle_tree_update_step(&hash, u64::MAX - 1, Some(200)) {
        Ok(ComputeStep::MerkleTreeUpdate { data, signer_seeds }) => {
            assert_eq!(data, vec![0xfe, 0xff, 0xff, 0xff, 0xff, 0xff, 0xff, 0xff]);
            assert_eq!(signer_seeds, vec![hash.to_vec(), b"storage".to_vec(), vec![200]]);
        }
        _ => panic!("wrong step"),
    }
}

#[test]
fn merkle_step_without_bump_fails() {
    assert!(matches!(
        merkle_tree_update_step(&[3u8; 32], 1, None),
        Err(ComputeError::NoViableBumpSeed)
    ));
}
