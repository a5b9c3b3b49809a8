use verifier_program::errors::ErrorCode;
use verifier_program::shielded::{after_transfer_step, first_transfer_step, TransactionConfig, TransferControl, TransferStep};

fn run(fail_at: Option<usize>) -> (Vec<TransferStep>, Result<(), String>) {
    let mut ran = Vec::new();
    let mut step = first_transfer_step();
    loop {
        ran.push(step);
        let outcome = if Some(ran.len() - 1) == fail_at { Err(format!("failed {:?}", step)) } else { Ok(()) };
        match after_transfer_step(step, outcome) {
            TransferControl::Run(next) => step = next,
            TransferControl::Finish(result) => return (ran, result),
        }
    }
}

#[test]
fn transfer_runs_all_steps_in_order() {
    let (ran, result) = run(None);
    assert_eq!(
        ran,
        vec![
            TransferStep::LoadAccounts,
            TransferStep::ComputeTxIntegrityHash,
            TransferStep::FetchRoot,
            TransferStep::FetchMint,
            TransferStep::InsertLeaves,
            TransferStep::InsertNullifiers,
            TransferStep::TransferUserFunds,
            TransferStep::TransferFee,
        ]
    );
    assert_eq!(result, Ok(()));
}

#[test]
fn transfer_stops_at_first_error() {
    let (ran, result) = run(Some(3));
    assert_eq!(ran.len(), 4);
    assert_eq!(ran[3], TransferStep::FetchMint);
    assert_eq!(result, Err("failed FetchMint".to_string()));
    let (ran, result) = run(Some(7));
    assert_eq!(ran.len(), 8);
    assert_eq!(result, Err("failed TransferFee".to_string()));
    let (ran, result) = run(Some(0));
    assert_eq!(ran, vec![TransferStep::LoadAccounts]);
    assert!(result.is_err());
}

#[test]
fn transaction_config_values() {
    assert_eq!(TransactionConfig::NR_NULLIFIERS, 4);
    assert_eq!(TransactionConfig::NR_LEAVES, 4);
    assert_eq!(TransactionConfig::NR_CHECKED_PUBLIC_INPUTS, 3);
    assert_eq!(TransactionConfig::ID[0], 252);
    assert_eq!(TransactionConfig::ID[31], 81);
}

#[test]
fn error_messages() {
    assert_eq!(ErrorCode::IncompatibleVerifyingKey.message(), "Incompatible Verifying Key");
    assert_eq!(ErrorCode::WrongPubAmount.message(), "WrongPubAmount");
    assert_eq!(ErrorCode::PrepareInputsDidNotFinish.message(), "PrepareInputsDidNotFinish");
    assert_eq!(ErrorCode::NotLastTransactionState.message(), "NotLastTransactionState");
}
