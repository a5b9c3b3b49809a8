//! The shielded transfer of the second verifier: its configuration and the
//! order in which its steps run.
use vstd::prelude::*;

verus! {

/// Configuration of the shielded transfer verifier.
pub struct TransactionConfig;

impl TransactionConfig {
    /// Number of nullifiers inserted with the transaction.
    pub const NR_NULLIFIERS: usize = 4;
    /// Number of output UTXOs.
    pub const NR_LEAVES: usize = 4;
    /// Number of checked public inputs: KYC, invoking verifier, app hash.
    pub const NR_CHECKED_PUBLIC_INPUTS: usize = 3;
    /// The verifier's program id.
    pub const ID: [u8; 32] = [
        252u8, 178u8, 75u8, 149u8, 78u8, 219u8, 142u8, 17u8, 53u8, 237u8, 47u8, 4u8, 42u8, 105u8,
        173u8, 204u8, 248u8, 16u8, 209u8, 38u8, 219u8, 222u8, 123u8, 242u8, 5u8, 68u8, 240u8,
        131u8, 3u8, 211u8, 184u8, 81u8,
    ];
}

/// The steps of a shielded transfer.
#[derive(PartialEq, Eq, Structural, Debug, Clone, Copy)]
pub enum TransferStep {
    LoadAccounts,
    ComputeTxIntegrityHash,
    FetchRoot,
    FetchMint,
    InsertLeaves,
    InsertNullifiers,
    TransferUserFunds,
    TransferFee,
}

/// The steps of a shielded transfer in the order they run. The proof check
/// is not among them: this verifier leaves it out.
pub open spec fn transfer_steps() -> Seq<TransferStep> {
    seq![
        TransferStep::LoadAccounts,
        TransferStep::ComputeTxIntegrityHash,
        TransferStep::FetchRoot,
        TransferStep::FetchMint,
        TransferStep::InsertLeaves,
        TransferStep::InsertNullifiers,
        TransferStep::TransferUserFunds,
        TransferStep::TransferFee,
    ]
}

/// The step that follows `step`, if any.
pub open spec fn spec_next_step(step: TransferStep) -> Option<TransferStep> {
    match step {
        TransferStep::LoadAccounts => Some(TransferStep::ComputeTxIntegrityHash),
        TransferStep::ComputeTxIntegrityHash => Some(TransferStep::FetchRoot),
        TransferStep::FetchRoot => Some(TransferStep::FetchMint),
        TransferStep::FetchMint => Some(TransferStep::InsertLeaves),
        TransferStep::InsertLeaves => Some(TransferStep::InsertNullifiers),
        TransferStep::InsertNullifiers => Some(TransferStep::TransferUserFunds),
        TransferStep::TransferUserFunds => Some(TransferStep::TransferFee),
        TransferStep::TransferFee => None,
    }
}

/// What comes after a step of a shielded transfer.
pub enum TransferControl<E> {
    /// Run this step next.
    Run(TransferStep),
    /// The transfer is over, with this result.
    Finish(Result<(), E>),
}

/// What comes after `step` with `outcome`.
pub open spec fn spec_after_step<E>(step: TransferStep, outcome: Result<(), E>) -> TransferControl<E> {
    match outcome {
        Err(e) => TransferControl::Finish(Err(e)),
        Ok(()) => match spec_next_step(step) {
            Some(next) => TransferControl::Run(next),
            None => TransferControl::Finish(Ok(())),
        },
    }
}

/// The step a shielded transfer starts with.
pub fn first_transfer_step() -> (step: TransferStep)
    ensures
        step == transfer_steps()[0],
{
    TransferStep::LoadAccounts
}

/// Decides what follows `step` once it ran with `outcome`: an error ends the
/// transfer with that error; a success runs the next step, or ends the
/// transfer with success after the fee transfer.
pub fn after_transfer_step<E>(step: TransferStep, outcome: Result<(), E>) -> (c: TransferControl<E>)
    ensures
        c == spec_after_step(step, outcome),
{
    match outcome {
        Err(e) => TransferControl::Finish(Err(e)),
        Ok(()) => match step {
            TransferStep::LoadAccounts => TransferControl::Run(TransferStep::ComputeTxIntegrityHash),
            TransferStep::ComputeTxIntegrityHash => TransferControl::Run(TransferStep::FetchRoot),
            TransferStep::FetchRoot => TransferControl::Run(TransferStep::FetchMint),
            TransferStep::FetchMint => TransferControl::Run(TransferStep::InsertLeaves),
            TransferStep::InsertLeaves => TransferControl::Run(TransferStep::InsertNullifiers),
            TransferStep::InsertNullifiers => TransferControl::Run(TransferStep::TransferUserFunds),
            TransferStep::TransferUserFunds => TransferControl::Run(TransferStep::TransferFee),
            TransferStep::TransferFee => TransferControl::Finish(Ok(())),
        },
    }
}

/// A run of the transfer from `step`, where `outcomes[i]` is what the `i`-th
/// step run from there gives: the steps that ran, and the transfer's result.
pub open spec fn run_transfer<E>(step: TransferStep, outcomes: Seq<Result<(), E>>) -> (Seq<TransferStep>, Result<(), E>)
    decreases outcomes.len(),
{
    if outcomes.len() == 0 {
        (Seq::empty(), Ok(()))
    } else {
        match spec_after_step(step, outcomes[0]) {
            TransferControl::Run(next) => {
                let rest = run_transfer(next, outcomes.drop_first());
                (seq![step] + rest.0, rest.1)
            },
            TransferControl::Finish(result) => (seq![step], result),
        }
    }
}

/// The position of the first error among `outcomes`, or their length.
pub open spec fn first_error<E>(outcomes: Seq<Result<(), E>>) -> int
    decreases outcomes.len(),
{
    if outcomes.len() == 0 {
        0
    } else if outcomes[0] is Err {
        0
    } else {
        1 + first_error(outcomes.drop_first())
    }
}

proof fn lemma_run_from<E>(j: int, outcomes: Seq<Result<(), E>>)
    requires
        0 <= j < 8,
        outcomes.len() == 8 - j,
    ensures
        first_error(outcomes) < outcomes.len() ==> {
            &&& run_transfer(transfer_steps()[j as int], outcomes).0
                == transfer_steps().subrange(j as int, j + first_error(outcomes) + 1)
            &&& run_transfer(transfer_steps()[j as int], outcomes).1 == outcomes[first_error(outcomes)]
        },
        first_error(outcomes) == outcomes.len() ==> {
            &&& run_transfer(transfer_steps()[j as int], outcomes).0 == transfer_steps().subrange(j as int, 8)
            &&& run_transfer(transfer_steps()[j as int], outcomes).1 == Ok::<(), E>(())
        },
    decreases 8 - j,
{
    let step = transfer_steps()[j as int];
    lemma_first_error_facts(outcomes);
    if outcomes[0] is Err {
        assert(transfer_steps().subrange(j as int, j + 1) =~= seq![step]);
    } else if j == 7 {
        assert(transfer_steps().subrange(j as int, 8) =~= seq![step]);
    } else {
        assert(spec_next_step(step) == Some(transfer_steps()[j + 1]));
        lemma_run_from(j + 1, outcomes.drop_first());
        lemma_first_error_facts(outcomes.drop_first());
        if first_error(outcomes) < outcomes.len() {
            assert(transfer_steps().subrange(j as int, j + first_error(outcomes) + 1)
                =~= seq![step] + transfer_steps().subrange(j + 1, j + 1 + first_error(outcomes.drop_first()) + 1));
        }
        assert(transfer_steps().subrange(j as int, 8)
            =~= seq![step] + transfer_steps().subrange(j + 1, 8));
    }
}

/// A shielded transfer runs its steps in their fixed order and stops at the
/// first that fails: given the outcome each of the eight steps would have,
/// the steps that run are those up to and including the first failure, and
/// the transfer fails with that failure's error; when none fails, all eight
/// run and the transfer succeeds.
pub proof fn lemma_transfer_stops_at_first_error<E>(outcomes: Seq<Result<(), E>>)
    requires
        outcomes.len() == 8,
    ensures
        first_error(outcomes) < 8 ==> {
            &&& run_transfer(transfer_steps()[0], outcomes).0 == transfer_steps().take(first_error(outcomes) + 1)
            &&& run_transfer(transfer_steps()[0], outcomes).1 == outcomes[first_error(outcomes)]
            &&& outcomes[first_error(outcomes)] is Err
            &&& forall|i: int| 0 <= i < first_error(outcomes) ==> outcomes[i] is Ok
        },
        first_error(outcomes) == 8 ==> {
            &&& run_transfer(transfer_steps()[0], outcomes).0 == transfer_steps()
            &&& run_transfer(transfer_steps()[0], outcomes).1 == Ok::<(), E>(())
            &&& forall|i: int| 0 <= i < 8 ==> outcomes[i] is Ok
        },
{
    lemma_run_from(0, outcomes);
    lemma_first_error_facts(outcomes);
    assert(transfer_steps().subrange(0, 8) =~= transfer_steps());
    assert(transfer_steps().subrange(0, first_error(outcomes) + 1) =~= transfer_steps().take(first_error(outcomes) + 1));
}

proof fn lemma_first_error_facts<E>(outcomes: Seq<Result<(), E>>)
    ensures
        0 <= first_error(outcomes) <= outcomes.len(),
        first_error(outcomes) < outcomes.len() ==> outcomes[first_error(outcomes)] is Err,
        forall|i: int| 0 <= i < first_error(outcomes) ==> outcomes[i] is Ok,
    decreases outcomes.len(),
{
    if outcomes.len() > 0 && outcomes[0] is Ok {
        lemma_first_error_facts(outcomes.drop_first());
        if first_error(outcomes) < outcomes.len() {
            assert(outcomes[first_error(outcomes)] == outcomes.drop_first()[first_error(outcomes) - 1]);
        }
        assert forall|i: int| 0 <= i < first_error(outcomes) implies outcomes[i] is Ok by {
            if i > 0 {
                assert(outcomes[i] == outcomes.drop_first()[i - 1]);
            }
        }
    }
}

} // verus!
