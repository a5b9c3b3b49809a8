use vstd::prelude::*;

verus! {

/// Errors of the verifier program.
#[derive(PartialEq, Eq, Structural, Debug, Clone, Copy)]
pub enum ErrorCode {
    IncompatibleVerifyingKey,
    WrongPubAmount,
    PrepareInputsDidNotFinish,
    NotLastTransactionState,
}

/// The message of each error.
pub open spec fn spec_message(e: ErrorCode) -> Seq<char> {
    match e {
        ErrorCode::IncompatibleVerifyingKey => "Incompatible Verifying Key"@,
        ErrorCode::WrongPubAmount => "WrongPubAmount"@,
        ErrorCode::PrepareInputsDidNotFinish => "PrepareInputsDidNotFinish"@,
        ErrorCode::NotLastTransactionState => "NotLastTransactionState"@,
    }
}

impl ErrorCode {
    /// The message that the error is reported with.
    pub fn message(&self) -> (m: &'static str)
        ensures
            m@ == spec_message(*self),
    {
        match self {
            ErrorCode::IncompatibleVerifyingKey => "Incompatible Verifying Key",
            ErrorCode::WrongPubAmount => "WrongPubAmount",
            ErrorCode::PrepareInputsDidNotFinish => "PrepareInputsDidNotFinish",
            ErrorCode::NotLastTransactionState => "NotLastTransactionState",
        }
    }
}

} // verus!
