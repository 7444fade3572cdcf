use vstd::prelude::*;

verus! {

/// A reason for which an operation was rejected.
#[derive(Debug, Clone, Copy, PartialEq, Eq, Structural)]
pub enum OperationError {
    AccountAlreadyInitialized,
    AccountNotInitialized,
    InactiveCard,
    InsufficientLimit,
    HighFrequencySmallInterval,
    DuplicatedTx,
}

impl OperationError {
    /// The label under which the violation is reported.
    pub open spec fn label(self) -> Seq<char> {
        match self {
            OperationError::AccountAlreadyInitialized => "account-already-initialized"@,
            OperationError::AccountNotInitialized => "account-not-initialized"@,
            OperationError::InactiveCard => "inactive-card"@,
            OperationError::InsufficientLimit => "insufficient-limit"@,
            OperationError::HighFrequencySmallInterval => "high-frequency-small-interval"@,
            OperationError::DuplicatedTx => "duplicated-tx"@,
        }
    }

    /// The label as a static string slice.
    pub fn as_str(&self) -> (s: &'static str)
        ensures
            s@ == self.label(),
    {
        match self {
            OperationError::AccountAlreadyInitialized => "account-already-initialized",
            OperationError::AccountNotInitialized => "account-not-initialized",
            OperationError::InactiveCard => "inactive-card",
            OperationError::InsufficientLimit => "insufficient-limit",
            OperationError::HighFrequencySmallInterval => "high-frequency-small-interval",
            OperationError::DuplicatedTx => "duplicated-tx",
        }
    }

    /// The label as an owned string.
    pub fn to_string(&self) -> (s: String)
        ensures
            s@ == self.label(),
    {
        self.as_str().to_owned()
    }
}

} // verus!
