//! Why a request fails: refusals that a caller can answer, and aborts that
//! mark a misuse of the interface.

use vstd::prelude::*;

verus! {

/// A refusal for a reason of business state. The caller may inspect it and try
/// again with other parameters.
#[derive(Clone, Copy, Debug, PartialEq, Eq, PartialOrd, Ord, Hash, Structural)]
pub enum Error {
    /// The credit line has no configuration yet, or the user has no position.
    NotInitialized,
    /// The configuration was set before; it is set once.
    AlreadyInitialized,
    /// The collateral does not back the debt.
    InsufficientCollateral,
    /// The debt asked for is above the credit limit.
    ExceedsCreditLimit,
    /// More collateral was asked back than the position holds.
    InsufficientBalance,
}

impl Error {
    /// The number under which the refusal is reported, from 1 to 5.
    pub open spec fn code_of(self) -> u32 {
        match self {
            Error::NotInitialized => 1,
            Error::AlreadyInitialized => 2,
            Error::InsufficientCollateral => 3,
            Error::ExceedsCreditLimit => 4,
            Error::InsufficientBalance => 5,
        }
    }

    /// The number under which the refusal is reported.
    pub fn code(self) -> (code: u32)
        ensures
            code == self.code_of(),
            1 <= code <= 5,
    {
        match self {
            Error::NotInitialized => 1,
            Error::AlreadyInitialized => 2,
            Error::InsufficientCollateral => 3,
            Error::ExceedsCreditLimit => 4,
            Error::InsufficientBalance => 5,
        }
    }
}

/// Distinct refusals are reported under distinct numbers.
pub proof fn lemma_codes_are_distinct(left: Error, right: Error)
    requires
        left.code_of() == right.code_of(),
    ensures
        left == right,
{
}

/// A misuse of the interface. The call ends at once and nothing is recorded.
#[derive(Clone, Copy, Debug, PartialEq, Eq, Hash, Structural)]
pub enum Abort {
    /// The amount of a deposit, loan, repayment or withdrawal was zero or less.
    InvalidAmount,
    /// More was repaid than is owed.
    RepayExceedsDebt,
    /// The new balance cannot be represented.
    Overflow,
}

impl Abort {
    /// The words with which the call ends.
    pub open spec fn message_of(self) -> Seq<char> {
        match self {
            Abort::InvalidAmount => "Amount must be positive"@,
            Abort::RepayExceedsDebt => "Repay amount exceeds borrowed amount"@,
            Abort::Overflow => "Balance out of range"@,
        }
    }

    /// The words with which the call ends.
    pub fn message(self) -> (text: &'static str)
        ensures
            text@ == self.message_of(),
    {
        match self {
            Abort::InvalidAmount => "Amount must be positive",
            Abort::RepayExceedsDebt => "Repay amount exceeds borrowed amount",
            Abort::Overflow => "Balance out of range",
        }
    }
}

/// How a request ended when it did not succeed.
#[derive(Clone, Copy, Debug, PartialEq, Eq, Hash, Structural)]
pub enum Failure {
    /// Refused; the caller may try again with other parameters.
    Rejected(Error),
    /// Aborted; the request itself was malformed.
    Aborted(Abort),
}

} // verus!
