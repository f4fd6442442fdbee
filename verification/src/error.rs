//! The reasons for which the protocol refuses a call.

use vstd::prelude::*;

verus! {

/// Why a call was refused. Every refusal is final: the batch that holds the
/// call is abandoned as a whole.
#[derive(Clone, Copy, Debug, PartialEq, Eq, Structural)]
pub enum ProtocolError {
    /// A sibling call carries a payload that does not start with the tag it
    /// has to carry.
    InvalidIx,
    /// The batch names no call as the one that is running.
    InvalidInstructionIndex,
    /// A loan of nothing was asked for.
    InvalidAmount,
    /// A holding account has less than what should leave it.
    NotEnoughFunds,
    /// The call that is running does not belong to this program.
    ProgramMismatch,
    /// A sibling call belongs to another program.
    InvalidProgram,
    /// The settling call does not name the borrower's holding account.
    InvalidBorrowerAta,
    /// The settling call does not name the pool's holding account.
    InvalidProtocolAta,
    /// The batch does not end in a call that can be read.
    MissingRepayIx,
    /// The batch does not start with a call that can be read.
    MissingBorrowIx,
    /// An amount does not fit in 64 bits.
    Overflow,
}

impl ProtocolError {
    /// The text shown to a user for each reason.
    pub open spec fn message_of(self) -> Seq<char> {
        match self {
            ProtocolError::InvalidIx => "Invalid instruction"@,
            ProtocolError::InvalidInstructionIndex => "Invalid instruction index"@,
            ProtocolError::InvalidAmount => "Invalid amount"@,
            ProtocolError::NotEnoughFunds => "Not enough funds"@,
            ProtocolError::ProgramMismatch => "Program Mismatch"@,
            ProtocolError::InvalidProgram => "Invalid program"@,
            ProtocolError::InvalidBorrowerAta => "Invalid borrower ATA"@,
            ProtocolError::InvalidProtocolAta => "Invalid protocol ATA"@,
            ProtocolError::MissingRepayIx => "Missing repay instruction"@,
            ProtocolError::MissingBorrowIx => "Missing borrow instruction"@,
            ProtocolError::Overflow => "Overflow"@,
        }
    }

    /// The text shown to a user for this reason.
    pub fn message(&self) -> (text: &'static str)
        ensures
            text@ == self.message_of(),
    {
        match self {
            ProtocolError::InvalidIx => "Invalid instruction",
            ProtocolError::InvalidInstructionIndex => "Invalid instruction index",
            ProtocolError::InvalidAmount => "Invalid amount",
            ProtocolError::NotEnoughFunds => "Not enough funds",
            ProtocolError::ProgramMismatch => "Program Mismatch",
            ProtocolError::InvalidProgram => "Invalid program",
            ProtocolError::InvalidBorrowerAta => "Invalid borrower ATA",
            ProtocolError::InvalidProtocolAta => "Invalid protocol ATA",
            ProtocolError::MissingRepayIx => "Missing repay instruction",
            ProtocolError::MissingBorrowIx => "Missing borrow instruction",
            ProtocolError::Overflow => "Overflow",
        }
    }
}

} // verus!
