//! Validation core of a single-batch flash loan: a lender pays out without
//! collateral because the batch that carries the loan is proved to end in its
//! repayment.

pub mod address;
pub mod batch;
pub mod bytes;
pub mod error;
pub mod fee;
pub mod laws;
pub mod loan;
pub mod token;
