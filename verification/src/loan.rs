//! The two entry points of the protocol, and the checks that tie them to
//! each other inside one batch.
//!
//! `borrow` pays out and then makes sure that the batch ends in a `repay`
//! for the same pair of holding accounts. `repay` makes sure that the batch
//! starts with a `borrow`, takes the amount from that call's payload, and
//! pays back that amount and the fee. Neither keeps a record: what links
//! them is where they stand in the batch.

use vstd::prelude::*;
use crate::address::{check_id, program_address, Address};
use crate::batch::{
    call_stored_at, current_index_of, last_call_of, view_of, Call, CallView, Instructions,
    BORROWER_ATA_POSITION, PROTOCOL_ATA_POSITION,
};
use crate::error::ProtocolError;
use crate::fee::{amount_owed, amount_owed_of};
use crate::token::{moved, transfer, Authority, TokenAccount, Transfer};

verus! {

/// The first eight bytes of the payload of a call to `borrow`.
pub const BORROW_DISCRIMINATOR: [u8; 8] = [228, 253, 131, 202, 207, 116, 89, 18];

/// The first eight bytes of the payload of a call to `repay`.
pub const REPAY_DISCRIMINATOR: [u8; 8] = [234, 103, 67, 82, 208, 234, 219, 166];

/// The accounts that a call to `borrow` or `repay` works on.
#[derive(Clone, Debug, PartialEq, Eq)]
pub struct Loan {
    /// Who borrows, and signs the batch.
    pub borrower: Address,
    /// The address that owns the pool and that only the program signs for.
    pub protocol: Address,
    /// The value from which, with `PROTOCOL_SEED`, `protocol` is derived.
    pub protocol_bump: u8,
    /// The asset that is lent.
    pub mint: Address,
    /// The borrower's holding account.
    pub borrower_ata: TokenAccount,
    /// The pool's holding account.
    pub protocol_ata: TokenAccount,
    /// The batch that the call runs in.
    pub instructions: Instructions,
    /// The program that moves the asset.
    pub token_program: Address,
    /// The program that provides holding accounts.
    pub associated_token_program: Address,
    /// The program that provides accounts.
    pub system_program: Address,
}

/// The accounts of a call as a mathematical value.
pub ghost struct LoanView {
    pub borrower: Address,
    pub protocol: Address,
    pub protocol_bump: u8,
    pub mint: Address,
    pub borrower_ata: TokenAccount,
    pub protocol_ata: TokenAccount,
    pub instructions: Seq<u8>,
    pub token_program: Address,
    pub associated_token_program: Address,
    pub system_program: Address,
}

impl View for Loan {
    type V = LoanView;

    open spec fn view(&self) -> LoanView {
        LoanView {
            borrower: self.borrower,
            protocol: self.protocol,
            protocol_bump: self.protocol_bump,
            mint: self.mint,
            borrower_ata: self.borrower_ata,
            protocol_ata: self.protocol_ata,
            instructions: self.instructions@,
            token_program: self.token_program,
            associated_token_program: self.associated_token_program,
            system_program: self.system_program,
        }
    }
}

/// What `borrow` makes of the call that is running: it has to be there and
/// to address this program, so that `borrow` is never run from inside
/// another program's call.
pub open spec fn running_call_checked(current: Option<CallView>) -> Result<(), ProtocolError> {
    match current {
        None => Err(ProtocolError::InvalidInstructionIndex),
        Some(call) => if call.program_id != program_address() {
            Err(ProtocolError::ProgramMismatch)
        } else {
            Ok(())
        },
    }
}

/// What `borrow` makes of the last call of the batch: it has to be there, to
/// address this program, to carry the tag of `repay`, and to name the same
/// two holding accounts, each at its fixed position. The first of these that
/// fails decides.
pub open spec fn settlement_checked(
    last: Option<CallView>,
    borrower_ata: Address,
    protocol_ata: Address,
) -> Result<(), ProtocolError> {
    match last {
        None => Err(ProtocolError::MissingRepayIx),
        Some(call) => if call.program_id != program_address() {
            Err(ProtocolError::InvalidProgram)
        } else if !call.has_tag(REPAY_DISCRIMINATOR@) {
            Err(ProtocolError::InvalidIx)
        } else if call.account_at(BORROWER_ATA_POSITION as int) != Some(borrower_ata) {
            Err(ProtocolError::InvalidBorrowerAta)
        } else if call.account_at(PROTOCOL_ATA_POSITION as int) != Some(protocol_ata) {
            Err(ProtocolError::InvalidProtocolAta)
        } else {
            Ok(())
        },
    }
}

/// What `repay` makes of the first call of the batch: it has to be there, to
/// address this program, to carry the tag of `borrow`, and to carry an
/// amount behind the tag. That amount is the principal.
pub open spec fn principal_recovered(first: Option<CallView>) -> Result<nat, ProtocolError> {
    match first {
        None => Err(ProtocolError::MissingBorrowIx),
        Some(call) => if call.program_id != program_address() {
            Err(ProtocolError::InvalidProgram)
        } else if !call.has_tag(BORROW_DISCRIMINATOR@) {
            Err(ProtocolError::InvalidIx)
        } else {
            match call.amount() {
                None => Err(ProtocolError::InvalidIx),
                Some(principal) => Ok(principal),
            }
        },
    }
}

/// Checks the call that is running, as `running_call_checked` says.
pub fn check_running_call(current: &Option<Call>) -> (done: Result<(), ProtocolError>)
    ensures
        done == running_call_checked(view_of(*current)),
{
    match current {
        None => Err(ProtocolError::InvalidInstructionIndex),
        Some(call) => {
            if !check_id(&call.program_id) {
                Err(ProtocolError::ProgramMismatch)
            } else {
                Ok(())
            }
        },
    }
}

/// Checks the last call of the batch against the two holding accounts of the
/// loan, as `settlement_checked` says.
pub fn check_settlement(last: &Option<Call>, borrower_ata: &Address, protocol_ata: &Address) -> (done:
    Result<(), ProtocolError>)
    ensures
        done == settlement_checked(view_of(*last), *borrower_ata, *protocol_ata),
{
    match last {
        None => Err(ProtocolError::MissingRepayIx),
        Some(call) => {
            if !check_id(&call.program_id) {
                return Err(ProtocolError::InvalidProgram);
            }
            if !call.has_tag(&REPAY_DISCRIMINATOR) {
                return Err(ProtocolError::InvalidIx);
            }
            match call.borrower_ata() {
                Some(named) => {
                    if !named.same_as(borrower_ata) {
                        return Err(ProtocolError::InvalidBorrowerAta);
                    }
                },
                None => {
                    return Err(ProtocolError::InvalidBorrowerAta);
                },
            }
            match call.protocol_ata() {
                Some(named) => {
                    if !named.same_as(protocol_ata) {
                        return Err(ProtocolError::InvalidProtocolAta);
                    }
                },
                None => {
                    return Err(ProtocolError::InvalidProtocolAta);
                },
            }
            Ok(())
        },
    }
}

/// Reads the principal out of the first call of the batch, as
/// `principal_recovered` says.
pub fn recover_principal(first: &Option<Call>) -> (principal: Result<u64, ProtocolError>)
    ensures
        principal_recovered(view_of(*first)) matches Ok(n) ==> (principal matches Ok(v) && v as nat
            == n),
        principal_recovered(view_of(*first)) matches Err(reason) ==> principal == Err::<
            u64,
            ProtocolError,
        >(reason),
{
    match first {
        None => Err(ProtocolError::MissingBorrowIx),
        Some(call) => {
            if !check_id(&call.program_id) {
                return Err(ProtocolError::InvalidProgram);
            }
            if !call.has_tag(&BORROW_DISCRIMINATOR) {
                return Err(ProtocolError::InvalidIx);
            }
            match call.amount() {
                Some(principal) => Ok(principal),
                None => Err(ProtocolError::InvalidIx),
            }
        },
    }
}

/// Whether the batch `data` lets a loan to these two holding accounts go
/// ahead: the call that is running has to pass `running_call_checked`, then
/// the last call `settlement_checked`.
pub open spec fn repayment_linked(data: Seq<u8>, borrower_ata: Address, protocol_ata: Address) -> Result<
    (),
    ProtocolError,
> {
    match current_index_of(data) {
        None => Err(ProtocolError::InvalidInstructionIndex),
        Some(index) => match running_call_checked(call_stored_at(data, index)) {
            Err(reason) => Err(reason),
            Ok(_) => settlement_checked(last_call_of(data), borrower_ata, protocol_ata),
        },
    }
}

/// What `borrow` does to the accounts `loan` and which movement it orders,
/// or why it refuses. In this order: the amount has to be more than nothing;
/// it moves from the pool to the borrower; the batch has to pass
/// `repayment_linked`.
pub open spec fn borrowed(loan: LoanView, amount: u64) -> Result<(LoanView, Transfer), ProtocolError> {
    if amount == 0 {
        Err(ProtocolError::InvalidAmount)
    } else {
        match moved(loan.protocol_ata, loan.borrower_ata, amount) {
            Err(reason) => Err(reason),
            Ok(after) => match repayment_linked(
                loan.instructions,
                loan.borrower_ata.address,
                loan.protocol_ata.address,
            ) {
                Err(reason) => Err(reason),
                Ok(_) => Ok(
                    (
                        LoanView { protocol_ata: after.0, borrower_ata: after.1, ..loan },
                        Transfer {
                            from: loan.protocol_ata.address,
                            to: loan.borrower_ata.address,
                            authority: Authority::Derived {
                                holder: loan.protocol,
                                bump: loan.protocol_bump,
                            },
                            amount,
                        },
                    ),
                ),
            },
        }
    }
}

/// What `repay` does to the accounts `loan` and which movement it orders, or
/// why it refuses. In this order: the first call of the batch has to yield a
/// principal; the principal and its fee have to fit in 64 bits; that amount
/// moves from the borrower to the pool.
pub open spec fn repaid(loan: LoanView) -> Result<(LoanView, Transfer), ProtocolError> {
    match principal_recovered(call_stored_at(loan.instructions, 0)) {
        Err(reason) => Err(reason),
        Ok(principal) => if amount_owed_of(principal) > u64::MAX {
            Err(ProtocolError::Overflow)
        } else {
            match moved(loan.borrower_ata, loan.protocol_ata, amount_owed_of(principal) as u64) {
                Err(reason) => Err(reason),
                Ok(after) => Ok(
                    (
                        LoanView { borrower_ata: after.0, protocol_ata: after.1, ..loan },
                        Transfer {
                            from: loan.borrower_ata.address,
                            to: loan.protocol_ata.address,
                            authority: Authority::Signer { holder: loan.borrower },
                            amount: amount_owed_of(principal) as u64,
                        },
                    ),
                ),
            }
        },
    }
}

/// Lends `borrow_amount` from the pool to the borrower, provided that the
/// batch ends in the repayment. Returns the movement for the host to carry
/// out. Where it refuses, the accounts are as they were.
pub fn borrow(ctx: &mut Loan, borrow_amount: u64) -> (done: Result<Transfer, ProtocolError>)
    ensures
        borrowed(old(ctx)@, borrow_amount) matches Ok(after) ==> done == Ok::<
            Transfer,
            ProtocolError,
        >(after.1) && final(ctx)@ == after.0,
        borrowed(old(ctx)@, borrow_amount) matches Err(reason) ==> done == Err::<
            Transfer,
            ProtocolError,
        >(reason) && final(ctx)@ == old(ctx)@,
{
    if borrow_amount == 0 {
        return Err(ProtocolError::InvalidAmount);
    }
    let mut pool = ctx.protocol_ata;
    let mut borrower = ctx.borrower_ata;
    match transfer(&mut pool, &mut borrower, borrow_amount) {
        Ok(_) => {},
        Err(reason) => {
            return Err(reason);
        },
    }
    let index: u16 = match ctx.instructions.current_index() {
        Ok(index) => index,
        Err(reason) => {
            return Err(reason);
        },
    };
    let current = ctx.instructions.call_at(index as usize);
    match check_running_call(&current) {
        Ok(_) => {},
        Err(reason) => {
            return Err(reason);
        },
    }
    let last = ctx.instructions.last_call();
    match check_settlement(&last, &ctx.borrower_ata.address, &ctx.protocol_ata.address) {
        Ok(_) => {},
        Err(reason) => {
            return Err(reason);
        },
    }
    let order = Transfer {
        from: ctx.protocol_ata.address,
        to: ctx.borrower_ata.address,
        authority: Authority::Derived { holder: ctx.protocol, bump: ctx.protocol_bump },
        amount: borrow_amount,
    };
    ctx.protocol_ata = pool;
    ctx.borrower_ata = borrower;
    Ok(order)
}

/// Pays back what the first call of the batch borrowed, and the fee on it,
/// from the borrower to the pool. Returns the movement for the host to carry
/// out. Where it refuses, the accounts are as they were.
pub fn repay(ctx: &mut Loan) -> (done: Result<Transfer, ProtocolError>)
    ensures
        repaid(old(ctx)@) matches Ok(after) ==> done == Ok::<Transfer, ProtocolError>(after.1)
            && final(ctx)@ == after.0,
        repaid(old(ctx)@) matches Err(reason) ==> done == Err::<Transfer, ProtocolError>(reason)
            && final(ctx)@ == old(ctx)@,
{
    let first = ctx.instructions.call_at(0);
    let principal: u64 = match recover_principal(&first) {
        Ok(principal) => principal,
        Err(reason) => {
            return Err(reason);
        },
    };
    let owed: u64 = match amount_owed(principal) {
        Ok(owed) => owed,
        Err(reason) => {
            return Err(reason);
        },
    };
    let mut borrower = ctx.borrower_ata;
    let mut pool = ctx.protocol_ata;
    match transfer(&mut borrower, &mut pool, owed) {
        Ok(_) => {},
        Err(reason) => {
            return Err(reason);
        },
    }
    let order = Transfer {
        from: ctx.borrower_ata.address,
        to: ctx.protocol_ata.address,
        authority: Authority::Signer { holder: ctx.borrower },
        amount: owed,
    };
    ctx.borrower_ata = borrower;
    ctx.protocol_ata = pool;
    Ok(order)
}

} // verus!
