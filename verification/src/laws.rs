//! What holds of the protocol whatever the batch and the balances are.

use vstd::prelude::*;
use crate::address::{program_address, Address};
use crate::batch::{
    call_count_of, call_stored_at, current_index_of, last_call_of, with_current_index, CallView,
    BORROWER_ATA_POSITION, PROTOCOL_ATA_POSITION,
};
use crate::bytes::le_value;
use crate::error::ProtocolError;
use crate::fee::{amount_owed_of, fee_of, lemma_fee_at_most_principal};
use crate::loan::{
    borrowed, repaid, running_call_checked, Loan, LoanView, BORROW_DISCRIMINATOR,
    REPAY_DISCRIMINATOR,
};
use crate::token::moved;

verus! {

/// Whether `call` is a call to `borrow` for `principal`.
pub open spec fn is_borrow_call(call: CallView, principal: u64) -> bool {
    &&& call.program_id == program_address()
    &&& call.has_tag(BORROW_DISCRIMINATOR@)
    &&& call.amount() == Some(principal as nat)
}

/// Whether `call` is a call to `repay` that names these two holding accounts.
pub open spec fn is_repay_call(call: CallView, borrower_ata: Address, protocol_ata: Address) -> bool {
    &&& call.program_id == program_address()
    &&& call.has_tag(REPAY_DISCRIMINATOR@)
    &&& call.account_at(BORROWER_ATA_POSITION as int) == Some(borrower_ata)
    &&& call.account_at(PROTOCOL_ATA_POSITION as int) == Some(protocol_ata)
}

/// Whether the bytes `data` record the batch of a `borrow` for `principal`
/// and then a `repay` for these two holding accounts, with the call at
/// `running` as the one that runs.
pub open spec fn is_loan_batch(
    data: Seq<u8>,
    running: nat,
    principal: u64,
    borrower_ata: Address,
    protocol_ata: Address,
) -> bool {
    &&& call_count_of(data) == 2
    &&& current_index_of(data) == Some(running)
    &&& call_stored_at(data, 0) matches Some(first) && is_borrow_call(first, principal)
    &&& call_stored_at(data, 1) matches Some(last) && is_repay_call(
        last,
        borrower_ata,
        protocol_ata,
    )
}

/// Whether `borrow` gets as far as looking at the last call of the batch:
/// the amount is more than nothing, the pool can pay it out, and the call
/// that is running is one of this program.
pub open spec fn reaches_last_call(loan: LoanView, amount: u64) -> bool {
    &&& amount > 0
    &&& moved(loan.protocol_ata, loan.borrower_ata, amount) is Ok
    &&& current_index_of(loan.instructions) matches Some(index) && running_call_checked(
        call_stored_at(loan.instructions, index),
    ) is Ok
}

/// The accounts after `borrow` for `principal` and then `repay`, where
/// `repay` sees the batch as the bytes `settling` record it, or the reason
/// for which the first of the two that refuses does so.
pub open spec fn taken_and_settled(before: LoanView, settling: Seq<u8>, principal: u64) -> Result<
    LoanView,
    ProtocolError,
> {
    match borrowed(before, principal) {
        Err(reason) => Err(reason),
        Ok(lent) => match repaid(LoanView { instructions: settling, ..lent.0 }) {
            Err(reason) => Err(reason),
            Ok(settled) => Ok(settled.0),
        },
    }
}

/// The two entry points carry different tags.
pub proof fn law_tags_differ()
    ensures
        BORROW_DISCRIMINATOR@ != REPAY_DISCRIMINATOR@,
{
    assert(BORROW_DISCRIMINATOR@[0] == 228);
    assert(REPAY_DISCRIMINATOR@[0] == 234);
}

/// A loan that is taken and settled in one batch costs the borrower the fee
/// and nothing else: where the pool holds the principal, the borrower holds
/// the fee, and both holdings together fit in 64 bits, `borrow` and then
/// `repay` both succeed, the pool ends with the fee more than it had, and
/// the borrower with the fee less. `settling` is the record of the batch as
/// `repay` sees it, with the second call as the one that runs.
pub proof fn law_round_trip(before: LoanView, settling: Seq<u8>, principal: u64)
    requires
        principal > 0,
        is_loan_batch(
            before.instructions,
            0,
            principal,
            before.borrower_ata.address,
            before.protocol_ata.address,
        ),
        is_loan_batch(
            settling,
            1,
            principal,
            before.borrower_ata.address,
            before.protocol_ata.address,
        ),
        before.protocol_ata.amount >= principal,
        before.borrower_ata.amount >= fee_of(principal as nat),
        before.protocol_ata.amount + before.borrower_ata.amount <= u64::MAX,
    ensures
        taken_and_settled(before, settling, principal) matches Ok(after)
            && after.protocol_ata.amount == before.protocol_ata.amount + fee_of(principal as nat)
            && after.borrower_ata.amount == before.borrower_ata.amount - fee_of(
            principal as nat,
        ),
{
    lemma_fee_at_most_principal(principal as nat);
    let lent = borrowed(before, principal);
    assert(lent is Ok);
    let during = LoanView { instructions: settling, ..lent->Ok_0.0 };
    assert(amount_owed_of(principal as nat) <= u64::MAX);
    assert(repaid(during) is Ok);
}

/// A loan so small that the fee on it rounds down to nothing leaves the
/// borrower's holding as it was before the batch.
pub proof fn law_round_trip_without_fee(before: LoanView, settling: Seq<u8>, principal: u64)
    requires
        principal > 0,
        fee_of(principal as nat) == 0,
        is_loan_batch(
            before.instructions,
            0,
            principal,
            before.borrower_ata.address,
            before.protocol_ata.address,
        ),
        is_loan_batch(
            settling,
            1,
            principal,
            before.borrower_ata.address,
            before.protocol_ata.address,
        ),
        before.protocol_ata.amount >= principal,
        before.protocol_ata.amount + before.borrower_ata.amount <= u64::MAX,
    ensures
        taken_and_settled(before, settling, principal) matches Ok(after) && after.borrower_ata
            == before.borrower_ata && after.protocol_ata == before.protocol_ata,
{
    law_round_trip(before, settling, principal);
}

/// A loan of nothing is refused with `InvalidAmount`, whatever the batch and
/// the balances are.
pub proof fn law_nothing_is_not_lent(loan: LoanView)
    ensures
        borrowed(loan, 0) == Err::<(LoanView, crate::token::Transfer), ProtocolError>(
            ProtocolError::InvalidAmount,
        ),
{
}

/// Nothing is lent unless the batch ends in a call that carries the tag of
/// `repay`. Where `borrow` gets as far as the last call and the batch has
/// none that can be read, the reason is `MissingRepayIx`.
pub proof fn law_borrow_needs_repayment(loan: LoanView, amount: u64)
    ensures
        !(last_call_of(loan.instructions) matches Some(last) && last.has_tag(
            REPAY_DISCRIMINATOR@,
        )) ==> borrowed(loan, amount) is Err,
        reaches_last_call(loan, amount) && last_call_of(loan.instructions) is None ==> borrowed(
            loan,
            amount,
        ) == Err::<(LoanView, crate::token::Transfer), ProtocolError>(
            ProtocolError::MissingRepayIx,
        ),
{
}

/// Nothing is paid back unless the batch starts with a call that carries
/// the tag of `borrow`. Where the batch has no first call that can be read,
/// the reason is `MissingBorrowIx`; where its first call is one to `repay`,
/// it is refused as well.
pub proof fn law_repay_needs_borrow(loan: LoanView)
    ensures
        !(call_stored_at(loan.instructions, 0) matches Some(first) && first.has_tag(
            BORROW_DISCRIMINATOR@,
        )) ==> repaid(loan) is Err,
        call_stored_at(loan.instructions, 0) is None ==> repaid(loan) == Err::<
            (LoanView, crate::token::Transfer),
            ProtocolError,
        >(ProtocolError::MissingBorrowIx),
        (call_stored_at(loan.instructions, 0) matches Some(first) && first.has_tag(
            REPAY_DISCRIMINATOR@,
        )) ==> repaid(loan) is Err,
{
    law_tags_differ();
}

/// A repayment for other holding accounts does not cover a loan. Where
/// `borrow` gets as far as the last call, and that call is one to `repay` of
/// this program, it is refused with `InvalidBorrowerAta` if the call names
/// another account, or none, where the borrower's holding belongs, and with
/// `InvalidProtocolAta` if it names the borrower's but not the pool's.
pub proof fn law_repayment_is_for_this_loan(loan: LoanView, amount: u64, last: CallView)
    requires
        reaches_last_call(loan, amount),
        last_call_of(loan.instructions) == Some(last),
        last.program_id == program_address(),
        last.has_tag(REPAY_DISCRIMINATOR@),
    ensures
        last.account_at(BORROWER_ATA_POSITION as int) != Some(loan.borrower_ata.address)
            ==> borrowed(loan, amount) == Err::<(LoanView, crate::token::Transfer), ProtocolError>(
            ProtocolError::InvalidBorrowerAta,
        ),
        last.account_at(BORROWER_ATA_POSITION as int) == Some(loan.borrower_ata.address)
            && last.account_at(PROTOCOL_ATA_POSITION as int) != Some(loan.protocol_ata.address)
            ==> borrowed(loan, amount) == Err::<(LoanView, crate::token::Transfer), ProtocolError>(
            ProtocolError::InvalidProtocolAta,
        ),
        is_repay_call(last, loan.borrower_ata.address, loan.protocol_ata.address) ==> borrowed(
            loan,
            amount,
        ) is Ok,
{
}

/// What is owed on a loan fits in 64 bits exactly for the principals up to
/// 17 568 327 689 247 192 015: for these `amount_owed` gives the amount, and
/// for every larger one it refuses with `Overflow`.
pub proof fn law_owed_fits_up_to_a_bound(principal: u64)
    ensures
        amount_owed_of(principal as nat) <= u64::MAX <==> principal <= 17_568_327_689_247_192_015u64,
        fee_of(principal as nat) <= u64::MAX,
{
    lemma_fee_at_most_principal(principal as nat);
}

/// An index that is written into a record is the index that is read from
/// it, and writing it changes neither the length of the record nor the
/// count that the record announces, as long as the record has room for both.
pub proof fn law_written_index_is_read(data: Seq<u8>, index: u16)
    requires
        data.len() >= 2,
    ensures
        with_current_index(data, index).len() == data.len(),
        current_index_of(with_current_index(data, index)) == Some(index as nat),
        data.len() >= 4 ==> call_count_of(with_current_index(data, index)) == call_count_of(data),
{
    let stored = with_current_index(data, index);
    let tail = stored.subrange(stored.len() - 2, stored.len() as int);
    assert(tail.len() == 2);
    assert(tail[0] == (index % 256) as u8);
    assert(tail[1] == (index / 256) as u8);
    assert(tail.drop_first().len() == 1);
    assert(tail.drop_first()[0] == tail[1]);
    assert(tail.drop_first().drop_first().len() == 0);
    reveal_with_fuel(le_value, 3);
    if data.len() >= 4 {
        assert(stored.subrange(0, 2) =~= data.subrange(0, 2));
    }
}

/// The outcome depends on nothing but the accounts and the batch: two runs
/// that start from the same balances and the same record of the batch end
/// alike, in success or refusal, in the balances and in the movement
/// ordered.
pub proof fn law_same_start_same_end(one: Loan, other: Loan, amount: u64)
    requires
        one@ == other@,
    ensures
        borrowed(one@, amount) == borrowed(other@, amount),
        repaid(one@) == repaid(other@),
{
}

} // verus!
