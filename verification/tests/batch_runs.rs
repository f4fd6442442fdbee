//! Whole batches, put together as a host would, run through both entry points.

use anchor_spl::associated_token::get_associated_token_address;
use flash_loan::address::{Address, ID_BYTES};
use flash_loan::batch::{
    first_naming, get_account_instructions_sysvar, instructions_sysvar_id, AccountRef, Call,
    Instructions,
    INSTRUCTIONS_SYSVAR_ID_BYTES,
};
use flash_loan::error::ProtocolError;
use flash_loan::loan::{borrow, repay, Loan, BORROW_DISCRIMINATOR, REPAY_DISCRIMINATOR};
use flash_loan::token::{Authority, TokenAccount, Transfer};
use solana_program::instruction::{AccountMeta, Instruction};
use solana_program::pubkey::Pubkey;
#[allow(deprecated)]
use solana_program::sysvar::instructions::{
    construct_instructions_data, store_current_index, BorrowedAccountMeta, BorrowedInstruction,
};

fn address(key: &Pubkey) -> Address {
    Address::new(key.to_bytes())
}

struct Parties {
    program: Pubkey,
    borrower: Pubkey,
    protocol: Pubkey,
    bump: u8,
    mint: Pubkey,
    borrower_ata: Pubkey,
    protocol_ata: Pubkey,
    system_program: Pubkey,
    token_program: Pubkey,
    associated_token_program: Pubkey,
}

fn parties() -> Parties {
    let program = Pubkey::new_from_array(ID_BYTES);
    let borrower = Pubkey::new_from_array([2u8; 32]);
    let (protocol, bump) = Pubkey::find_program_address(&[b"protocol"], &program);
    let mint = Pubkey::new_from_array([3u8; 32]);
    Parties {
        program,
        borrower,
        protocol,
        bump,
        mint,
        borrower_ata: get_associated_token_address(&borrower, &mint),
        protocol_ata: get_associated_token_address(&protocol, &mint),
        system_program: solana_program::system_program::id(),
        token_program: anchor_spl::token::ID,
        associated_token_program: anchor_spl::associated_token::ID,
    }
}

fn account_list(p: &Parties) -> Vec<AccountMeta> {
    vec![
        AccountMeta::new(p.borrower, true),
        AccountMeta::new(p.protocol, false),
        AccountMeta::new_readonly(p.mint, false),
        AccountMeta::new_readonly(p.borrower_ata, false),
        AccountMeta::new(p.protocol_ata, false),
        AccountMeta::new(solana_program::sysvar::instructions::id(), false),
        AccountMeta::new_readonly(p.associated_token_program, false),
        AccountMeta::new_readonly(p.token_program, false),
        AccountMeta::new_readonly(p.system_program, false),
    ]
}

fn borrow_instruction(p: &Parties, amount: u64) -> Instruction {
    Instruction::new_with_bytes(
        p.program,
        &[&BORROW_DISCRIMINATOR[..], &amount.to_le_bytes()[..]].concat(),
        account_list(p),
    )
}

fn repay_instruction(p: &Parties) -> Instruction {
    Instruction::new_with_bytes(p.program, &[&REPAY_DISCRIMINATOR[..]].concat(), account_list(p))
}

fn record_of(instructions: &[Instruction]) -> (Address, Vec<u8>) {
    let calls: Vec<Call> = instructions.iter().map(as_call).collect();
    let (address, record) = get_account_instructions_sysvar(&calls);
    (address, record.data)
}

#[allow(deprecated)]
fn written_by_the_host(instructions: &[Instruction]) -> Vec<u8> {
    construct_instructions_data(
        instructions
            .iter()
            .map(|instruction| BorrowedInstruction {
                program_id: &instruction.program_id,
                accounts: instruction
                    .accounts
                    .iter()
                    .map(|meta| BorrowedAccountMeta {
                        pubkey: &meta.pubkey,
                        is_signer: meta.is_signer,
                        is_writable: meta.is_writable,
                    })
                    .collect(),
                data: &instruction.data,
            })
            .collect::<Vec<_>>()
            .as_slice(),
    )
}

#[allow(deprecated)]
fn running(mut data: Vec<u8>, index: u16) -> Instructions {
    store_current_index(&mut data, index);
    Instructions::new(data)
}

fn loan(p: &Parties, pool: u64, borrower: u64, data: Vec<u8>) -> Loan {
    Loan {
        borrower: address(&p.borrower),
        protocol: address(&p.protocol),
        protocol_bump: p.bump,
        mint: address(&p.mint),
        borrower_ata: TokenAccount { address: address(&p.borrower_ata), amount: borrower },
        protocol_ata: TokenAccount { address: address(&p.protocol_ata), amount: pool },
        instructions: Instructions::new(data),
        token_program: address(&p.token_program),
        associated_token_program: address(&p.associated_token_program),
        system_program: address(&p.system_program),
    }
}

fn as_call(instruction: &Instruction) -> Call {
    Call {
        program_id: address(&instruction.program_id),
        accounts: instruction
            .accounts
            .iter()
            .map(|meta| AccountRef {
                address: address(&meta.pubkey),
                is_signer: meta.is_signer,
                is_writable: meta.is_writable,
            })
            .collect(),
        data: instruction.data.clone(),
    }
}

#[test]
fn create_class() {
    let p = parties();
    let borrow_instruction = borrow_instruction(&p, 100_000_000);
    let repay_instruction = repay_instruction(&p);

    let (instruction_sysvar_pubkey, instruction_sysvar_account) =
        record_of(&[borrow_instruction.clone(), repay_instruction.clone()]);
    assert_eq!(instruction_sysvar_pubkey, address(&solana_program::sysvar::instructions::id()));

    let mut ctx = loan(&p, 1_000_000_000, 1_000_000_000, instruction_sysvar_account.clone());
    assert_eq!(ctx.instructions.current_index(), Ok(0));

    let lent = borrow(&mut ctx, 100_000_000);
    assert_eq!(
        lent,
        Ok(Transfer {
            from: address(&p.protocol_ata),
            to: address(&p.borrower_ata),
            authority: Authority::Derived { holder: address(&p.protocol), bump: p.bump },
            amount: 100_000_000,
        })
    );
    assert_eq!(ctx.protocol_ata.amount, 900_000_000);
    assert_eq!(ctx.borrower_ata.amount, 1_100_000_000);

    ctx.instructions = running(instruction_sysvar_account, 1);
    let settled = repay(&mut ctx);
    assert_eq!(
        settled,
        Ok(Transfer {
            from: address(&p.borrower_ata),
            to: address(&p.protocol_ata),
            authority: Authority::Signer { holder: address(&p.borrower) },
            amount: 105_000_000,
        })
    );
    assert_eq!(ctx.protocol_ata.amount, 1_005_000_000);
    assert_eq!(ctx.borrower_ata.amount, 995_000_000);
}

#[test]
fn the_record_is_the_hosts_with_the_running_call_marked() {
    let p = parties();
    assert_eq!(solana_program::sysvar::instructions::id().to_bytes(), INSTRUCTIONS_SYSVAR_ID_BYTES);
    assert_eq!(instructions_sysvar_id(), Address::new(INSTRUCTIONS_SYSVAR_ID_BYTES));

    let mut stranger = borrow_instruction(&p, 7);
    stranger.accounts.remove(5);
    let named = repay_instruction(&p);

    // The second call is the first that names the record's account.
    let batch = [stranger.clone(), named.clone(), named.clone()];
    let (_, data) = record_of(&batch);
    let mut expected = written_by_the_host(&batch);
    assert_ne!(data, expected);
    let end = expected.len();
    expected[end - 2] = 1;
    assert_eq!(data, expected);
    assert_eq!(Instructions::new(data).current_index(), Ok(1));

    // No call names it: the record is as the writer left it.
    let batch = [stranger.clone(), stranger.clone()];
    let (_, data) = record_of(&batch);
    assert_eq!(data, written_by_the_host(&batch));
    assert_eq!(Instructions::new(data).total_calls(), 2);

    let (_, data) = record_of(&[]);
    assert_eq!(data, vec![0, 0, 0, 0]);
}

#[test]
fn the_first_call_that_names_an_account_is_found() {
    let p = parties();
    let mut stranger = borrow_instruction(&p, 7);
    stranger.accounts.remove(5);
    let calls = vec![as_call(&stranger), as_call(&repay_instruction(&p)), as_call(&repay_instruction(&p))];
    assert_eq!(first_naming(&calls, &instructions_sysvar_id()), Some(1));
    assert_eq!(first_naming(&calls, &address(&p.borrower)), Some(0));
    assert_eq!(first_naming(&calls, &Address::new([77; 32])), None);
    assert_eq!(first_naming(&vec![], &instructions_sysvar_id()), None);
    assert!(calls[1].names(&instructions_sysvar_id()));
    assert!(!calls[0].names(&instructions_sysvar_id()));
    assert!(calls[0].names(&address(&p.system_program)));
}

#[test]
fn the_record_is_read_as_the_host_wrote_it() {
    let p = parties();
    let first = borrow_instruction(&p, 7);
    let second = repay_instruction(&p);
    let (_, data) = record_of(&[first.clone(), second.clone()]);
    let batch = running(data, 1);
    assert_eq!(batch.total_calls(), 2);
    assert_eq!(batch.current_index(), Ok(1));
    assert_eq!(batch.call_at(0), Some(as_call(&first)));
    assert_eq!(batch.call_at(1), Some(as_call(&second)));
    assert_eq!(batch.last_call(), Some(as_call(&second)));
    assert_eq!(batch.call_at(2), None);
    assert_eq!(batch.call_at(usize::MAX), None);
}

#[test]
fn the_ordered_seeds_derive_the_pools_owner() {
    let p = parties();
    let (_, data) = record_of(&[borrow_instruction(&p, 5), repay_instruction(&p)]);
    let mut ctx = loan(&p, 50, 60, data);
    let order = borrow(&mut ctx, 5).unwrap();
    let seeds = order.authority.signer_seeds();
    let seeds: Vec<&[u8]> = seeds.iter().map(|seed| seed.as_slice()).collect();
    assert_eq!(Pubkey::create_program_address(&seeds, &p.program), Ok(p.protocol));
    assert_eq!(order.authority.holder(), address(&p.protocol));
}

#[test]
fn the_named_accounts_sit_at_their_positions() {
    let p = parties();
    let call = as_call(&repay_instruction(&p));
    assert_eq!(call.borrower_ata(), Some(address(&p.borrower_ata)));
    assert_eq!(call.protocol_ata(), Some(address(&p.protocol_ata)));
    assert_eq!(call.account_at(0), Some(address(&p.borrower)));
    assert_eq!(call.account_at(8), Some(address(&p.system_program)));
    assert_eq!(call.account_at(9), None);
}

#[test]
fn a_record_too_short_names_no_running_call() {
    assert_eq!(Instructions::new(vec![]).current_index(), Err(ProtocolError::InvalidInstructionIndex));
    assert_eq!(Instructions::new(vec![9]).current_index(), Err(ProtocolError::InvalidInstructionIndex));
    assert_eq!(Instructions::new(vec![]).total_calls(), 0);
    assert_eq!(Instructions::new(vec![9]).total_calls(), 0);
    assert_eq!(Instructions::new(vec![9]).call_at(0), None);
    assert_eq!(Instructions::new(vec![9]).last_call(), None);
    assert_eq!(Instructions::new(vec![3, 1]).current_index(), Ok(259));
    assert_eq!(Instructions::new(vec![3, 1]).total_calls(), 259);
}

#[test]
fn a_loan_of_nothing_is_refused_and_nothing_moves() {
    let p = parties();
    let (_, data) = record_of(&[borrow_instruction(&p, 0), repay_instruction(&p)]);
    let mut ctx = loan(&p, 50, 60, data);
    let before = ctx.clone();
    assert_eq!(borrow(&mut ctx, 0), Err(ProtocolError::InvalidAmount));
    assert_eq!(ctx, before);
}

#[test]
fn a_pool_that_holds_too_little_lends_nothing() {
    let p = parties();
    let (_, data) = record_of(&[borrow_instruction(&p, 51), repay_instruction(&p)]);
    let mut ctx = loan(&p, 50, 60, data);
    let before = ctx.clone();
    assert_eq!(borrow(&mut ctx, 51), Err(ProtocolError::NotEnoughFunds));
    assert_eq!(ctx, before);
    assert!(borrow(&mut ctx, 50).is_ok());
    assert_eq!(ctx.protocol_ata.amount, 0);
    assert_eq!(ctx.borrower_ata.amount, 110);
}

#[test]
fn a_holding_never_wraps_around() {
    let p = parties();
    let (_, data) = record_of(&[borrow_instruction(&p, 2), repay_instruction(&p)]);
    let mut ctx = loan(&p, 50, u64::MAX - 1, data);
    let before = ctx.clone();
    assert_eq!(borrow(&mut ctx, 2), Err(ProtocolError::Overflow));
    assert_eq!(ctx, before);
}

#[test]
fn a_borrow_alone_is_refused() {
    let p = parties();
    let (_, data) = record_of(&[borrow_instruction(&p, 10)]);
    let mut ctx = loan(&p, 50, 60, data);
    let before = ctx.clone();
    assert_eq!(borrow(&mut ctx, 10), Err(ProtocolError::InvalidIx));
    assert_eq!(ctx, before);
}

#[test]
fn a_batch_without_a_last_call_misses_the_repayment() {
    let p = parties();
    let (_, mut data) = record_of(&[borrow_instruction(&p, 10), repay_instruction(&p)]);
    // Break the record off inside the second call, and name the first as running.
    data.truncate(data.len() - 40);
    let mut ctx = loan(&p, 50, 60, vec![]);
    ctx.instructions = running(data, 0);
    let before = ctx.clone();
    assert!(ctx.instructions.call_at(0).is_some());
    assert_eq!(ctx.instructions.call_at(1), None);
    assert_eq!(borrow(&mut ctx, 10), Err(ProtocolError::MissingRepayIx));
    assert_eq!(ctx, before);
}

#[test]
fn a_running_call_that_cannot_be_read_is_refused() {
    let p = parties();
    let (_, data) = record_of(&[borrow_instruction(&p, 10), repay_instruction(&p)]);
    let mut ctx = loan(&p, 50, 60, vec![]);
    ctx.instructions = running(data, 2);
    assert_eq!(borrow(&mut ctx, 10), Err(ProtocolError::InvalidInstructionIndex));
    ctx.instructions = Instructions::new(vec![0]);
    assert_eq!(borrow(&mut ctx, 10), Err(ProtocolError::InvalidInstructionIndex));
}

#[test]
fn a_borrow_run_from_inside_another_program_is_refused() {
    let p = parties();
    let mut outer = borrow_instruction(&p, 10);
    outer.program_id = Pubkey::new_from_array([9u8; 32]);
    let (_, data) = record_of(&[outer, repay_instruction(&p)]);
    let mut ctx = loan(&p, 50, 60, data);
    assert_eq!(borrow(&mut ctx, 10), Err(ProtocolError::ProgramMismatch));
}

#[test]
fn a_last_call_of_another_program_is_refused() {
    let p = parties();
    let mut last = repay_instruction(&p);
    last.program_id = Pubkey::new_from_array([9u8; 32]);
    let (_, data) = record_of(&[borrow_instruction(&p, 10), last]);
    let mut ctx = loan(&p, 50, 60, data);
    assert_eq!(borrow(&mut ctx, 10), Err(ProtocolError::InvalidProgram));
}

#[test]
fn a_last_call_with_a_short_or_wrong_tag_is_refused() {
    let p = parties();
    let mut last = repay_instruction(&p);
    last.data = REPAY_DISCRIMINATOR[..7].to_vec();
    let (_, data) = record_of(&[borrow_instruction(&p, 10), last]);
    let mut ctx = loan(&p, 50, 60, data);
    assert_eq!(borrow(&mut ctx, 10), Err(ProtocolError::InvalidIx));

    let mut last = repay_instruction(&p);
    last.data[7] ^= 1;
    let (_, data) = record_of(&[borrow_instruction(&p, 10), last]);
    let mut ctx = loan(&p, 50, 60, data);
    assert_eq!(borrow(&mut ctx, 10), Err(ProtocolError::InvalidIx));
}

#[test]
fn a_repayment_for_other_holdings_is_refused() {
    let p = parties();
    let stranger = Pubkey::new_from_array([7u8; 32]);

    let mut last = repay_instruction(&p);
    last.accounts[3].pubkey = stranger;
    let (_, data) = record_of(&[borrow_instruction(&p, 10), last]);
    let mut ctx = loan(&p, 50, 60, data);
    assert_eq!(borrow(&mut ctx, 10), Err(ProtocolError::InvalidBorrowerAta));

    let mut last = repay_instruction(&p);
    last.accounts[4].pubkey = stranger;
    let (_, data) = record_of(&[borrow_instruction(&p, 10), last]);
    let mut ctx = loan(&p, 50, 60, data);
    assert_eq!(borrow(&mut ctx, 10), Err(ProtocolError::InvalidProtocolAta));

    let mut last = repay_instruction(&p);
    last.accounts[3].pubkey = stranger;
    last.accounts[4].pubkey = stranger;
    let (_, data) = record_of(&[borrow_instruction(&p, 10), last]);
    let mut ctx = loan(&p, 50, 60, data);
    assert_eq!(borrow(&mut ctx, 10), Err(ProtocolError::InvalidBorrowerAta));
}

#[test]
fn a_repayment_that_names_too_few_accounts_is_refused() {
    let p = parties();
    let mut last = repay_instruction(&p);
    last.accounts.truncate(3);
    let (_, data) = record_of(&[borrow_instruction(&p, 10), last]);
    let mut ctx = loan(&p, 50, 60, data);
    assert_eq!(borrow(&mut ctx, 10), Err(ProtocolError::InvalidBorrowerAta));

    let mut last = repay_instruction(&p);
    last.accounts.truncate(4);
    let (_, data) = record_of(&[borrow_instruction(&p, 10), last]);
    let mut ctx = loan(&p, 50, 60, data);
    assert_eq!(borrow(&mut ctx, 10), Err(ProtocolError::InvalidProtocolAta));
}

#[test]
fn a_repay_as_first_call_is_refused() {
    let p = parties();
    let (_, data) = record_of(&[repay_instruction(&p)]);
    let mut ctx = loan(&p, 50, 60, data);
    let before = ctx.clone();
    assert_eq!(repay(&mut ctx), Err(ProtocolError::InvalidIx));
    assert_eq!(ctx, before);
}

#[test]
fn a_batch_without_a_first_call_misses_the_borrow() {
    let p = parties();
    let mut ctx = loan(&p, 50, 60, vec![]);
    assert_eq!(repay(&mut ctx), Err(ProtocolError::MissingBorrowIx));
    let (_, data) = record_of(&[]);
    ctx.instructions = Instructions::new(data);
    assert_eq!(ctx.instructions.total_calls(), 0);
    assert_eq!(repay(&mut ctx), Err(ProtocolError::MissingBorrowIx));
    assert_eq!(borrow(&mut ctx, 1), Err(ProtocolError::InvalidInstructionIndex));
}

#[test]
fn a_first_call_of_another_program_is_refused() {
    let p = parties();
    let mut first = borrow_instruction(&p, 10);
    first.program_id = Pubkey::new_from_array([9u8; 32]);
    let (_, data) = record_of(&[first, repay_instruction(&p)]);
    let mut ctx = loan(&p, 50, 60, data);
    assert_eq!(repay(&mut ctx), Err(ProtocolError::InvalidProgram));
}

#[test]
fn a_first_call_without_a_whole_amount_is_refused() {
    let p = parties();
    let mut first = borrow_instruction(&p, 10);
    first.data.truncate(15);
    let (_, data) = record_of(&[first, repay_instruction(&p)]);
    let mut ctx = loan(&p, 50, 60, data);
    assert_eq!(repay(&mut ctx), Err(ProtocolError::InvalidIx));
}

#[test]
fn an_amount_owed_that_does_not_fit_is_refused() {
    let p = parties();
    let (_, data) = record_of(&[borrow_instruction(&p, u64::MAX), repay_instruction(&p)]);
    let mut ctx = loan(&p, 0, u64::MAX, data);
    let before = ctx.clone();
    assert_eq!(repay(&mut ctx), Err(ProtocolError::Overflow));
    assert_eq!(ctx, before);
}

#[test]
fn a_borrower_who_cannot_pay_the_fee_settles_nothing() {
    let p = parties();
    let (_, data) = record_of(&[borrow_instruction(&p, 1_000), repay_instruction(&p)]);
    let mut ctx = loan(&p, 0, 1_049, data);
    let before = ctx.clone();
    assert_eq!(repay(&mut ctx), Err(ProtocolError::NotEnoughFunds));
    assert_eq!(ctx, before);
    ctx.borrower_ata.amount = 1_050;
    assert!(repay(&mut ctx).is_ok());
    assert_eq!(ctx.borrower_ata.amount, 0);
    assert_eq!(ctx.protocol_ata.amount, 1_050);
}

#[test]
fn a_small_loan_costs_nothing() {
    let p = parties();
    let (_, data) = record_of(&[borrow_instruction(&p, 19), repay_instruction(&p)]);
    let mut ctx = loan(&p, 19, 0, data.clone());
    assert!(borrow(&mut ctx, 19).is_ok());
    ctx.instructions = running(data, 1);
    assert_eq!(repay(&mut ctx).map(|order| order.amount), Ok(19));
    assert_eq!(ctx.protocol_ata.amount, 19);
    assert_eq!(ctx.borrower_ata.amount, 0);
}

#[test]
fn the_same_batch_ends_the_same_way_twice() {
    let p = parties();
    let (_, data) = record_of(&[borrow_instruction(&p, 400), repay_instruction(&p)]);
    let mut one = loan(&p, 1_000, 30, data.clone());
    let mut other = loan(&p, 1_000, 30, data.clone());
    assert_eq!(borrow(&mut one, 400), borrow(&mut other, 400));
    assert_eq!(one, other);
    one.instructions = running(data.clone(), 1);
    other.instructions = running(data, 1);
    assert_eq!(repay(&mut one), repay(&mut other));
    assert_eq!(one, other);
    assert_eq!(one.protocol_ata.amount, 1_020);
    assert_eq!(one.borrower_ata.amount, 10);
}
