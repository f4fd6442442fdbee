//! A read-only look into the batch that a call runs in.
//!
//! The host hands every call the batch it belongs to as one byte string: the
//! number of calls, a table of where each call starts, the calls, and at the
//! very end the index of the call that is running. Whoever put the batch
//! together chose these bytes, so nothing read from them is believed before
//! it has been checked.

use vstd::prelude::*;
use solana_program::account_info::AccountInfo;
use solana_program::instruction::{AccountMeta, Instruction};
use solana_program::pubkey::Pubkey;
use solana_program::sysvar::instructions::{
    construct_instructions_data, load_current_index_checked, load_instruction_at_checked,
    store_current_index, BorrowedAccountMeta, BorrowedInstruction,
};
use crate::address::Address;
use crate::bytes::{le_value, read_le, starts_with};
use crate::error::ProtocolError;

verus! {

/// One account that a call names, with what the call may do to it.
#[derive(Clone, Copy, Debug, PartialEq, Eq)]
pub struct AccountRef {
    pub address: Address,
    pub is_signer: bool,
    pub is_writable: bool,
}

/// One entry of a batch: the program it addresses, the accounts it names, in
/// order, and a payload that only that program interprets.
#[derive(Clone, Debug, PartialEq, Eq)]
pub struct Call {
    pub program_id: Address,
    pub accounts: Vec<AccountRef>,
    pub data: Vec<u8>,
}

/// A call as a mathematical value.
pub ghost struct CallView {
    pub program_id: Address,
    pub accounts: Seq<AccountRef>,
    pub data: Seq<u8>,
}

impl View for Call {
    type V = CallView;

    open spec fn view(&self) -> CallView {
        CallView { program_id: self.program_id, accounts: self.accounts@, data: self.data@ }
    }
}

/// The bytes of the address of the account in which the host keeps the
/// record of the batch.
pub const INSTRUCTIONS_SYSVAR_ID_BYTES: [u8; 32] = [
    6, 167, 213, 23, 24, 123, 209, 102, 53, 218, 212, 4, 85, 253, 194, 192,
    193, 36, 198, 143, 33, 86, 117, 165, 219, 186, 203, 95, 8, 0, 0, 0,
];

/// The address of the account in which the host keeps the record of the
/// batch.
pub open spec fn instructions_sysvar_address() -> Address {
    Address { bytes: INSTRUCTIONS_SYSVAR_ID_BYTES }
}

/// The address of the account in which the host keeps the record of the
/// batch.
pub fn instructions_sysvar_id() -> (address: Address)
    ensures
        address == instructions_sysvar_address(),
{
    Address { bytes: INSTRUCTIONS_SYSVAR_ID_BYTES }
}

/// Where a call of this program names the borrower's holding account.
pub const BORROWER_ATA_POSITION: usize = 3;

/// Where a call of this program names the pool's holding account.
pub const PROTOCOL_ATA_POSITION: usize = 4;

impl CallView {
    /// The address that the call names at `position`, if it names that many.
    pub open spec fn account_at(self, position: int) -> Option<Address> {
        if 0 <= position < self.accounts.len() {
            Some(self.accounts[position].address)
        } else {
            None
        }
    }

    /// Whether the call names `address` among its accounts.
    pub open spec fn names(self, address: Address) -> bool {
        exists|k: int| 0 <= k < self.accounts.len() && (#[trigger] self.accounts[k]).address == address
    }

    /// Whether the payload starts with the eight bytes `tag`.
    pub open spec fn has_tag(self, tag: Seq<u8>) -> bool {
        self.data.len() >= 8 && self.data.subrange(0, 8) == tag
    }

    /// The amount that the payload carries behind its tag, if it is long
    /// enough to carry one.
    pub open spec fn amount(self) -> Option<nat> {
        if self.data.len() >= 16 {
            Some(le_value(self.data.subrange(8, 16)))
        } else {
            None
        }
    }
}

impl Call {
    /// The address that the call names at `position`, if it names that many.
    pub fn account_at(&self, position: usize) -> (found: Option<Address>)
        ensures
            found == self@.account_at(position as int),
    {
        if position < self.accounts.len() {
            Some(self.accounts[position].address)
        } else {
            None
        }
    }

    /// Whether the call names `address` among its accounts.
    pub fn names(&self, address: &Address) -> (named: bool)
        ensures
            named == self@.names(*address),
    {
        let mut k: usize = 0;
        while k < self.accounts.len()
            invariant
                k <= self.accounts.len(),
                forall|j: int| 0 <= j < k ==> (#[trigger] self.accounts@[j]).address != *address,
            decreases self.accounts.len() - k,
        {
            if self.accounts[k].address.same_as(address) {
                assert(self@.accounts[k as int].address == *address);
                return true;
            }
            k += 1;
        }
        false
    }

    /// The borrower's holding account as this call names it.
    pub fn borrower_ata(&self) -> (found: Option<Address>)
        ensures
            found == self@.account_at(BORROWER_ATA_POSITION as int),
    {
        self.account_at(BORROWER_ATA_POSITION)
    }

    /// The pool's holding account as this call names it.
    pub fn protocol_ata(&self) -> (found: Option<Address>)
        ensures
            found == self@.account_at(PROTOCOL_ATA_POSITION as int),
    {
        self.account_at(PROTOCOL_ATA_POSITION)
    }

    /// Whether the payload starts with the eight bytes of `tag`.
    pub fn has_tag(&self, tag: &[u8; 8]) -> (tagged: bool)
        ensures
            tagged == self@.has_tag(tag@),
    {
        starts_with(&self.data, tag)
    }

    /// The amount that the payload carries behind its tag: bytes 8 to 16,
    /// least significant first.
    pub fn amount(&self) -> (found: Option<u64>)
        ensures
            self@.amount() matches Some(n) ==> (found matches Some(v) && v as nat == n),
            self@.amount() is None ==> found is None,
    {
        read_le(&self.data, 8, 8)
    }
}

/// What a batch holds at `index`, as the host's own reader finds it in the
/// bytes `data`: nothing where `data` holds no call there or cannot be read
/// to the end of that call.
pub uninterp spec fn call_stored_at(data: Seq<u8>, index: nat) -> Option<CallView>;

/// How many calls the bytes `data` announce: their first two bytes, least
/// significant first, and none where `data` is too short to say.
pub open spec fn call_count_of(data: Seq<u8>) -> nat {
    if data.len() < 2 {
        0
    } else {
        le_value(data.subrange(0, 2))
    }
}

/// Which call the bytes `data` name as running: their last two bytes, least
/// significant first, if `data` has that many.
pub open spec fn current_index_of(data: Seq<u8>) -> Option<nat> {
    if data.len() < 2 {
        None
    } else {
        Some(le_value(data.subrange(data.len() - 2, data.len() as int)))
    }
}

/// The last call that the bytes `data` hold, if they hold any.
pub open spec fn last_call_of(data: Seq<u8>) -> Option<CallView> {
    if call_count_of(data) == 0 {
        None
    } else {
        call_stored_at(data, (call_count_of(data) - 1) as nat)
    }
}

/// A found call as a mathematical value.
pub open spec fn view_of(found: Option<Call>) -> Option<CallView> {
    match found {
        Some(call) => Some(call@),
        None => None,
    }
}

/// Calls `load_current_index_checked` of `solana_program` on an account that
/// has the address of the instructions sysvar and holds `data`. Taken on
/// trust: the call succeeds and returns the last two bytes of `data` as a
/// number, least significant byte first.
#[allow(deprecated)]
#[verifier::external_body]
fn load_current_index(data: &Vec<u8>) -> (index: Option<u16>)
    requires
        data@.len() >= 2,
    ensures
        index is Some,
        current_index_of(data@) == Some(index.unwrap() as nat),
{
    let key = solana_program::sysvar::instructions::id();
    let mut lamports: u64 = 0;
    let mut bytes = data.clone();
    let account = AccountInfo::new(&key, false, false, &mut lamports, &mut bytes, &key, false, 0);
    load_current_index_checked(&account).ok()
}

/// Calls `load_instruction_at_checked` of `solana_program` on an account that
/// has the address of the instructions sysvar and holds `data`, and copies
/// what it returns field by field. Taken on trust: the result is the call
/// that `call_stored_at` names for these bytes and this index, and there is
/// none at an index that is not below the count that `data` announces.
#[allow(deprecated)]
#[verifier::external_body]
fn load_call(index: usize, data: &Vec<u8>) -> (found: Option<Call>)
    ensures
        view_of(found) == call_stored_at(data@, index as nat),
        found is Some ==> index < call_count_of(data@),
{
    let key = solana_program::sysvar::instructions::id();
    let mut lamports: u64 = 0;
    let mut bytes = data.clone();
    let account = AccountInfo::new(&key, false, false, &mut lamports, &mut bytes, &key, false, 0);
    let loaded = load_instruction_at_checked(index, &account).ok()?;
    let accounts = loaded.accounts.iter().map(|meta| AccountRef {
        address: Address { bytes: meta.pubkey.to_bytes() },
        is_signer: meta.is_signer,
        is_writable: meta.is_writable,
    }).collect();
    Some(Call { program_id: Address { bytes: loaded.program_id.to_bytes() }, accounts, data: loaded.data })
}

/// The bytes under which the host records the batch `calls`, as the host's
/// own writer produces them, with nothing yet said about which call runs.
pub uninterp spec fn record_of(calls: Seq<CallView>) -> Seq<u8>;

/// The calls of a batch as mathematical values.
pub open spec fn views_of(calls: Seq<Call>) -> Seq<CallView> {
    calls.map_values(|call: Call| call@)
}

/// The record `data` with `index` written over its last two bytes, least
/// significant byte first.
pub open spec fn with_current_index(data: Seq<u8>, index: u16) -> Seq<u8> {
    data.subrange(0, data.len() - 2).push((index % 256) as u8).push((index / 256) as u8)
}

/// Calls `construct_instructions_data` of `solana_program` on `calls`,
/// copied field by field into that crate's own types. Taken on trust: the
/// result is the record that `record_of` names for these calls, and it ends
/// in two bytes that are kept free for the index of the running call.
#[allow(deprecated)]
#[verifier::external_body]
fn construct_record(calls: &Vec<Call>) -> (data: Vec<u8>)
    ensures
        data@ == record_of(views_of(calls@)),
        data@.len() >= 2,
{
    let owned: Vec<Instruction> = calls.iter().map(|call| Instruction {
        program_id: Pubkey::new_from_array(call.program_id.bytes),
        accounts: call.accounts.iter().map(|named| AccountMeta {
            pubkey: Pubkey::new_from_array(named.address.bytes),
            is_signer: named.is_signer,
            is_writable: named.is_writable }).collect(),
        data: call.data.clone() }).collect();
    let lent: Vec<BorrowedInstruction> = owned.iter().map(|one| BorrowedInstruction {
        program_id: &one.program_id,
        accounts: one.accounts.iter().map(|meta| BorrowedAccountMeta {
            pubkey: &meta.pubkey,
            is_signer: meta.is_signer,
            is_writable: meta.is_writable }).collect(),
        data: &one.data }).collect();
    construct_instructions_data(&lent)
}

/// Calls `store_current_index` of `solana_program`. Taken on trust: it
/// writes `index` over the last two bytes of `data`, least significant byte
/// first, and leaves the rest as it was.
#[allow(deprecated)]
#[verifier::external_body]
fn store_index(data: &mut Vec<u8>, index: u16)
    requires
        old(data)@.len() >= 2,
    ensures
        final(data)@ == with_current_index(old(data)@, index),
{
    store_current_index(data, index)
}

/// Whether the call at `index` is the first of `calls` that names `address`.
pub open spec fn is_first_naming(calls: Seq<CallView>, address: Address, index: int) -> bool {
    &&& 0 <= index < calls.len()
    &&& calls[index].names(address)
    &&& forall|j: int| 0 <= j < index ==> !(#[trigger] calls[j]).names(address)
}

/// Finds the first of `calls` that names `address`, if any does.
pub fn first_naming(calls: &Vec<Call>, address: &Address) -> (found: Option<usize>)
    ensures
        found matches Some(index) ==> is_first_naming(views_of(calls@), *address, index as int),
        found is None ==> forall|j: int|
            0 <= j < calls@.len() ==> !(#[trigger] views_of(calls@)[j]).names(*address),
{
    let mut i: usize = 0;
    while i < calls.len()
        invariant
            i <= calls.len(),
            forall|j: int| 0 <= j < i ==> !(#[trigger] views_of(calls@)[j]).names(*address),
        decreases calls.len() - i,
    {
        if calls[i].names(address) {
            return Some(i);
        }
        i += 1;
    }
    None
}

/// The account in which a host keeps the record of the batch `instructions`:
/// its address and its content. The record names as running the first call
/// that is handed the record itself, that is, the first that names the
/// account's address; an index that does not fit in two bytes loses what
/// does not fit. Where no call names it, the index stays as the writer left
/// it.
pub fn get_account_instructions_sysvar(instructions: &Vec<Call>) -> (account: (Address, Instructions))
    ensures
        account.0 == instructions_sysvar_address(),
        forall|index: int| #[trigger]
            is_first_naming(views_of(instructions@), instructions_sysvar_address(), index)
                ==> account.1@ == with_current_index(
                record_of(views_of(instructions@)),
                (index % 0x1_0000) as u16,
            ),
        (forall|j: int|
            0 <= j < instructions@.len() ==> !(#[trigger] views_of(instructions@)[j]).names(
                instructions_sysvar_address(),
            )) ==> account.1@ == record_of(views_of(instructions@)),
{
    let mut data = construct_record(instructions);
    let address = instructions_sysvar_id();
    match first_naming(instructions, &address) {
        Some(index) => {
            store_index(&mut data, (index % 0x1_0000) as u16);
        },
        None => {},
    }
    (address, Instructions { data })
}

/// The batch as a call sees it: the bytes of the host's record of the batch.
#[derive(Clone, Debug, PartialEq, Eq)]
pub struct Instructions {
    pub data: Vec<u8>,
}

impl View for Instructions {
    type V = Seq<u8>;

    open spec fn view(&self) -> Seq<u8> {
        self.data@
    }
}

impl Instructions {
    /// The batch that the bytes `data` record.
    pub fn new(data: Vec<u8>) -> (batch: Instructions)
        ensures
            batch@ == data@,
    {
        Instructions { data }
    }

    /// The position of the call that is running. Refused with
    /// `InvalidInstructionIndex` exactly when the record is too short to
    /// name one.
    pub fn current_index(&self) -> (index: Result<u16, ProtocolError>)
        ensures
            current_index_of(self@) matches Some(i) ==> (index matches Ok(v) && v as nat == i),
            current_index_of(self@) is None ==> index == Err::<u16, ProtocolError>(
                ProtocolError::InvalidInstructionIndex,
            ),
    {
        if self.data.len() < 2 {
            return Err(ProtocolError::InvalidInstructionIndex);
        }
        match load_current_index(&self.data) {
            Some(index) => Ok(index),
            None => Err(ProtocolError::InvalidInstructionIndex),
        }
    }

    /// The call at `index`. There is none at an index that is not below
    /// `total_calls`, and none where the record breaks off before the end of
    /// that call.
    pub fn call_at(&self, index: usize) -> (found: Option<Call>)
        ensures
            view_of(found) == call_stored_at(self@, index as nat),
            index >= call_count_of(self@) ==> found is None,
    {
        load_call(index, &self.data)
    }

    /// How many calls the batch announces.
    pub fn total_calls(&self) -> (count: u16)
        ensures
            count as nat == call_count_of(self@),
    {
        match read_le(&self.data, 0, 2) {
            Some(count) => {
                proof {
                    crate::bytes::lemma_le_value_bound(self.data@.subrange(0, 2));
                    crate::bytes::lemma_radix_pow_values();
                }
                count as u16
            },
            None => 0,
        }
    }

    /// The last call of the batch, if the batch has one that can be read.
    pub fn last_call(&self) -> (found: Option<Call>)
        ensures
            view_of(found) == last_call_of(self@),
    {
        let count: u16 = self.total_calls();
        if count == 0 {
            None
        } else {
            self.call_at((count - 1) as usize)
        }
    }
}

} // verus!
