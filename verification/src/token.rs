//! Holding accounts and the one thing that is ever done to them: moving an
//! amount from one to another.

use vstd::prelude::*;
use crate::address::Address;
use crate::error::ProtocolError;

verus! {

/// A holding account: where it lives and how much it holds.
#[derive(Clone, Copy, Debug, PartialEq, Eq)]
pub struct TokenAccount {
    pub address: Address,
    pub amount: u64,
}

/// The label from which the address that signs for the pool is derived.
pub const PROTOCOL_SEED: [u8; 8] = [112, 114, 111, 116, 111, 99, 111, 108];

/// Who vouches for a movement out of a holding account.
#[derive(Clone, Copy, Debug, PartialEq, Eq)]
pub enum Authority {
    /// The holder, who has signed the batch.
    Signer { holder: Address },
    /// The program, for the address derived from `PROTOCOL_SEED` and `bump`.
    /// No key exists for such an address: only the program can sign for it.
    Derived { holder: Address, bump: u8 },
}

/// A movement for the host to carry out: `amount` from `from` to `to`, on
/// the word of `authority`.
#[derive(Clone, Copy, Debug, PartialEq, Eq)]
pub struct Transfer {
    pub from: Address,
    pub to: Address,
    pub authority: Authority,
    pub amount: u64,
}

/// The two accounts after `amount` has moved from `from` to `to`, or why it
/// cannot move: `from` holds less, or `to` would hold more than 64 bits can
/// say.
pub open spec fn moved(from: TokenAccount, to: TokenAccount, amount: u64) -> Result<
    (TokenAccount, TokenAccount),
    ProtocolError,
> {
    if from.amount < amount {
        Err(ProtocolError::NotEnoughFunds)
    } else if to.amount + amount > u64::MAX {
        Err(ProtocolError::Overflow)
    } else {
        Ok(
            (
                TokenAccount { address: from.address, amount: (from.amount - amount) as u64 },
                TokenAccount { address: to.address, amount: (to.amount + amount) as u64 },
            ),
        )
    }
}

/// Moves `amount` from `from` to `to`. Where it cannot move, neither account
/// changes.
pub fn transfer(from: &mut TokenAccount, to: &mut TokenAccount, amount: u64) -> (done: Result<
    (),
    ProtocolError,
>)
    ensures
        moved(*old(from), *old(to), amount) matches Ok(after) ==> done is Ok && *final(from)
            == after.0 && *final(to) == after.1,
        moved(*old(from), *old(to), amount) matches Err(reason) ==> done == Err::<
            (),
            ProtocolError,
        >(reason) && *final(from) == *old(from) && *final(to) == *old(to),
{
    if from.amount < amount {
        return Err(ProtocolError::NotEnoughFunds);
    }
    match to.amount.checked_add(amount) {
        Some(credited) => {
            from.amount = from.amount - amount;
            to.amount = credited;
            Ok(())
        },
        None => Err(ProtocolError::Overflow),
    }
}

impl Authority {
    /// The address that vouches.
    pub open spec fn holder_of(self) -> Address {
        match self {
            Authority::Signer { holder } => holder,
            Authority::Derived { holder, bump } => holder,
        }
    }

    /// The byte strings from which the program derives the address that it
    /// signs for: the label and the bump. A holder who signed has none.
    pub open spec fn seeds_of(self) -> Seq<Seq<u8>> {
        match self {
            Authority::Signer { holder } => Seq::empty(),
            Authority::Derived { holder, bump } => seq![PROTOCOL_SEED@, seq![bump]],
        }
    }

    /// The byte strings that the host needs to let the program sign, as
    /// `seeds_of` gives them.
    pub fn signer_seeds(&self) -> (seeds: Vec<Vec<u8>>)
        ensures
            seeds@.len() == self.seeds_of().len(),
            forall|i: int| 0 <= i < seeds@.len() ==> (#[trigger] seeds@[i])@ == self.seeds_of()[i],
    {
        let mut seeds: Vec<Vec<u8>> = Vec::new();
        match self {
            Authority::Signer { holder } => {},
            Authority::Derived { holder, bump } => {
                let mut label: Vec<u8> = Vec::new();
                let mut i: usize = 0;
                while i < 8
                    invariant
                        i <= 8,
                        label@ == PROTOCOL_SEED@.subrange(0, i as int),
                    decreases 8 - i,
                {
                    label.push(PROTOCOL_SEED[i]);
                    assert(label@ =~= PROTOCOL_SEED@.subrange(0, i + 1));
                    i += 1;
                }
                assert(label@ =~= PROTOCOL_SEED@);
                let mut salt: Vec<u8> = Vec::new();
                salt.push(*bump);
                assert(salt@ =~= seq![*bump]);
                seeds.push(label);
                seeds.push(salt);
            },
        }
        seeds
    }

    /// The address that vouches.
    pub fn holder(&self) -> (address: Address)
        ensures
            address == self.holder_of(),
    {
        match self {
            Authority::Signer { holder } => *holder,
            Authority::Derived { holder, bump } => *holder,
        }
    }
}

} // verus!
