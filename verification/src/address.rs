//! Account addresses: 32 bytes that name an account or a program.

use vstd::prelude::*;

verus! {

/// The name of an account or of a program.
#[derive(Clone, Copy, Debug, PartialEq, Eq, Hash)]
pub struct Address {
    pub bytes: [u8; 32],
}

/// The bytes of the address under which this program runs.
pub const ID_BYTES: [u8; 32] = [
    15, 30, 107, 20, 33, 192, 74, 7, 4, 49, 38, 92, 25, 197, 187, 238,
    25, 146, 186, 232, 175, 209, 205, 7, 142, 248, 175, 112, 71, 220, 17, 247,
];

impl Address {
    /// An address from its bytes.
    pub fn new(bytes: [u8; 32]) -> (address: Address)
        ensures
            address.bytes == bytes,
    {
        Address { bytes }
    }

    /// Whether two addresses are the same, byte for byte.
    pub fn same_as(&self, other: &Address) -> (same: bool)
        ensures
            same == (*self == *other),
    {
        let mut i: usize = 0;
        while i < 32
            invariant
                i <= 32,
                forall|k: int| 0 <= k < i ==> self.bytes[k] == other.bytes[k],
            decreases 32 - i,
        {
            if self.bytes[i] != other.bytes[i] {
                return false;
            }
            i += 1;
        }
        assert(self.bytes =~= other.bytes);
        true
    }
}

/// The address under which this program runs.
pub open spec fn program_address() -> Address {
    Address { bytes: ID_BYTES }
}

/// The address under which this program runs.
pub fn id() -> (own: Address)
    ensures
        own == program_address(),
{
    Address { bytes: ID_BYTES }
}

/// Whether `address` is this program's own.
pub fn check_id(address: &Address) -> (own: bool)
    ensures
        own == (*address == program_address()),
{
    let own_id = id();
    address.same_as(&own_id)
}

} // verus!
