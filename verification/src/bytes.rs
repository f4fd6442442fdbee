//! Reading numbers and tags out of byte strings that nobody vouches for:
//! every read checks the length first.

use vstd::prelude::*;

verus! {

/// The number that `bytes` spell, least significant byte first.
pub open spec fn le_value(bytes: Seq<u8>) -> nat
    decreases bytes.len(),
{
    if bytes.len() == 0 {
        0
    } else {
        bytes[0] as nat + 256 * le_value(bytes.drop_first())
    }
}

/// 256 to the power of `n`: how many values `n` bytes can spell.
pub open spec fn radix_pow(n: nat) -> nat
    decreases n,
{
    if n == 0 {
        1
    } else {
        256 * radix_pow((n - 1) as nat)
    }
}

/// A byte string spells a number below 256 to the power of its length.
pub proof fn lemma_le_value_bound(bytes: Seq<u8>)
    ensures
        le_value(bytes) < radix_pow(bytes.len()),
    decreases bytes.len(),
{
    if bytes.len() > 0 {
        lemma_le_value_bound(bytes.drop_first());
    }
}

/// Reading from `from` on is reading the byte at `from` and then the rest.
pub proof fn lemma_le_value_step(bytes: Seq<u8>, from: int, to: int)
    requires
        0 <= from < to <= bytes.len(),
    ensures
        le_value(bytes.subrange(from, to)) == bytes[from] as nat + 256 * le_value(
            bytes.subrange(from + 1, to),
        ),
{
    assert(bytes.subrange(from, to).drop_first() =~= bytes.subrange(from + 1, to));
}

/// Eight bytes spell a number that fits in 64 bits, and fewer bytes a smaller one.
pub proof fn lemma_radix_pow_values()
    ensures
        radix_pow(0) == 1,
        radix_pow(1) == 0x100,
        radix_pow(2) == 0x1_0000,
        radix_pow(3) == 0x100_0000,
        radix_pow(4) == 0x1_0000_0000,
        radix_pow(5) == 0x100_0000_0000,
        radix_pow(6) == 0x1_0000_0000_0000,
        radix_pow(7) == 0x100_0000_0000_0000,
        radix_pow(8) == 0x1_0000_0000_0000_0000,
{
    reveal_with_fuel(radix_pow, 10);
}

/// Reads the `width` bytes of `data` that start at `at` as a number, least
/// significant byte first. There is a number exactly when `data` holds all
/// of these bytes.
pub fn read_le(data: &Vec<u8>, at: usize, width: usize) -> (value: Option<u64>)
    requires
        width <= 8,
    ensures
        at + width <= data@.len() ==> (value matches Some(v) && v as nat == le_value(
            data@.subrange(at as int, at + width),
        )),
        at + width > data@.len() ==> value is None,
{
    if at > data.len() || width > data.len() - at {
        return None;
    }
    let ghost end: int = at + width;
    let mut acc: u64 = 0;
    let mut k: usize = width;
    proof {
        lemma_radix_pow_values();
    }
    while k > 0
        invariant
            k <= width <= 8,
            end == at + width,
            end <= data.len(),
            acc == le_value(data@.subrange(at + k, end)),
            acc < radix_pow((width - k) as nat),
        decreases k,
    {
        k -= 1;
        proof {
            lemma_radix_pow_values();
            lemma_le_value_step(data@, at + k, end);
            assert(radix_pow((width - k) as nat) == 256 * radix_pow((width - k - 1) as nat));
        }
        acc = acc * 256 + data[at + k] as u64;
    }
    Some(acc)
}

/// Whether `data` starts with the eight bytes of `tag`.
pub fn starts_with(data: &Vec<u8>, tag: &[u8; 8]) -> (found: bool)
    ensures
        found == (data@.len() >= 8 && data@.subrange(0, 8) == tag@),
{
    if data.len() < 8 {
        return false;
    }
    let mut i: usize = 0;
    while i < 8
        invariant
            i <= 8,
            data@.len() >= 8,
            forall|k: int| 0 <= k < i ==> data@[k] == tag@[k],
        decreases 8 - i,
    {
        if data[i] != tag[i] {
            assert(data@.subrange(0, 8)[i as int] != tag@[i as int]);
            return false;
        }
        i += 1;
    }
    assert(data@.subrange(0, 8) =~= tag@);
    true
}

} // verus!
