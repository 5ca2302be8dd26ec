//! Hashing for keys that are already uniformly distributed.
use core::hash::{BuildHasherDefault, Hasher};
use vstd::prelude::*;

verus! {

/// The number that the bytes spell when read as a big-endian integer.
pub open spec fn be_value(bytes: Seq<u8>) -> nat
    decreases bytes.len(),
{
    if bytes.len() == 0 {
        0
    } else {
        256 * be_value(bytes.drop_last()) + bytes.last() as nat
    }
}

/// The last eight bytes of a key.
pub open spec fn suffix(key: Seq<u8>) -> Seq<u8>
    recommends
        key.len() >= 8,
{
    key.subrange(key.len() - 8, key.len() as int)
}

/// The hash of a key: its last eight bytes as a big-endian integer.
pub open spec fn suffix_hash(key: Seq<u8>) -> nat
    recommends
        key.len() >= 8,
{
    be_value(suffix(key))
}

/// 256 to the power of `n`.
pub open spec fn radix_power(n: nat) -> nat
    decreases n,
{
    if n == 0 {
        1
    } else {
        256 * radix_power((n - 1) as nat)
    }
}

/// Takes the last eight bytes of what is written to it as the hash, instead
/// of hashing again what is a hash already (an address, a code hash).
#[derive(Debug)]
pub struct SuffixHasher(u64);

impl SuffixHasher {
    /// The hash that `finish` returns.
    pub closed spec fn value(&self) -> u64 {
        self.0
    }
}

impl Default for SuffixHasher {
    fn default() -> (hasher: Self)
        ensures
            hasher.value() == 0,
    {
        SuffixHasher(0)
    }
}

impl Hasher for SuffixHasher {
    fn write(&mut self, bytes: &[u8])
        requires
            bytes@.len() >= 8,
        ensures
            final(self).value() == suffix_hash(bytes@),
    {
        let start: usize = bytes.len() - 8;
        let mut acc: u64 = 0;
        let mut i: usize = 0;
        while i < 8
            invariant
                start + 8 == bytes@.len(),
                start + 8 <= usize::MAX,
                i <= 8,
                acc == be_value(bytes@.subrange(start as int, start + i)),
                acc < radix_power(i as nat),
            decreases 8 - i,
        {
            let byte: u8 = bytes[start + i];
            proof {
                let taken = bytes@.subrange(start as int, start + i + 1);
                assert(taken.drop_last() == bytes@.subrange(start as int, start + i));
                assert(taken.last() == byte);
                reveal_with_fuel(radix_power, 9);
            }
            acc = acc * 256 + byte as u64;
            i += 1;
        }
        self.0 = acc;
    }

    fn finish(&self) -> (hash: u64)
        ensures
            hash == self.value(),
    {
        self.0
    }
}

/// `core::hash::BuildHasherDefault`: makes hashers by `Default`. Nothing is
/// said of what is in it.
#[verifier::external_type_specification]
#[verifier::external_body]
#[verifier::reject_recursive_types(H)]
pub struct ExBuildHasherDefault<H>(BuildHasherDefault<H>);

/// Builds a [`SuffixHasher`].
pub type BuildSuffixHasher = BuildHasherDefault<SuffixHasher>;

} // verus!
