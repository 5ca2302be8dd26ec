//! Addresses, hashes, words and bytecode.
use vstd::prelude::*;
use vstd::std_specs::cmp::PartialEqSpecImpl;

verus! {

/// Whether two byte arrays hold the same bytes.
pub fn bytes_equal<const N: usize>(left: &[u8; N], right: &[u8; N]) -> (same: bool)
    ensures
        same == (*left == *right),
        same == (left@ == right@),
{
    let mut i: usize = 0;
    while i < N
        invariant
            i <= N,
            left@.len() == N,
            right@.len() == N,
            forall|j: int| 0 <= j < i ==> left@[j] == right@[j],
        decreases N - i,
    {
        if left[i] != right[i] {
            return false;
        }
        i += 1;
    }
    assert(left@ =~= right@);
    assert(*left =~= *right);
    true
}

/// A 20-byte account identifier.
#[derive(Clone, Copy, Debug, Hash)]
pub struct Address {
    pub bytes: [u8; 20],
}

impl View for Address {
    type V = Seq<u8>;

    open spec fn view(&self) -> Seq<u8> {
        self.bytes@
    }
}

impl PartialEq for Address {
    fn eq(&self, other: &Self) -> (same: bool) {
        bytes_equal(&self.bytes, &other.bytes)
    }
}

impl PartialEqSpecImpl for Address {
    open spec fn obeys_eq_spec() -> bool {
        true
    }

    open spec fn eq_spec(&self, other: &Self) -> bool {
        *self == *other
    }
}

impl Eq for Address {

}

/// A 32-byte hash.
#[derive(Clone, Copy, Debug, Hash)]
pub struct B256 {
    pub bytes: [u8; 32],
}

impl View for B256 {
    type V = Seq<u8>;

    open spec fn view(&self) -> Seq<u8> {
        self.bytes@
    }
}

impl PartialEq for B256 {
    fn eq(&self, other: &Self) -> (same: bool) {
        bytes_equal(&self.bytes, &other.bytes)
    }
}

impl PartialEqSpecImpl for B256 {
    open spec fn obeys_eq_spec() -> bool {
        true
    }

    open spec fn eq_spec(&self, other: &Self) -> bool {
        *self == *other
    }
}

impl Eq for B256 {

}

/// The Keccak-256 hash of the empty byte string: the code hash of an account
/// without code.
pub open spec fn keccak_empty_hash() -> B256 {
    B256 {
        bytes: [
            0xc5u8, 0xd2u8, 0x46u8, 0x01u8, 0x86u8, 0xf7u8, 0x23u8, 0x3cu8,
            0x92u8, 0x7eu8, 0x7du8, 0xb2u8, 0xdcu8, 0xc7u8, 0x03u8, 0xc0u8,
            0xe5u8, 0x00u8, 0xb6u8, 0x53u8, 0xcau8, 0x82u8, 0x27u8, 0x3bu8,
            0x7bu8, 0xfau8, 0xd8u8, 0x04u8, 0x5du8, 0x85u8, 0xa4u8, 0x70u8,
        ],
    }
}

/// The hash of which every byte is zero.
pub open spec fn zero_hash() -> B256 {
    B256 {
        bytes: [
            0u8, 0u8, 0u8, 0u8, 0u8, 0u8, 0u8, 0u8,
            0u8, 0u8, 0u8, 0u8, 0u8, 0u8, 0u8, 0u8,
            0u8, 0u8, 0u8, 0u8, 0u8, 0u8, 0u8, 0u8,
            0u8, 0u8, 0u8, 0u8, 0u8, 0u8, 0u8, 0u8,
        ],
    }
}

impl B256 {
    /// The hash of which every byte is zero.
    pub fn zero() -> (hash: B256)
        ensures
            hash == zero_hash(),
    {
        let hash = B256 { bytes: [0u8; 32] };
        assert(hash.bytes =~= zero_hash().bytes);
        hash
    }

    /// The code hash of an account without code.
    pub fn keccak_empty() -> (hash: B256)
        ensures
            hash == keccak_empty_hash(),
    {
        let hash = B256 {
            bytes: [
                0xc5, 0xd2, 0x46, 0x01, 0x86, 0xf7, 0x23, 0x3c,
                0x92, 0x7e, 0x7d, 0xb2, 0xdc, 0xc7, 0x03, 0xc0,
                0xe5, 0x00, 0xb6, 0x53, 0xca, 0x82, 0x27, 0x3b,
                0x7b, 0xfa, 0xd8, 0x04, 0x5d, 0x85, 0xa4, 0x70,
            ],
        };
        assert(hash.bytes =~= keccak_empty_hash().bytes);
        hash
    }

    /// Whether every byte of the hash is zero.
    pub open spec fn spec_is_zero(&self) -> bool {
        *self == zero_hash()
    }

    /// Whether every byte of the hash is zero.
    #[verifier::when_used_as_spec(spec_is_zero)]
    pub fn is_zero(&self) -> (zero: bool)
        ensures
            zero == self.spec_is_zero(),
    {
        let other = B256::zero();
        bytes_equal(&self.bytes, &other.bytes)
    }

    /// Whether this is the code hash of an account without code.
    pub open spec fn spec_is_keccak_empty(&self) -> bool {
        *self == keccak_empty_hash()
    }

    /// Whether this is the code hash of an account without code.
    #[verifier::when_used_as_spec(spec_is_keccak_empty)]
    pub fn is_keccak_empty(&self) -> (empty: bool)
        ensures
            empty == self.spec_is_keccak_empty(),
    {
        let other = B256::keccak_empty();
        bytes_equal(&self.bytes, &other.bytes)
    }
}

/// A 256-bit word, as its upper and lower 128 bits.
#[derive(Clone, Copy, Debug, PartialEq, Eq, Structural, Hash)]
pub struct U256 {
    pub hi: u128,
    pub lo: u128,
}

impl U256 {
    /// The number that the word stands for.
    pub open spec fn value(&self) -> nat {
        (self.hi as nat) * 0x1_0000_0000_0000_0000_0000_0000_0000_0000 + (self.lo as nat)
    }

    /// The word zero.
    pub fn zero() -> (word: U256)
        ensures
            word == (U256 { hi: 0, lo: 0 }),
            word.value() == 0,
    {
        U256 { hi: 0, lo: 0 }
    }

    /// The word that stands for a 64-bit number.
    pub fn from_u64(number: u64) -> (word: U256)
        ensures
            word == (U256 { hi: 0, lo: number as u128 }),
            word.value() == number,
    {
        U256 { hi: 0, lo: number as u128 }
    }

    /// Whether the word is zero.
    pub open spec fn spec_is_zero(&self) -> bool {
        self.hi == 0 && self.lo == 0
    }

    /// Whether the word is zero.
    #[verifier::when_used_as_spec(spec_is_zero)]
    pub fn is_zero(&self) -> (zero: bool)
        ensures
            zero == self.spec_is_zero(),
            zero == (self.value() == 0),
    {
        self.hi == 0 && self.lo == 0
    }
}

/// The code of a contract, as its bytes.
#[derive(Debug, PartialEq, Eq)]
pub struct Bytecode {
    pub bytes: Vec<u8>,
}

impl View for Bytecode {
    type V = Seq<u8>;

    open spec fn view(&self) -> Seq<u8> {
        self.bytes@
    }
}

impl Clone for Bytecode {
    fn clone(&self) -> (copy: Self)
        ensures
            copy@ == self@,
    {
        Bytecode { bytes: self.bytes.clone() }
    }
}

impl Bytecode {
    /// Code of the given bytes.
    pub fn new(bytes: Vec<u8>) -> (code: Bytecode)
        ensures
            code@ == bytes@,
    {
        Bytecode { bytes }
    }

    /// Code without a byte.
    pub fn empty() -> (code: Bytecode)
        ensures
            code@ == Seq::<u8>::empty(),
    {
        Bytecode { bytes: Vec::new() }
    }
}

} // verus!
