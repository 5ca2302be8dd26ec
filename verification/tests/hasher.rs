use core::hash::{BuildHasher, Hasher};
use state_cache::hasher::{BuildSuffixHasher, SuffixHasher};
use state_cache::primitives::{Address, B256, U256};

#[test]
fn hash_of_eight_bytes_is_their_big_endian_value() {
    let mut hasher = SuffixHasher::default();
    hasher.write(&[0x01, 0x02, 0x03, 0x04, 0x05, 0x06, 0x07, 0x08]);
    assert_eq!(hasher.finish(), 0x0102_0304_0506_0708);
}

#[test]
fn hash_of_nothing_written_is_zero() {
    let hasher = SuffixHasher::default();
    assert_eq!(hasher.finish(), 0);
}

#[test]
fn hash_takes_the_last_eight_bytes_of_an_address() {
    let mut bytes = [0xaau8; 20];
    bytes[12..].copy_from_slice(&[0xde, 0xad, 0xbe, 0xef, 0x00, 0x11, 0x22, 0x33]);
    let mut hasher = SuffixHasher::default();
    hasher.write(&bytes);
    assert_eq!(hasher.finish(), 0xdead_beef_0011_2233);
    let suffix = [0xde, 0xad, 0xbe, 0xef, 0x00, 0x11, 0x22, 0x33];
    assert_eq!(hasher.finish(), u64::from_be_bytes(suffix));
}

#[test]
fn hash_takes_the_last_eight_bytes_of_a_code_hash() {
    let mut bytes = [0u8; 32];
    for (i, byte) in bytes.iter_mut().enumerate() {
        *byte = i as u8;
    }
    let mut hasher = SuffixHasher::default();
    hasher.write(&bytes);
    assert_eq!(hasher.finish(), 0x1819_1a1b_1c1d_1e1f);
}

#[test]
fn hash_of_all_ones_is_the_largest() {
    let mut hasher = SuffixHasher::default();
    hasher.write(&[0xff; 9]);
    assert_eq!(hasher.finish(), u64::MAX);
}

#[test]
fn later_write_replaces_earlier() {
    let mut hasher = SuffixHasher::default();
    hasher.write(&[1; 8]);
    hasher.write(&[0, 0, 0, 0, 0, 0, 0, 0, 0, 0, 0, 0, 0, 0, 0, 2]);
    assert_eq!(hasher.finish(), 2);
}

#[test]
fn address_key_hashes_to_its_suffix() {
    let mut bytes = [0x11u8; 20];
    bytes[12..].copy_from_slice(&[0, 0, 0, 0, 0, 0, 0x12, 0x34]);
    let address = Address { bytes };
    let hash = BuildSuffixHasher::default().hash_one(address);
    assert_eq!(hash, 0x1234);
}

#[test]
fn code_hash_key_hashes_to_its_suffix() {
    let hash = BuildSuffixHasher::default().hash_one(B256::keccak_empty());
    assert_eq!(hash, 0x7bfa_d804_5d85_a470);
}

#[test]
fn keys_compare_by_their_bytes() {
    let a = Address { bytes: [1; 20] };
    let mut other = [1u8; 20];
    assert!(a == Address { bytes: other });
    other[19] = 2;
    assert!(a != Address { bytes: other });
    other[19] = 1;
    other[0] = 0;
    assert!(a != Address { bytes: other });
    assert!(B256 { bytes: [0; 32] } == B256::zero());
    assert!(B256::keccak_empty() != B256::zero());
    assert!(B256::zero().is_zero());
    assert!(!B256::keccak_empty().is_zero());
    assert!(B256::keccak_empty().is_keccak_empty());
    assert!(!B256::zero().is_keccak_empty());
}

#[test]
fn empty_code_hash_is_the_known_constant() {
    let ours = B256::keccak_empty();
    assert_eq!(ours.bytes, revm_interpreter::primitives::KECCAK_EMPTY.0);
    assert_eq!(
        ours.bytes,
        revm_interpreter::primitives::keccak256([0u8; 0]).0
    );
}

#[test]
fn words_know_zero() {
    assert!(U256::zero().is_zero());
    assert!(U256::from_u64(0).is_zero());
    assert!(!U256::from_u64(1).is_zero());
    assert!(!U256 { hi: 1, lo: 0 }.is_zero());
    assert_eq!(U256::from_u64(7), U256 { hi: 0, lo: 7 });
    assert_eq!(U256::from_u64(u64::MAX).lo, u64::MAX as u128);
}
