use aptos_lc::bytes::{append_bytes, bytes_equal, copy_range};
use aptos_lc::hash::{hash_data, prefixed_sha3, HashValue, InvalidHashLength, HASH_LENGTH};
use aptos_lc::ledger::ValidatorVerifier;
use tiny_keccak::{Hasher, Sha3};

fn sha3(parts: &[&[u8]]) -> [u8; 32] {
    let mut digest = Sha3::v256();
    for part in parts {
        digest.update(part);
    }
    let mut output = [0u8; 32];
    digest.finalize(&mut output);
    output
}

#[test]
fn hash_data_is_sha3_of_tag_then_data() {
    // SHA3-256("hello world"), from FIPS 202 test material.
    let expected: [u8; 32] = [
        0x64, 0x4b, 0xcc, 0x7e, 0x56, 0x43, 0x73, 0x04, 0x09, 0x99, 0xaa, 0xc8, 0x9e, 0x76, 0x22,
        0xf3, 0xca, 0x71, 0xfb, 0xa1, 0xd9, 0x72, 0xfd, 0x94, 0xa3, 0x1c, 0x3b, 0xfb, 0xf2, 0x4e,
        0x39, 0x38,
    ];
    assert_eq!(hash_data(b"hello", b" world"), expected);
    assert_eq!(hash_data(b"", b"hello world"), expected);
    assert_ne!(hash_data(b"hello", b"world"), expected);
}

#[test]
fn hash_of_empty_input() {
    let expected: [u8; 32] = [
        0xa7, 0xff, 0xc6, 0xf8, 0xbf, 0x1e, 0xd7, 0x66, 0x51, 0xc1, 0x47, 0x56, 0xa0, 0x61, 0xd6,
        0x62, 0xf5, 0x80, 0xff, 0x4d, 0xe4, 0x3b, 0x49, 0xfa, 0x82, 0xd8, 0x0a, 0x4b, 0x80, 0xf8,
        0x43, 0x4a,
    ];
    assert_eq!(hash_data(b"", b""), expected);
}

#[test]
fn prefixed_sha3_salts_the_name() {
    assert_eq!(prefixed_sha3(b"Waypoint"), sha3(&[b"APTOS::Waypoint"]));
    assert_eq!(prefixed_sha3(b""), sha3(&[b"APTOS::"]));
    assert_ne!(prefixed_sha3(b"Waypoint"), sha3(&[b"Waypoint"]));
}

#[test]
fn committee_hash_is_tagged() {
    let canonical = vec![1u8, 2, 3, 4, 5];
    let committee = ValidatorVerifier::new(canonical.clone());
    let tag = sha3(&[b"APTOS::ValidatorVerifier"]);
    assert_eq!(committee.hash().hash(), sha3(&[&tag, &canonical]));
    assert_eq!(committee.to_bytes(), &canonical);
    let copy = committee.clone();
    assert_eq!(copy, committee);
    assert_eq!(ValidatorVerifier::from_bytes(&canonical), committee);
}

#[test]
fn hash_value_from_slice_wants_32_bytes() {
    assert_eq!(HASH_LENGTH, 32);
    let bytes: Vec<u8> = (0u8..32).collect();
    let value = HashValue::from_slice(&bytes).unwrap();
    assert_eq!(value.to_vec(), bytes);
    assert_eq!(value.hash().to_vec(), bytes);
    assert_eq!(HashValue::from_slice(&bytes[..31]), Err(InvalidHashLength { length: 31 }));
    assert_eq!(HashValue::from_slice(&[]), Err(InvalidHashLength { length: 0 }));
    let long = vec![0u8; 33];
    assert_eq!(HashValue::from_slice(&long), Err(InvalidHashLength { length: 33 }));
}

#[test]
fn hash_value_equality_is_by_bytes() {
    let a = HashValue::new([7u8; 32]);
    let b = HashValue::new([7u8; 32]);
    let mut other = [7u8; 32];
    other[31] = 8;
    let c = HashValue::new(other);
    assert_eq!(a, b);
    assert_ne!(a, c);
    assert_eq!(HashValue::zero(), HashValue::new([0u8; 32]));
    assert_eq!(HashValue::default(), HashValue::zero());
}

#[test]
fn byte_string_helpers() {
    let mut buffer = vec![1u8, 2];
    append_bytes(&mut buffer, &[3, 4, 5]);
    assert_eq!(buffer, vec![1, 2, 3, 4, 5]);
    append_bytes(&mut buffer, &[]);
    assert_eq!(buffer, vec![1, 2, 3, 4, 5]);
    assert_eq!(copy_range(&buffer, 1, 4), vec![2, 3, 4]);
    assert_eq!(copy_range(&buffer, 5, 5), Vec::<u8>::new());
    assert_eq!(copy_range(&buffer, 0, 5), buffer);
    assert!(bytes_equal(&[1, 2, 3], &[1, 2, 3]));
    assert!(bytes_equal(&[], &[]));
    assert!(!bytes_equal(&[1, 2, 3], &[1, 2, 4]));
    assert!(!bytes_equal(&[1, 2, 3], &[1, 2]));
    assert!(!bytes_equal(&[0], &[]));
}
