use aptos_lc::hash::{prefixed_sha3, HashValue};
use aptos_lc::ledger::{EpochState, LedgerInfo, ValidatorVerifier};
use aptos_lc::waypoint::{Ledger2WaypointConverter, Waypoint};
use tiny_keccak::{Hasher, Sha3};

#[test]
fn test_hash() {
    let ledger_to_waypoint = Ledger2WaypointConverter::default();

    let expected = {
        let mut digest = Sha3::v256();
        digest.update(&prefixed_sha3(b"Ledger2WaypointConverter"));
        digest.update(
            &bcs::to_bytes(&(0u64, vec![0u8; 32], 0u64, 0u64, Option::<u64>::None)).unwrap(),
        );
        let mut hasher_bytes = [0u8; 32];
        digest.finalize(&mut hasher_bytes);
        hasher_bytes
    };

    let actual = ledger_to_waypoint.hash();

    assert_eq!(expected, actual.hash());
}

#[test]
fn default_converter_has_canonical_bytes() {
    let converter = Ledger2WaypointConverter::default();
    let mut expected = vec![0u8; 8];
    expected.push(32);
    expected.extend_from_slice(&[0u8; 32]);
    expected.extend_from_slice(&[0u8; 8]);
    expected.extend_from_slice(&[0u8; 8]);
    expected.push(0);
    assert_eq!(converter.to_bytes(), expected);
    assert_eq!(expected.len(), 58);
}

#[test]
fn converter_bytes_of_a_ledger_info_that_ends_its_epoch() {
    let root = HashValue::new([0xabu8; 32]);
    let committee = ValidatorVerifier::new(vec![0x01, 0xee, 0xff]);
    let info = LedgerInfo::new(
        0x0102,
        0x0a0b0c0d,
        0x1122334455667788,
        root,
        Some(EpochState::new(0x0103, committee)),
    );
    let converter = Ledger2WaypointConverter::new(&info);
    let mut expected = vec![0x02u8, 0x01, 0, 0, 0, 0, 0, 0];
    expected.push(0x20);
    expected.extend_from_slice(&[0xabu8; 32]);
    expected.extend_from_slice(&[0x0d, 0x0c, 0x0b, 0x0a, 0, 0, 0, 0]);
    expected.extend_from_slice(&[0x88, 0x77, 0x66, 0x55, 0x44, 0x33, 0x22, 0x11]);
    expected.push(0x01);
    expected.extend_from_slice(&[0x03, 0x01, 0, 0, 0, 0, 0, 0]);
    expected.extend_from_slice(&[0x01, 0xee, 0xff]);
    assert_eq!(converter.to_bytes(), expected);
}

#[test]
fn waypoint_commits_to_version_and_fields() {
    let root = HashValue::new([0x11u8; 32]);
    let info = LedgerInfo::new(3, 77, 1_000_000, root, None);
    let waypoint = Waypoint::new_any(&info);
    assert_eq!(waypoint.version(), 77);
    let converter = Ledger2WaypointConverter::new(&info);
    assert_eq!(waypoint.value(), converter.hash());

    let mut digest = Sha3::v256();
    digest.update(&prefixed_sha3(b"Ledger2WaypointConverter"));
    digest.update(&converter.to_bytes());
    let mut expected = [0u8; 32];
    digest.finalize(&mut expected);
    assert_eq!(waypoint.value().hash(), expected);
    assert_eq!(waypoint, Waypoint::new(77, HashValue::new(expected)));
}

#[test]
fn waypoint_changes_with_every_committed_field() {
    let root = HashValue::new([0x11u8; 32]);
    let base = Waypoint::new_any(&LedgerInfo::new(3, 77, 1_000_000, root, None));
    let other_epoch = Waypoint::new_any(&LedgerInfo::new(4, 77, 1_000_000, root, None));
    let other_time = Waypoint::new_any(&LedgerInfo::new(3, 77, 1_000_001, root, None));
    let other_root =
        Waypoint::new_any(&LedgerInfo::new(3, 77, 1_000_000, HashValue::new([0x12u8; 32]), None));
    let with_next = Waypoint::new_any(&LedgerInfo::new(
        3,
        77,
        1_000_000,
        root,
        Some(EpochState::new(4, ValidatorVerifier::new(vec![]))),
    ));
    assert_ne!(base, other_epoch);
    assert_ne!(base, other_time);
    assert_ne!(base, other_root);
    assert_ne!(base, with_next);
}

#[test]
fn ledger_info_getters() {
    let root = HashValue::new([9u8; 32]);
    let state = EpochState::new(6, ValidatorVerifier::new(vec![1, 2]));
    let info = LedgerInfo::new(5, 100, 42, root, Some(state.clone()));
    assert_eq!(info.epoch(), 5);
    assert_eq!(info.version(), 100);
    assert_eq!(info.timestamp_usecs(), 42);
    assert_eq!(info.transaction_accumulator_hash(), root);
    assert_eq!(info.next_epoch_state(), Some(&state));
    assert_eq!(state.epoch(), 6);
    assert_eq!(state.committee().to_bytes(), &vec![1u8, 2]);
    let plain = LedgerInfo::new(5, 100, 42, root, None);
    assert_eq!(plain.next_epoch_state(), None);
}
