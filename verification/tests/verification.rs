use aptos_lc::error::ClientError;
use aptos_lc::hash::HashValue;
use aptos_lc::public_values::{ProofKind, PublicValues};
use aptos_lc::ratchet::{generate_stdin, read_ratchet_output, ProverInput, RatchetOutput};
use aptos_lc::verification::{
    assert_validator_verifier_predicate, check_response, epoch_change_verifying_task,
    inclusion_verifying_task, VerifierState,
};

fn two_hashes(first: u8, second: u8) -> Vec<u8> {
    let mut bytes = vec![first; 32];
    bytes.extend_from_slice(&[second; 32]);
    bytes
}

fn state(committee: u8, root: u8) -> VerifierState {
    VerifierState {
        committee_hash: HashValue::new([committee; 32]),
        state_root: HashValue::new([root; 32]),
    }
}

#[test]
fn public_values_are_read_in_order() {
    let mut values = PublicValues::from_bytes(vec![1, 2, 3, 4, 5]);
    assert_eq!(values.remaining(), 5);
    assert_eq!(values.read_bytes(2), Some(vec![1, 2]));
    assert_eq!(values.remaining(), 3);
    assert_eq!(values.read_bytes(4), None);
    assert_eq!(values.remaining(), 3);
    assert_eq!(values.read_bytes(3), Some(vec![3, 4, 5]));
    assert_eq!(values.read_bytes(0), Some(vec![]));
    assert_eq!(values.read_bytes(1), None);
}

#[test]
fn public_values_yield_digests() {
    let mut values = PublicValues::from_bytes(two_hashes(1, 2));
    assert_eq!(values.read_hash(), Some(HashValue::new([1; 32])));
    assert_eq!(values.read_hash(), Some(HashValue::new([2; 32])));
    assert_eq!(values.read_hash(), None);
    let mut short = PublicValues::from_bytes(vec![0; 31]);
    assert_eq!(short.read_hash(), None);
    assert_eq!(short.remaining(), 31);
}

#[test]
fn response_byte_decides() {
    assert_eq!(check_response(&[1], ProofKind::EpochChange), Ok(()));
    assert_eq!(check_response(&[1, 0, 0], ProofKind::Inclusion), Ok(()));
    assert_eq!(
        check_response(&[0], ProofKind::EpochChange),
        Err(ClientError::VerifierRejected(ProofKind::EpochChange))
    );
    assert_eq!(
        check_response(&[2], ProofKind::Inclusion),
        Err(ClientError::VerifierRejected(ProofKind::Inclusion))
    );
    assert_eq!(check_response(&[], ProofKind::Inclusion), Err(ClientError::Decode));
}

#[test]
fn predicate_compares_first_digest() {
    let mut values = PublicValues::from_bytes(two_hashes(7, 8));
    assert_eq!(assert_validator_verifier_predicate(&mut values, HashValue::new([7; 32])), Ok(()));
    assert_eq!(values.remaining(), 32);
    assert_eq!(
        assert_validator_verifier_predicate(&mut values, HashValue::new([7; 32])),
        Err(ClientError::CommitteeHashMismatch {
            expected: HashValue::new([7; 32]),
            actual: HashValue::new([8; 32]),
        })
    );
    assert_eq!(values.remaining(), 0);
    assert_eq!(
        assert_validator_verifier_predicate(&mut values, HashValue::new([7; 32])),
        Err(ClientError::Decode)
    );
}

#[test]
fn epoch_change_accepted_updates_committee_hash() {
    let mut values = PublicValues::from_bytes(two_hashes(5, 6));
    let result = epoch_change_verifying_task(&[1], &mut values, state(5, 9));
    assert_eq!(result, Ok(state(6, 9)));
    assert_eq!(values.remaining(), 0);
}

#[test]
fn epoch_change_rejected_by_server() {
    let mut values = PublicValues::from_bytes(two_hashes(5, 6));
    let result = epoch_change_verifying_task(&[0], &mut values, state(5, 9));
    assert_eq!(result, Err(ClientError::VerifierRejected(ProofKind::EpochChange)));
    assert_eq!(values.remaining(), 64);
}

#[test]
fn epoch_change_without_answer() {
    let mut values = PublicValues::from_bytes(two_hashes(5, 6));
    let result = epoch_change_verifying_task(&[], &mut values, state(5, 9));
    assert_eq!(result, Err(ClientError::Decode));
    assert_eq!(values.remaining(), 64);
}

#[test]
fn epoch_change_against_other_committee() {
    let mut values = PublicValues::from_bytes(two_hashes(4, 6));
    let result = epoch_change_verifying_task(&[1], &mut values, state(5, 9));
    assert_eq!(
        result,
        Err(ClientError::CommitteeHashMismatch {
            expected: HashValue::new([5; 32]),
            actual: HashValue::new([4; 32]),
        })
    );
    assert_eq!(values.remaining(), 32);
}

#[test]
fn epoch_change_with_short_public_values() {
    let mut none = PublicValues::from_bytes(vec![5; 31]);
    assert_eq!(epoch_change_verifying_task(&[1], &mut none, state(5, 9)), Err(ClientError::Decode));
    assert_eq!(none.remaining(), 31);
    let mut one = PublicValues::from_bytes(vec![5; 63]);
    assert_eq!(epoch_change_verifying_task(&[1], &mut one, state(5, 9)), Err(ClientError::Decode));
    assert_eq!(one.remaining(), 31);
}

#[test]
fn inclusion_accepted_updates_state_root() {
    let mut bytes = two_hashes(5, 6);
    bytes.extend_from_slice(&[0xaa; 17]);
    let mut values = PublicValues::from_bytes(bytes);
    let result = inclusion_verifying_task(&[1], &mut values, state(5, 9));
    assert_eq!(result, Ok(state(5, 6)));
    assert_eq!(values.remaining(), 17);
}

#[test]
fn inclusion_failures() {
    let mut values = PublicValues::from_bytes(two_hashes(5, 6));
    assert_eq!(
        inclusion_verifying_task(&[0], &mut values, state(5, 9)),
        Err(ClientError::VerifierRejected(ProofKind::Inclusion))
    );
    assert_eq!(inclusion_verifying_task(&[], &mut values, state(5, 9)), Err(ClientError::Decode));
    assert_eq!(
        inclusion_verifying_task(&[1], &mut values, state(3, 9)),
        Err(ClientError::CommitteeHashMismatch {
            expected: HashValue::new([3; 32]),
            actual: HashValue::new([5; 32]),
        })
    );
}

#[test]
fn verifier_state_bootstrap_has_zero_root() {
    let seed = VerifierState::bootstrap(HashValue::new([3; 32]));
    assert_eq!(seed, state(3, 0));
}

#[test]
fn proof_kind_names() {
    assert_eq!(ProofKind::EpochChange.name(), "Epoch Change");
    assert_eq!(ProofKind::Inclusion.name(), "Inclusion");
}

#[test]
fn client_error_fatality() {
    assert!(ClientError::InvariantBroken.is_fatal());
    assert!(ClientError::Join.is_fatal());
    assert!(!ClientError::Transport.is_fatal());
    assert!(!ClientError::Decode.is_fatal());
    assert!(!ClientError::RatchetMismatch.is_fatal());
    assert!(!ClientError::VerifierRejected(ProofKind::Inclusion).is_fatal());
    assert!(!ClientError::CommitteeHashMismatch {
        expected: HashValue::zero(),
        actual: HashValue::new([1; 32]),
    }
    .is_fatal());
}

#[test]
fn stdin_holds_state_then_witness() {
    let stdin = generate_stdin(&[1, 2, 3], &[4, 5]);
    assert_eq!(stdin.len(), 2);
    assert_eq!(stdin.entry(0), &vec![1u8, 2, 3]);
    assert_eq!(stdin.entry(1), &vec![4u8, 5]);
    let mut by_hand = ProverInput::new();
    assert_eq!(by_hand.len(), 0);
    by_hand.write(&[1, 2, 3]);
    by_hand.write(&[4, 5]);
    assert_eq!(by_hand, stdin);
    assert_ne!(generate_stdin(&[4, 5], &[1, 2, 3]), stdin);
}

#[test]
fn ratchet_output_is_two_digests() {
    let mut values = PublicValues::from_bytes(two_hashes(1, 2));
    assert_eq!(
        read_ratchet_output(&mut values),
        Ok(RatchetOutput {
            prev_validator_verifier_hash: [1; 32],
            new_validator_verifier_hash: [2; 32],
        })
    );
    assert_eq!(values.remaining(), 0);
    let mut short = PublicValues::from_bytes(vec![1; 63]);
    assert_eq!(read_ratchet_output(&mut short), Err(ClientError::Decode));
    assert_eq!(short.remaining(), 63);
}

#[test]
fn client_error_messages() {
    assert_eq!(
        ClientError::Transport.message(),
        "Transport: the network or the framing of a message failed"
    );
    assert_eq!(ClientError::Decode.message(), "Decode: a response payload is malformed");
    assert_eq!(ClientError::RatchetMismatch.message(), "RatchetMismatch: expected epoch change");
    assert_eq!(
        ClientError::VerifierRejected(ProofKind::EpochChange).message(),
        "VerifierRejected: Epoch Change proof could not be verified"
    );
    assert_eq!(
        ClientError::VerifierRejected(ProofKind::Inclusion).message(),
        "VerifierRejected: Inclusion proof could not be verified"
    );
    let mut actual = [0xabu8; 32];
    actual[0] = 0x01;
    actual[31] = 0xf0;
    assert_eq!(
        ClientError::CommitteeHashMismatch {
            expected: HashValue::zero(),
            actual: HashValue::new(actual),
        }
        .message(),
        format!(
            "CommitteeHashMismatch: expected {}, got 01{}f0",
            "00".repeat(32),
            "ab".repeat(30)
        )
    );
    assert_eq!(
        ClientError::InvariantBroken.message(),
        "InvariantBroken: the client state has no epoch, or a task was reported out of order"
    );
    assert_eq!(ClientError::Join.message(), "Join: a background task panicked or was cancelled");
}
