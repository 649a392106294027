//! Checking one proof against what the client already trusts.
//!
//! A proof is checked in two steps: the proof server says whether the proof
//! itself verifies, and the client compares the committee hash that the proof
//! commits to with the one it trusts. Only then does it take over the second
//! public value: the hash of the next committee, or the root of the state.

use vstd::prelude::*;

use crate::error::ClientError;
use crate::hash::HashValue;
use crate::public_values::{ProofKind, PublicValues};

verus! {

/// What the verifier state is, as plain values.
pub struct VerifierStateView {
    pub committee_hash: Seq<u8>,
    pub state_root: Seq<u8>,
}

/// What the client has validated last: the hash of the committee it trusts and
/// the root of the account tree.
#[derive(Clone, Copy, Debug, PartialEq, Eq)]
pub struct VerifierState {
    pub committee_hash: HashValue,
    pub state_root: HashValue,
}

impl View for VerifierState {
    type V = VerifierStateView;

    open spec fn view(&self) -> VerifierStateView {
        VerifierStateView { committee_hash: self.committee_hash@, state_root: self.state_root@ }
    }
}

impl VerifierState {
    /// The verifier state before any inclusion proof was checked: the given
    /// committee hash, and a root of zeros.
    pub fn bootstrap(committee_hash: HashValue) -> (state: VerifierState)
        ensures
            state@ == (VerifierStateView {
                committee_hash: committee_hash@,
                state_root: Seq::new(32, |i: int| 0u8),
            }),
    {
        VerifierState { committee_hash, state_root: HashValue::zero() }
    }
}

/// How the check of one proof ends.
pub enum Verdict {
    /// The proof server sent back no byte at all.
    NoAnswer,
    /// The first byte of the answer is not `01`.
    Rejected,
    /// The public values end before the field that is read next.
    Truncated,
    /// The proof commits to another committee than the trusted one.
    WrongCommittee,
    /// The proof verifies and commits to the trusted committee.
    Accepted,
}

/// The verdict on a proof, given the answer of the proof server, the public
/// values of the proof and the trusted committee hash. Both classes of proof
/// expose the committee hash in their first 32 bytes and the value to take
/// over in the next 32; what follows is not read.
pub open spec fn verdict(response: Seq<u8>, public_values: Seq<u8>, committee_hash: Seq<u8>) -> Verdict {
    if response.len() == 0 {
        Verdict::NoAnswer
    } else if response[0] != 1 {
        Verdict::Rejected
    } else if public_values.len() < 32 {
        Verdict::Truncated
    } else if public_values.subrange(0, 32) != committee_hash {
        Verdict::WrongCommittee
    } else if public_values.len() < 64 {
        Verdict::Truncated
    } else {
        Verdict::Accepted
    }
}

/// How many public values the check of a proof reads.
pub open spec fn consumed(response: Seq<u8>, public_values: Seq<u8>, committee_hash: Seq<u8>) -> int {
    if response.len() == 0 || response[0] != 1 || public_values.len() < 32 {
        0
    } else if public_values.subrange(0, 32) != committee_hash || public_values.len() < 64 {
        32
    } else {
        64
    }
}

/// Whether `result` is the failure that the verdict `verdict` stands for, on
/// a proof of class `kind` whose first public value is read from
/// `public_values` and compared with the bytes `expected`.
pub open spec fn fails_with(
    result: ClientError,
    verdict: Verdict,
    kind: ProofKind,
    public_values: Seq<u8>,
    expected: Seq<u8>,
) -> bool {
    match verdict {
        Verdict::NoAnswer => result == ClientError::Decode,
        Verdict::Rejected => result == ClientError::VerifierRejected(kind),
        Verdict::Truncated => result == ClientError::Decode,
        Verdict::WrongCommittee => {
            &&& result matches ClientError::CommitteeHashMismatch { expected: wanted, actual }
            &&& wanted@ == expected
            &&& actual@ == public_values.subrange(0, 32)
        },
        Verdict::Accepted => false,
    }
}

/// Reads the answer of the proof server to a request for verification: the
/// first byte must be `01`.
pub fn check_response(response: &[u8], kind: ProofKind) -> (result: Result<(), ClientError>)
    ensures
        result == (if response@.len() == 0 {
            Err::<(), ClientError>(ClientError::Decode)
        } else if response@[0] == 1 {
            Ok(())
        } else {
            Err(ClientError::VerifierRejected(kind))
        }),
{
    if response.len() == 0 {
        Err(ClientError::Decode)
    } else if response[0] == 1 {
        Ok(())
    } else {
        Err(ClientError::VerifierRejected(kind))
    }
}

/// Checks that the committee which signed what the proof is about is the one
/// that the client trusts: reads the next 32 public values and compares them
/// with `expected_hash`.
pub fn assert_validator_verifier_predicate(
    public_values: &mut PublicValues,
    expected_hash: HashValue,
) -> (result: Result<(), ClientError>)
    ensures
        old(public_values)@.len() < 32 ==> {
            &&& result == Err::<(), ClientError>(ClientError::Decode)
            &&& final(public_values)@ == old(public_values)@
        },
        old(public_values)@.len() >= 32 ==> final(public_values)@ == old(public_values)@.skip(32),
        old(public_values)@.len() >= 32 && old(public_values)@.subrange(0, 32) == expected_hash@
            ==> result == Ok::<(), ClientError>(()),
        old(public_values)@.len() >= 32 && old(public_values)@.subrange(0, 32) != expected_hash@
            ==> {
            &&& result matches Err(ClientError::CommitteeHashMismatch { expected, actual })
            &&& expected == expected_hash
            &&& actual@ == old(public_values)@.subrange(0, 32)
        },
{
    let verifier_hash = match public_values.read_hash() {
        Some(value) => value,
        None => {
            return Err(ClientError::Decode);
        },
    };
    if verifier_hash == expected_hash {
        Ok(())
    } else {
        Err(ClientError::CommitteeHashMismatch { expected: expected_hash, actual: verifier_hash })
    }
}

/// Decides on an epoch-change proof, once the proof server has answered
/// `response` to the request to verify it. On acceptance the committee hash of
/// the verifier state becomes the second public value of the proof; the state
/// root stays.
pub fn epoch_change_verifying_task(
    response: &[u8],
    epoch_change_proof: &mut PublicValues,
    verifier_state: VerifierState,
) -> (result: Result<VerifierState, ClientError>)
    ensures
        final(epoch_change_proof)@ == old(epoch_change_proof)@.skip(
            consumed(response@, old(epoch_change_proof)@, verifier_state.committee_hash@),
        ),
        match result {
            Ok(state) => {
                &&& verdict(response@, old(epoch_change_proof)@, verifier_state.committee_hash@)
                    is Accepted
                &&& state@ == (VerifierStateView {
                    committee_hash: old(epoch_change_proof)@.subrange(32, 64),
                    state_root: verifier_state.state_root@,
                })
            },
            Err(error) => fails_with(
                error,
                verdict(response@, old(epoch_change_proof)@, verifier_state.committee_hash@),
                ProofKind::EpochChange,
                old(epoch_change_proof)@,
                verifier_state.committee_hash@,
            ),
        },
{
    match check_response(response, ProofKind::EpochChange) {
        Err(error) => {
            assert(epoch_change_proof@ == old(epoch_change_proof)@.skip(0));
            return Err(error);
        },
        Ok(_) => {},
    }
    match assert_validator_verifier_predicate(epoch_change_proof, verifier_state.committee_hash) {
        Err(error) => {
            assert(old(epoch_change_proof)@ == old(epoch_change_proof)@.skip(0));
            return Err(error);
        },
        Ok(_) => {},
    }
    match epoch_change_proof.read_hash() {
        Some(new_committee_hash) => {
            assert(old(epoch_change_proof)@.skip(32).subrange(0, 32) == old(epoch_change_proof)@
                .subrange(32, 64));
            assert(old(epoch_change_proof)@.skip(32).skip(32) == old(epoch_change_proof)@.skip(64));
            Ok(
                VerifierState {
                    committee_hash: new_committee_hash,
                    state_root: verifier_state.state_root,
                },
            )
        },
        None => Err(ClientError::Decode),
    }
}

/// Decides on an inclusion proof, once the proof server has answered
/// `response` to the request to verify it. On acceptance the state root of the
/// verifier state becomes the second public value of the proof; the committee
/// hash stays.
pub fn inclusion_verifying_task(
    response: &[u8],
    account_inclusion_proof: &mut PublicValues,
    verifier_state: VerifierState,
) -> (result: Result<VerifierState, ClientError>)
    ensures
        final(account_inclusion_proof)@ == old(account_inclusion_proof)@.skip(
            consumed(response@, old(account_inclusion_proof)@, verifier_state.committee_hash@),
        ),
        match result {
            Ok(state) => {
                &&& verdict(
                    response@,
                    old(account_inclusion_proof)@,
                    verifier_state.committee_hash@,
                ) is Accepted
                &&& state@ == (VerifierStateView {
                    committee_hash: verifier_state.committee_hash@,
                    state_root: old(account_inclusion_proof)@.subrange(32, 64),
                })
            },
            Err(error) => fails_with(
                error,
                verdict(response@, old(account_inclusion_proof)@, verifier_state.committee_hash@),
                ProofKind::Inclusion,
                old(account_inclusion_proof)@,
                verifier_state.committee_hash@,
            ),
        },
{
    match check_response(response, ProofKind::Inclusion) {
        Err(error) => {
            assert(account_inclusion_proof@ == old(account_inclusion_proof)@.skip(0));
            return Err(error);
        },
        Ok(_) => {},
    }
    match assert_validator_verifier_predicate(
        account_inclusion_proof,
        verifier_state.committee_hash,
    ) {
        Err(error) => {
            assert(old(account_inclusion_proof)@ == old(account_inclusion_proof)@.skip(0));
            return Err(error);
        },
        Ok(_) => {},
    }
    match account_inclusion_proof.read_hash() {
        Some(new_state_root) => {
            assert(old(account_inclusion_proof)@.skip(32).subrange(0, 32) == old(
                account_inclusion_proof
            )@.subrange(32, 64));
            assert(old(account_inclusion_proof)@.skip(32).skip(32) == old(
                account_inclusion_proof
            )@.skip(64));
            Ok(
                VerifierState {
                    committee_hash: verifier_state.committee_hash,
                    state_root: new_state_root,
                },
            )
        },
        None => Err(ClientError::Decode),
    }
}

} // verus!
