//! The kinds of failure that the client tells apart.

use vstd::prelude::*;
use vstd::string::StringExecFns;

use crate::hash::HashValue;
use crate::public_values::ProofKind;
use crate::text::{hex, push_hex};

verus! {

/// What ended a task of the client.
#[derive(Clone, Copy, Debug, PartialEq, Eq)]
pub enum ClientError {
    /// The network or the framing of a message failed.
    Transport,
    /// A response was received but its payload is malformed.
    Decode,
    /// Ratcheting the trusted state did not cross an epoch boundary.
    RatchetMismatch,
    /// The proof server answered that a proof of this class does not verify.
    VerifierRejected(ProofKind),
    /// A proof commits to a committee other than the one the client trusts.
    CommitteeHashMismatch { expected: HashValue, actual: HashValue },
    /// The client's own state is one that must never arise.
    InvariantBroken,
    /// A background task panicked or was cancelled.
    Join,
}

impl ClientError {
    /// The text of the error.
    pub open spec fn spec_message(&self) -> Seq<char> {
        match *self {
            ClientError::Transport => "Transport: the network or the framing of a message failed"@,
            ClientError::Decode => "Decode: a response payload is malformed"@,
            ClientError::RatchetMismatch => "RatchetMismatch: expected epoch change"@,
            ClientError::VerifierRejected(kind) => "VerifierRejected: "@ + kind.spec_name()
                + " proof could not be verified"@,
            ClientError::CommitteeHashMismatch {
                expected,
                actual,
            } => "CommitteeHashMismatch: expected "@ + hex(expected@) + ", got "@ + hex(actual@),
            ClientError::InvariantBroken =>
                "InvariantBroken: the client state has no epoch, or a task was reported out of order"@,
            ClientError::Join => "Join: a background task panicked or was cancelled"@,
        }
    }

    /// The text of the error, as it is written to the log.
    pub fn message(&self) -> (text: String)
        ensures
            text@ == self.spec_message(),
    {
        match self {
            ClientError::Transport => String::from_str(
                "Transport: the network or the framing of a message failed",
            ),
            ClientError::Decode => String::from_str("Decode: a response payload is malformed"),
            ClientError::RatchetMismatch => String::from_str(
                "RatchetMismatch: expected epoch change",
            ),
            ClientError::VerifierRejected(kind) => {
                let mut text = String::from_str("VerifierRejected: ");
                text.append(kind.name());
                text.append(" proof could not be verified");
                text
            },
            ClientError::CommitteeHashMismatch { expected, actual } => {
                let mut text = String::from_str("CommitteeHashMismatch: expected ");
                push_hex(&mut text, expected.to_vec().as_slice());
                text.append(", got ");
                push_hex(&mut text, actual.to_vec().as_slice());
                text
            },
            ClientError::InvariantBroken => String::from_str(
                "InvariantBroken: the client state has no epoch, or a task was reported out of order",
            ),
            ClientError::Join => String::from_str(
                "Join: a background task panicked or was cancelled",
            ),
        }
    }

    /// Whether the error is one of the two kinds that end the process.
    pub open spec fn spec_is_fatal(&self) -> bool {
        *self is InvariantBroken || *self is Join
    }

    /// Whether the process must stop on this error. Every other kind is
    /// handled where it occurs: the task is dropped and the next poll retries.
    #[verifier::when_used_as_spec(spec_is_fatal)]
    pub fn is_fatal(&self) -> (fatal: bool)
        ensures
            fatal == self.spec_is_fatal(),
    {
        match self {
            ClientError::InvariantBroken => true,
            ClientError::Join => true,
            _ => false,
        }
    }
}

} // verus!
