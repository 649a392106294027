//! The failures of Merkle proofs over beacon-chain containers.

use vstd::prelude::*;
use vstd::string::StringExecFns;

use crate::text::{decimal, push_decimal};

verus! {

/// Errors possible while a Merkle branch is checked.
#[derive(Debug, PartialEq, Eq)]
pub enum MerkleError {
    /// The index is not one that the tree supports.
    Index(usize),
    /// Hashing failed; `source` says why.
    Hash { source: String },
    /// The branch has another length than the depth asks for.
    InvalidBranchLength { expected: usize, actual: usize },
    /// The generalized index does not lie at the given depth.
    InvalidGeneralizedIndex { depth: usize, generalized_index: usize, generalized_index_depth: u32 },
}

impl MerkleError {
    /// The text of the error.
    pub open spec fn spec_message(&self) -> Seq<char> {
        match *self {
            MerkleError::Index(index) => "Index not supported: "@ + decimal(index as nat),
            MerkleError::Hash { source } => "Error while computing the Merkle root: "@ + source@,
            MerkleError::InvalidBranchLength {
                expected,
                actual,
            } => "Unexpected branch length received. Expected "@ + decimal(expected as nat)
                + ", got "@ + decimal(actual as nat),
            MerkleError::InvalidGeneralizedIndex {
                depth,
                generalized_index,
                generalized_index_depth,
            } => "Unexpected generalized index for the depth. Generalized index "@ + decimal(
                generalized_index as nat,
            ) + " (depth "@ + decimal(generalized_index_depth as nat) + ") is not valid for depth "@
                + decimal(depth as nat),
        }
    }

    /// The text of the error, as it is shown to a user.
    pub fn message(&self) -> (text: String)
        ensures
            text@ == self.spec_message(),
    {
        match self {
            MerkleError::Index(index) => {
                let mut text = String::from_str("Index not supported: ");
                push_decimal(&mut text, *index as u64);
                text
            },
            MerkleError::Hash { source } => {
                let mut text = String::from_str("Error while computing the Merkle root: ");
                text.append(source.as_str());
                text
            },
            MerkleError::InvalidBranchLength { expected, actual } => {
                let mut text = String::from_str("Unexpected branch length received. Expected ");
                push_decimal(&mut text, *expected as u64);
                text.append(", got ");
                push_decimal(&mut text, *actual as u64);
                text
            },
            MerkleError::InvalidGeneralizedIndex {
                depth,
                generalized_index,
                generalized_index_depth,
            } => {
                let mut text = String::from_str(
                    "Unexpected generalized index for the depth. Generalized index ",
                );
                push_decimal(&mut text, *generalized_index as u64);
                text.append(" (depth ");
                push_decimal(&mut text, *generalized_index_depth as u64);
                text.append(") is not valid for depth ");
                push_decimal(&mut text, *depth as u64);
                text
            },
        }
    }
}

} // verus!
