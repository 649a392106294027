//! The decisions of a proving task, between its calls to the Aptos node, the
//! ratchet and the proof server.

use vstd::prelude::*;

use crate::error::ClientError;
use crate::hash::HashValue;
use crate::trusted_state::{TrustedState, TrustedStateChange, TrustedStateChangeView};

verus! {

/// Captures the hash of the committee that the state sent by the node
/// trusts, which an epoch-change proof made from that state will name as the
/// previous committee. A state without a committee cannot start an epoch
/// change: the payload of the node is refused with `Decode`.
pub fn prior_committee_hash(trusted_state: &TrustedState) -> (result: Result<
    HashValue,
    ClientError,
>)
    ensures
        match result {
            Ok(hash) => trusted_state@.committee_hash() == Some(hash@),
            Err(error) => error == ClientError::Decode && trusted_state@.committee_hash() is None,
        },
{
    match trusted_state.committee_hash() {
        Some(hash) => Ok(hash),
        None => Err(ClientError::Decode),
    }
}

/// Takes the next trusted state out of what the ratchet returned. Only a
/// change of epoch is accepted; a change of version alone, or no change,
/// fails with `RatchetMismatch`.
pub fn ratcheted_state(change: TrustedStateChange) -> (result: Result<TrustedState, ClientError>)
    ensures
        match result {
            Ok(state) => change@ == (TrustedStateChangeView::Epoch { new_state: state@ }),
            Err(error) => error == ClientError::RatchetMismatch && !(change@ is Epoch),
        },
{
    match change {
        TrustedStateChange::Epoch { new_state } => Ok(new_state),
        _ => Err(ClientError::RatchetMismatch),
    }
}

} // verus!
