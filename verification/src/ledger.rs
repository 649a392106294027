//! The ledger records that the client reads: committees, epoch states and
//! ledger infos.
//!
//! A validator committee is held as its canonical bytes; the client never looks
//! inside them, it only hashes them.

use vstd::prelude::*;
use vstd::string::StringSliceAdditionalSpecFns;

use crate::bytes::copy_range;
use crate::hash::{hash_data, prefixed_sha3, tagged_hash_spec, HashValue};

verus! {

/// A position in the ledger.
pub type Version = u64;

/// The committee hash of the committee whose canonical bytes are `verifier`.
pub open spec fn committee_hash_spec(verifier: Seq<u8>) -> Seq<u8> {
    tagged_hash_spec("ValidatorVerifier".spec_bytes(), verifier)
}

/// The set of signers that is authoritative for one epoch.
#[derive(Debug, PartialEq, Eq)]
pub struct ValidatorVerifier {
    canonical: Vec<u8>,
}

impl View for ValidatorVerifier {
    type V = Seq<u8>;

    closed spec fn view(&self) -> Seq<u8> {
        self.canonical@
    }
}

impl Clone for ValidatorVerifier {
    fn clone(&self) -> (copy: ValidatorVerifier)
        ensures
            copy@ == self@,
    {
        ValidatorVerifier::from_bytes(self.canonical.as_slice())
    }
}

impl ValidatorVerifier {
    /// The committee whose canonical bytes are `canonical`.
    pub fn new(canonical: Vec<u8>) -> (verifier: ValidatorVerifier)
        ensures
            verifier@ == canonical@,
    {
        ValidatorVerifier { canonical }
    }

    /// The committee whose canonical bytes are a copy of `canonical`.
    pub fn from_bytes(canonical: &[u8]) -> (verifier: ValidatorVerifier)
        ensures
            verifier@ == canonical@,
    {
        let copy = copy_range(canonical, 0, canonical.len());
        assert(canonical@.subrange(0, canonical@.len() as int) == canonical@);
        ValidatorVerifier { canonical: copy }
    }

    /// The canonical bytes of the committee.
    pub fn to_bytes(&self) -> (bytes: &Vec<u8>)
        ensures
            bytes@ == self@,
    {
        &self.canonical
    }

    /// The committee hash.
    pub fn hash(&self) -> (digest: HashValue)
        ensures
            digest@ == committee_hash_spec(self@),
    {
        let tag = prefixed_sha3("ValidatorVerifier".as_bytes());
        HashValue::new(hash_data(tag.as_slice(), self.canonical.as_slice()))
    }
}

/// What an epoch state is, as plain values.
pub struct EpochStateView {
    pub epoch: u64,
    pub verifier: Seq<u8>,
}

/// The committee of one epoch, with the number of that epoch.
#[derive(Debug, PartialEq, Eq)]
pub struct EpochState {
    epoch: u64,
    verifier: ValidatorVerifier,
}

impl View for EpochState {
    type V = EpochStateView;

    closed spec fn view(&self) -> EpochStateView {
        EpochStateView { epoch: self.epoch, verifier: self.verifier@ }
    }
}

impl Clone for EpochState {
    fn clone(&self) -> (copy: EpochState)
        ensures
            copy@ == self@,
    {
        EpochState { epoch: self.epoch, verifier: self.verifier.clone() }
    }
}

impl EpochState {
    /// The state of epoch `epoch` under the committee `verifier`.
    pub fn new(epoch: u64, verifier: ValidatorVerifier) -> (state: EpochState)
        ensures
            state@ == (EpochStateView { epoch, verifier: verifier@ }),
    {
        EpochState { epoch, verifier }
    }

    /// The number of the epoch.
    pub fn epoch(&self) -> (epoch: u64)
        ensures
            epoch == self@.epoch,
    {
        self.epoch
    }

    /// The committee of the epoch.
    pub fn committee(&self) -> (committee: &ValidatorVerifier)
        ensures
            committee@ == self@.verifier,
    {
        &self.verifier
    }
}

/// What a ledger info is, as plain values.
pub struct LedgerInfoView {
    pub epoch: u64,
    pub version: Version,
    pub timestamp_usecs: u64,
    pub transaction_accumulator_hash: Seq<u8>,
    pub next_epoch_state: Option<EpochStateView>,
}

/// The summary of the ledger at one version. A ledger info that carries a next
/// epoch state is the last one of its epoch.
#[derive(Debug, PartialEq, Eq)]
pub struct LedgerInfo {
    epoch: u64,
    version: Version,
    timestamp_usecs: u64,
    transaction_accumulator_hash: HashValue,
    next_epoch_state: Option<EpochState>,
}

impl View for LedgerInfo {
    type V = LedgerInfoView;

    closed spec fn view(&self) -> LedgerInfoView {
        LedgerInfoView {
            epoch: self.epoch,
            version: self.version,
            timestamp_usecs: self.timestamp_usecs,
            transaction_accumulator_hash: self.transaction_accumulator_hash@,
            next_epoch_state: match self.next_epoch_state {
                Some(state) => Some(state@),
                None => None,
            },
        }
    }
}

impl LedgerInfo {
    /// A ledger info with the given fields.
    pub fn new(
        epoch: u64,
        version: Version,
        timestamp_usecs: u64,
        transaction_accumulator_hash: HashValue,
        next_epoch_state: Option<EpochState>,
    ) -> (info: LedgerInfo)
        ensures
            info@ == (LedgerInfoView {
                epoch,
                version,
                timestamp_usecs,
                transaction_accumulator_hash: transaction_accumulator_hash@,
                next_epoch_state: match next_epoch_state {
                    Some(state) => Some(state@),
                    None => None,
                },
            }),
    {
        LedgerInfo {
            epoch,
            version,
            timestamp_usecs,
            transaction_accumulator_hash,
            next_epoch_state,
        }
    }

    /// The epoch that the ledger info belongs to.
    pub fn epoch(&self) -> (epoch: u64)
        ensures
            epoch == self@.epoch,
    {
        self.epoch
    }

    /// The version that the ledger info summarises.
    pub fn version(&self) -> (version: Version)
        ensures
            version == self@.version,
    {
        self.version
    }

    /// The time of the block, in microseconds.
    pub fn timestamp_usecs(&self) -> (timestamp: u64)
        ensures
            timestamp == self@.timestamp_usecs,
    {
        self.timestamp_usecs
    }

    /// The root of the transaction accumulator.
    pub fn transaction_accumulator_hash(&self) -> (root: HashValue)
        ensures
            root@ == self@.transaction_accumulator_hash,
    {
        self.transaction_accumulator_hash
    }

    /// The state of the epoch that follows, where this ledger info ends its own.
    pub fn next_epoch_state(&self) -> (next: Option<&EpochState>)
        ensures
            match next {
                Some(state) => self@.next_epoch_state == Some(state@),
                None => self@.next_epoch_state is None,
            },
    {
        self.next_epoch_state.as_ref()
    }
}

} // verus!
