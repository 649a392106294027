//! Waypoints: compact commitments to a ledger info.

use vstd::prelude::*;
use vstd::string::StringSliceAdditionalSpecFns;

use crate::bytes::append_bytes;
use crate::canonical::{bcs_summary, canonical_summary};
use crate::hash::{hash_data, prefixed_sha3, tagged_hash_spec, HashValue};
use crate::ledger::{EpochState, EpochStateView, LedgerInfo, LedgerInfoView, Version};

verus! {

/// What a waypoint is, as plain values.
pub struct WaypointView {
    pub version: Version,
    pub value: Seq<u8>,
}

/// The fields of a ledger info that a waypoint commits to, as plain values.
pub struct ConverterView {
    pub epoch: u64,
    pub root_hash: Seq<u8>,
    pub version: Version,
    pub timestamp_usecs: u64,
    pub next_epoch_state: Option<EpochStateView>,
}

impl ConverterView {
    /// The fields that a waypoint on `info` commits to.
    pub open spec fn of(info: LedgerInfoView) -> ConverterView {
        ConverterView {
            epoch: info.epoch,
            root_hash: info.transaction_accumulator_hash,
            version: info.version,
            timestamp_usecs: info.timestamp_usecs,
            next_epoch_state: info.next_epoch_state,
        }
    }

    /// The canonical bytes of the fields: the four scalars and the root hash,
    /// then the next epoch state, which is absent (`00`) or present (`01`, its
    /// epoch, the canonical bytes of its committee).
    pub open spec fn canonical_bytes(self) -> Seq<u8> {
        match self.next_epoch_state {
            None => canonical_summary(
                self.epoch,
                self.root_hash,
                self.version,
                self.timestamp_usecs,
                None,
            ),
            Some(state) => canonical_summary(
                self.epoch,
                self.root_hash,
                self.version,
                self.timestamp_usecs,
                Some(state.epoch),
            ) + state.verifier,
        }
    }

    /// The hash of the fields, which is the value of the waypoint.
    pub open spec fn hash(self) -> Seq<u8> {
        tagged_hash_spec("Ledger2WaypointConverter".spec_bytes(), self.canonical_bytes())
    }
}

/// The waypoint on the ledger info `info`.
pub open spec fn waypoint_of(info: LedgerInfoView) -> WaypointView {
    WaypointView { version: info.version, value: ConverterView::of(info).hash() }
}

/// A commitment to one ledger info: its version and the hash of the fields
/// that matter to a client.
#[derive(Debug, PartialEq, Eq, Clone, Copy)]
pub struct Waypoint {
    version: Version,
    value: HashValue,
}

impl View for Waypoint {
    type V = WaypointView;

    closed spec fn view(&self) -> WaypointView {
        WaypointView { version: self.version, value: self.value@ }
    }
}

impl Waypoint {
    /// The waypoint with the given version and value.
    pub fn new(version: Version, value: HashValue) -> (waypoint: Waypoint)
        ensures
            waypoint@ == (WaypointView { version, value: value@ }),
    {
        Waypoint { version, value }
    }

    /// Generates the waypoint on any ledger info.
    pub fn new_any(ledger_info: &LedgerInfo) -> (waypoint: Waypoint)
        ensures
            waypoint@ == waypoint_of(ledger_info@),
    {
        let converter = Ledger2WaypointConverter::new(ledger_info);
        Waypoint { version: ledger_info.version(), value: converter.hash() }
    }

    /// The version of the ledger info that the waypoint commits to.
    pub fn version(&self) -> (version: Version)
        ensures
            version == self@.version,
    {
        self.version
    }

    /// The hash of the committed fields.
    pub fn value(&self) -> (value: HashValue)
        ensures
            value@ == self@.value,
    {
        self.value
    }
}

/// The fields of a ledger info that a waypoint commits to.
#[derive(Debug, PartialEq, Eq)]
pub struct Ledger2WaypointConverter {
    epoch: u64,
    root_hash: HashValue,
    version: Version,
    timestamp_usecs: u64,
    next_epoch_state: Option<EpochState>,
}

impl View for Ledger2WaypointConverter {
    type V = ConverterView;

    closed spec fn view(&self) -> ConverterView {
        ConverterView {
            epoch: self.epoch,
            root_hash: self.root_hash@,
            version: self.version,
            timestamp_usecs: self.timestamp_usecs,
            next_epoch_state: match self.next_epoch_state {
                Some(state) => Some(state@),
                None => None,
            },
        }
    }
}

impl Ledger2WaypointConverter {
    /// Takes from `ledger_info` the fields that a waypoint commits to.
    pub fn new(ledger_info: &LedgerInfo) -> (converter: Ledger2WaypointConverter)
        ensures
            converter@ == ConverterView::of(ledger_info@),
    {
        let next_epoch_state = match ledger_info.next_epoch_state() {
            Some(state) => Some(state.clone()),
            None => None,
        };
        Ledger2WaypointConverter {
            epoch: ledger_info.epoch(),
            root_hash: ledger_info.transaction_accumulator_hash(),
            version: ledger_info.version(),
            timestamp_usecs: ledger_info.timestamp_usecs(),
            next_epoch_state,
        }
    }

    /// The canonical bytes of the fields.
    pub fn to_bytes(&self) -> (bytes: Vec<u8>)
        ensures
            bytes@ == self@.canonical_bytes(),
    {
        let root = self.root_hash.hash();
        proof {
            self.root_hash.lemma_len();
        }
        match &self.next_epoch_state {
            None => bcs_summary(
                self.epoch,
                root.as_slice(),
                self.version,
                self.timestamp_usecs,
                None,
            ),
            Some(state) => {
                let mut bytes = bcs_summary(
                    self.epoch,
                    root.as_slice(),
                    self.version,
                    self.timestamp_usecs,
                    Some(state.epoch()),
                );
                append_bytes(&mut bytes, state.committee().to_bytes().as_slice());
                bytes
            },
        }
    }

    /// The hash of the fields under the tag of this type.
    pub fn hash(&self) -> (digest: HashValue)
        ensures
            digest@ == self@.hash(),
    {
        let tag = prefixed_sha3("Ledger2WaypointConverter".as_bytes());
        let bytes = self.to_bytes();
        HashValue::new(hash_data(tag.as_slice(), bytes.as_slice()))
    }
}

impl Default for Ledger2WaypointConverter {
    fn default() -> (converter: Ledger2WaypointConverter)
        ensures
            converter@ == (ConverterView {
                epoch: 0,
                root_hash: Seq::new(32, |i: int| 0u8),
                version: 0,
                timestamp_usecs: 0,
                next_epoch_state: None,
            }),
    {
        Ledger2WaypointConverter {
            epoch: 0,
            root_hash: HashValue::zero(),
            version: 0,
            timestamp_usecs: 0,
            next_epoch_state: None,
        }
    }
}

} // verus!
