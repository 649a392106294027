//! The state that the client trusts, and what ratcheting it can yield.

use vstd::prelude::*;

use crate::hash::HashValue;
use crate::ledger::{committee_hash_spec, EpochState, EpochStateView, Version};
use crate::waypoint::{Waypoint, WaypointView};

verus! {

/// What a trusted state is, as plain values.
pub enum TrustedStateView {
    EpochWaypoint(WaypointView),
    EpochState { waypoint: WaypointView, epoch_state: EpochStateView },
}

impl TrustedStateView {
    /// The epoch of the state, where it has one.
    pub open spec fn epoch(self) -> Option<u64> {
        match self {
            TrustedStateView::EpochWaypoint(_) => None,
            TrustedStateView::EpochState { epoch_state, .. } => Some(epoch_state.epoch),
        }
    }

    /// The hash of the committee of the state, where it has one.
    pub open spec fn committee_hash(self) -> Option<Seq<u8>> {
        match self {
            TrustedStateView::EpochWaypoint(_) => None,
            TrustedStateView::EpochState { epoch_state, .. } => Some(
                committee_hash_spec(epoch_state.verifier),
            ),
        }
    }

    /// The version of the waypoint of the state.
    pub open spec fn version(self) -> Version {
        match self {
            TrustedStateView::EpochWaypoint(waypoint) => waypoint.version,
            TrustedStateView::EpochState { waypoint, .. } => waypoint.version,
        }
    }
}

/// A state of the ledger that a client has reason to trust.
#[derive(Debug, PartialEq, Eq)]
pub enum TrustedState {
    /// Only a waypoint is known: there is no committee yet, and no epoch.
    EpochWaypoint(Waypoint),
    /// The committee of an epoch is known, anchored at a waypoint.
    EpochState { waypoint: Waypoint, epoch_state: EpochState },
}

impl View for TrustedState {
    type V = TrustedStateView;

    open spec fn view(&self) -> TrustedStateView {
        match *self {
            TrustedState::EpochWaypoint(waypoint) => TrustedStateView::EpochWaypoint(waypoint@),
            TrustedState::EpochState { waypoint, epoch_state } => TrustedStateView::EpochState {
                waypoint: waypoint@,
                epoch_state: epoch_state@,
            },
        }
    }
}

impl Clone for TrustedState {
    fn clone(&self) -> (copy: TrustedState)
        ensures
            copy@ == self@,
    {
        match self {
            TrustedState::EpochWaypoint(waypoint) => TrustedState::EpochWaypoint(*waypoint),
            TrustedState::EpochState { waypoint, epoch_state } => TrustedState::EpochState {
                waypoint: *waypoint,
                epoch_state: epoch_state.clone(),
            },
        }
    }
}

impl TrustedState {
    /// The current epoch, or `None` for a state that has no epoch.
    pub fn epoch(&self) -> (epoch: Option<u64>)
        ensures
            epoch == self@.epoch(),
    {
        match self {
            TrustedState::EpochWaypoint(_) => None,
            TrustedState::EpochState { epoch_state, .. } => Some(epoch_state.epoch()),
        }
    }

    /// The version of the waypoint that anchors the state.
    pub fn version(&self) -> (version: Version)
        ensures
            version == self@.version(),
    {
        match self {
            TrustedState::EpochWaypoint(waypoint) => waypoint.version(),
            TrustedState::EpochState { waypoint, .. } => waypoint.version(),
        }
    }

    /// The hash of the committee that the state trusts, or `None` for a state
    /// that has no committee.
    pub fn committee_hash(&self) -> (hash: Option<HashValue>)
        ensures
            match hash {
                Some(value) => self@.committee_hash() == Some(value@),
                None => self@.committee_hash() is None,
            },
    {
        match self {
            TrustedState::EpochWaypoint(_) => None,
            TrustedState::EpochState { epoch_state, .. } => Some(epoch_state.committee().hash()),
        }
    }
}

/// What ratcheting a trusted state with a witness yields, as plain values.
pub enum TrustedStateChangeView {
    Epoch { new_state: TrustedStateView },
    Version { new_state: TrustedStateView },
    NoChange,
}

/// What ratcheting a trusted state with a witness yields.
#[derive(Debug, PartialEq, Eq)]
pub enum TrustedStateChange {
    /// The witness crosses at least one epoch boundary.
    Epoch { new_state: TrustedState },
    /// The witness advances the version within the epoch.
    Version { new_state: TrustedState },
    /// The witness is no newer than the state.
    NoChange,
}

impl View for TrustedStateChange {
    type V = TrustedStateChangeView;

    open spec fn view(&self) -> TrustedStateChangeView {
        match *self {
            TrustedStateChange::Epoch { new_state } => TrustedStateChangeView::Epoch {
                new_state: new_state@,
            },
            TrustedStateChange::Version { new_state } => TrustedStateChangeView::Version {
                new_state: new_state@,
            },
            TrustedStateChange::NoChange => TrustedStateChangeView::NoChange,
        }
    }
}

} // verus!
