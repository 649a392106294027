//! Cold start: from the first two proofs to a running pipeline.
//!
//! A client that starts has no committee to trust. It takes the committee
//! that the first epoch-change proof starts from, has that proof verified,
//! and only then has the first inclusion proof verified, against the
//! committee that the epoch change led to. Any other order is refused.

use vstd::prelude::*;

use crate::error::ClientError;
use crate::hash::HashValue;
use crate::pipeline::{Pipeline, PipelineView};
use crate::public_values::{ProofKind, PublicValues};
use crate::trusted_state::{TrustedState, TrustedStateView};
use crate::verification::{
    epoch_change_verifying_task, fails_with, inclusion_verifying_task, verdict, VerifierState,
    VerifierStateView,
};

verus! {

/// How far the cold start has come.
#[derive(Clone, Copy, Debug, PartialEq, Eq, Structural)]
pub enum Phase {
    /// The epoch-change proof is to be verified.
    EpochChange,
    /// The epoch-change proof is verified; the inclusion proof is next.
    Inclusion,
    /// Both proofs are verified.
    Done,
}

/// A cold start as plain values.
pub struct BootstrapView {
    pub ratcheted_state: TrustedStateView,
    pub verifier_state: VerifierStateView,
    pub phase: Phase,
}

/// A cold start in progress.
#[derive(Debug)]
pub struct Bootstrap {
    ratcheted_state: TrustedState,
    verifier_state: VerifierState,
    phase: Phase,
}

impl View for Bootstrap {
    type V = BootstrapView;

    closed spec fn view(&self) -> BootstrapView {
        BootstrapView {
            ratcheted_state: self.ratcheted_state@,
            verifier_state: self.verifier_state@,
            phase: self.phase,
        }
    }
}

impl Bootstrap {
    /// Starts from what the first epoch-change task returned: the trusted
    /// state that ratcheting leads to, and the hash of the committee that the
    /// ratchet started from. The verifier state is seeded with that hash and
    /// a state root of zeros.
    pub fn new(ratcheted_state: TrustedState, prior_committee_hash: HashValue) -> (bootstrap:
        Bootstrap)
        ensures
            bootstrap@ == (BootstrapView {
                ratcheted_state: ratcheted_state@,
                verifier_state: VerifierStateView {
                    committee_hash: prior_committee_hash@,
                    state_root: Seq::new(32, |i: int| 0u8),
                },
                phase: Phase::EpochChange,
            }),
    {
        Bootstrap {
            ratcheted_state,
            verifier_state: VerifierState::bootstrap(prior_committee_hash),
            phase: Phase::EpochChange,
        }
    }

    /// How far the cold start has come.
    pub fn phase(&self) -> (phase: Phase)
        ensures
            phase == self@.phase,
    {
        self.phase
    }

    /// What the verifier has validated so far.
    pub fn verifier_state(&self) -> (state: VerifierState)
        ensures
            state@ == self@.verifier_state,
    {
        self.verifier_state
    }

    /// Decides on the epoch-change proof, which must be the first proof to be
    /// verified: at any other time the call fails with `InvariantBroken`. A
    /// proof that is not accepted leaves the cold start where it was.
    pub fn verify_epoch_change(&mut self, response: &[u8], public_values: PublicValues) -> (result:
        Result<(), ClientError>)
        ensures
            final(self)@.ratcheted_state == old(self)@.ratcheted_state,
            !(old(self)@.phase is EpochChange) ==> result == Err::<(), ClientError>(
                ClientError::InvariantBroken,
            ) && final(self)@ == old(self)@,
            old(self)@.phase is EpochChange ==> match result {
                Ok(_) => {
                    &&& verdict(response@, public_values@, old(self)@.verifier_state.committee_hash)
                        is Accepted
                    &&& final(self)@.phase is Inclusion
                    &&& final(self)@.verifier_state == (VerifierStateView {
                        committee_hash: public_values@.subrange(32, 64),
                        state_root: old(self)@.verifier_state.state_root,
                    })
                },
                Err(error) => {
                    &&& fails_with(
                        error,
                        verdict(
                            response@,
                            public_values@,
                            old(self)@.verifier_state.committee_hash,
                        ),
                        ProofKind::EpochChange,
                        public_values@,
                        old(self)@.verifier_state.committee_hash,
                    )
                    &&& final(self)@ == old(self)@
                },
            },
    {
        match self.phase {
            Phase::EpochChange => {},
            _ => {
                return Err(ClientError::InvariantBroken);
            },
        }
        let mut public_values = public_values;
        match epoch_change_verifying_task(response, &mut public_values, self.verifier_state) {
            Ok(verifier_state) => {
                self.verifier_state = verifier_state;
                self.phase = Phase::Inclusion;
                Ok(())
            },
            Err(error) => Err(error),
        }
    }

    /// Decides on the inclusion proof, which is verified against the
    /// committee that the epoch change led to: before the epoch-change proof
    /// is verified, or after the inclusion proof is, the call fails with
    /// `InvariantBroken`. A proof that is not accepted leaves the cold start
    /// where it was.
    pub fn verify_inclusion(&mut self, response: &[u8], public_values: PublicValues) -> (result:
        Result<(), ClientError>)
        ensures
            final(self)@.ratcheted_state == old(self)@.ratcheted_state,
            !(old(self)@.phase is Inclusion) ==> result == Err::<(), ClientError>(
                ClientError::InvariantBroken,
            ) && final(self)@ == old(self)@,
            old(self)@.phase is Inclusion ==> match result {
                Ok(_) => {
                    &&& verdict(response@, public_values@, old(self)@.verifier_state.committee_hash)
                        is Accepted
                    &&& final(self)@.phase is Done
                    &&& final(self)@.verifier_state == (VerifierStateView {
                        committee_hash: old(self)@.verifier_state.committee_hash,
                        state_root: public_values@.subrange(32, 64),
                    })
                },
                Err(error) => {
                    &&& fails_with(
                        error,
                        verdict(
                            response@,
                            public_values@,
                            old(self)@.verifier_state.committee_hash,
                        ),
                        ProofKind::Inclusion,
                        public_values@,
                        old(self)@.verifier_state.committee_hash,
                    )
                    &&& final(self)@ == old(self)@
                },
            },
    {
        match self.phase {
            Phase::Inclusion => {},
            _ => {
                return Err(ClientError::InvariantBroken);
            },
        }
        let mut public_values = public_values;
        match inclusion_verifying_task(response, &mut public_values, self.verifier_state) {
            Ok(verifier_state) => {
                self.verifier_state = verifier_state;
                self.phase = Phase::Done;
                Ok(())
            },
            Err(error) => Err(error),
        }
    }

    /// Ends the cold start: the pipeline trusts the ratcheted state and what
    /// the two proofs established, and has no task in flight. Fails with
    /// `InvariantBroken` unless both proofs are verified.
    pub fn finish(self) -> (result: Result<Pipeline, ClientError>)
        ensures
            match result {
                Ok(pipeline) => {
                    &&& self@.phase is Done
                    &&& pipeline@.wf()
                    &&& pipeline@ == (PipelineView {
                        client_state: self@.ratcheted_state,
                        verifier_state: self@.verifier_state,
                        in_flight: Seq::<ProofKind>::empty(),
                    })
                },
                Err(error) => error == ClientError::InvariantBroken && !(self@.phase is Done),
            },
    {
        match self.phase {
            Phase::Done => Ok(Pipeline::new(self.ratcheted_state, self.verifier_state)),
            _ => Err(ClientError::InvariantBroken),
        }
    }
}

} // verus!
