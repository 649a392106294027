//! The scheduler of the client: which proving tasks are admitted, and what
//! the verification of each one does to the trusted state.
//!
//! The program around this crate owns the timer, the sockets and the tasks.
//! It tells the pipeline what happened (`poll` on each tick, `verifier_step`
//! when the oldest task in flight has run its course) and is told what to do
//! next. A task carries the admission token of its class from the moment it is
//! admitted until its verification has ended one way or the other, so a token
//! is free exactly when no task of its class is in flight.

use std::collections::VecDeque;
use vstd::prelude::*;

use crate::error::ClientError;
use crate::public_values::{ProofKind, PublicValues};
use crate::trusted_state::{TrustedState, TrustedStateView};
use crate::verification::{
    epoch_change_verifying_task, fails_with, inclusion_verifying_task, verdict, VerifierState,
    VerifierStateView,
};

verus! {

/// The trusted state of the client. Only the verification of an epoch-change
/// proof replaces it.
pub type ClientState = TrustedState;

/// How many tasks the queue between the polling loop and the verifier holds.
pub const QUEUE_CAPACITY: usize = 100;

/// The time between two polls of the Aptos node, in seconds.
pub const POLLING_INTERVAL_SECS: u64 = 10;

/// What the polling loop has to start after a tick.
#[derive(Clone, Copy, Debug, PartialEq, Eq)]
pub struct PollOutcome {
    /// The epoch to prove the change to, where an epoch-change task was admitted.
    pub epoch_change: Option<u64>,
    /// Whether an inclusion task was admitted.
    pub inclusion: bool,
}

/// What became of the oldest task in flight, as plain values.
pub enum TaskReportView {
    Failed { kind: ProofKind, error: ClientError },
    EpochChange { ratcheted_state: TrustedStateView, public_values: Seq<u8>, response: Seq<u8> },
    Inclusion { public_values: Seq<u8>, response: Seq<u8> },
}

impl TaskReportView {
    /// The class of the task that the report is about.
    pub open spec fn kind(self) -> ProofKind {
        match self {
            TaskReportView::Failed { kind, .. } => kind,
            TaskReportView::EpochChange { .. } => ProofKind::EpochChange,
            TaskReportView::Inclusion { .. } => ProofKind::Inclusion,
        }
    }
}

/// What became of a task, as the program around the pipeline saw it.
#[derive(Debug)]
pub enum TaskReport {
    /// No proof came out of the proving task, or the request to verify its
    /// proof got no answer.
    Failed { kind: ProofKind, error: ClientError },
    /// The epoch-change task produced a proof and the trusted state that
    /// ratcheting leads to, and the proof server answered `response` to the
    /// request to verify the proof.
    EpochChange { ratcheted_state: TrustedState, public_values: PublicValues, response: Vec<u8> },
    /// The inclusion task produced a proof, and the proof server answered
    /// `response` to the request to verify it.
    Inclusion { public_values: PublicValues, response: Vec<u8> },
}

impl View for TaskReport {
    type V = TaskReportView;

    open spec fn view(&self) -> TaskReportView {
        match *self {
            TaskReport::Failed { kind, error } => TaskReportView::Failed { kind, error },
            TaskReport::EpochChange {
                ratcheted_state,
                public_values,
                response,
            } => TaskReportView::EpochChange {
                ratcheted_state: ratcheted_state@,
                public_values: public_values@,
                response: response@,
            },
            TaskReport::Inclusion { public_values, response } => TaskReportView::Inclusion {
                public_values: public_values@,
                response: response@,
            },
        }
    }
}

impl TaskReport {
    /// The class of the task that the report is about.
    pub fn kind(&self) -> (kind: ProofKind)
        ensures
            kind == self@.kind(),
    {
        match self {
            TaskReport::Failed { kind, .. } => *kind,
            TaskReport::EpochChange { .. } => ProofKind::EpochChange,
            TaskReport::Inclusion { .. } => ProofKind::Inclusion,
        }
    }
}

/// The pipeline as plain values.
pub struct PipelineView {
    /// The trusted state of the client.
    pub client_state: TrustedStateView,
    /// What the verifier validated last.
    pub verifier_state: VerifierStateView,
    /// The tasks that were admitted and whose verification has not ended,
    /// oldest first.
    pub in_flight: Seq<ProofKind>,
}

impl PipelineView {
    /// No class has two tasks in flight.
    pub open spec fn wf(self) -> bool {
        self.in_flight.no_duplicates()
    }

    /// Whether the admission token of the class `kind` is free.
    pub open spec fn token_available(self, kind: ProofKind) -> bool {
        !self.in_flight.contains(kind)
    }

    /// Whether a tick that sees the node at `node_epoch` admits an epoch-change
    /// task: the node is at another epoch than the client, and the token is free.
    pub open spec fn admits_epoch_change(self, node_epoch: u64) -> bool {
        &&& self.client_state.epoch() is Some
        &&& self.client_state.epoch() != Some(node_epoch)
        &&& self.token_available(ProofKind::EpochChange)
    }

    /// Whether a tick admits an inclusion task: the token is free.
    pub open spec fn admits_inclusion(self) -> bool {
        &&& self.client_state.epoch() is Some
        &&& self.token_available(ProofKind::Inclusion)
    }

    /// The tasks that a tick admits, in the order in which it submits them.
    pub open spec fn admitted(self, node_epoch: u64) -> Seq<ProofKind> {
        let first = if self.admits_epoch_change(node_epoch) {
            seq![ProofKind::EpochChange]
        } else {
            Seq::<ProofKind>::empty()
        };
        let second = if self.admits_inclusion() {
            seq![ProofKind::Inclusion]
        } else {
            Seq::<ProofKind>::empty()
        };
        first + second
    }

    /// The pipeline after a tick that sees the node at `node_epoch`.
    pub open spec fn after_poll(self, node_epoch: u64) -> PipelineView {
        PipelineView { in_flight: self.in_flight + self.admitted(node_epoch), ..self }
    }

    /// Whether `report` is about the task whose turn it is.
    pub open spec fn is_due(self, report: TaskReportView) -> bool {
        self.in_flight.len() > 0 && self.in_flight[0] == report.kind()
    }

    /// Whether the verifier accepts the proof that `report` brings.
    pub open spec fn accepts(self, report: TaskReportView) -> bool {
        &&& self.is_due(report)
        &&& match report {
            TaskReportView::Failed { .. } => false,
            TaskReportView::EpochChange { public_values, response, .. } => verdict(
                response,
                public_values,
                self.verifier_state.committee_hash,
            ) is Accepted,
            TaskReportView::Inclusion { public_values, response } => verdict(
                response,
                public_values,
                self.verifier_state.committee_hash,
            ) is Accepted,
        }
    }

    /// Whether `report` makes the verifier commit a new trusted state.
    pub open spec fn commits(self, report: TaskReportView) -> bool {
        self.accepts(report) && report is EpochChange
    }

    /// The pipeline after the verifier has dealt with `report`. A report that
    /// is not due changes nothing. One that is due takes its task out of
    /// flight; where its proof is accepted, an epoch change installs the
    /// ratcheted state and the new committee hash, an inclusion the new state
    /// root.
    pub open spec fn after_report(self, report: TaskReportView) -> PipelineView {
        if !self.is_due(report) {
            self
        } else if !self.accepts(report) {
            PipelineView { in_flight: self.in_flight.drop_first(), ..self }
        } else {
            match report {
                TaskReportView::Failed { .. } => self,
                TaskReportView::EpochChange {
                    ratcheted_state,
                    public_values,
                    ..
                } => PipelineView {
                    client_state: ratcheted_state,
                    verifier_state: VerifierStateView {
                        committee_hash: public_values.subrange(32, 64),
                        state_root: self.verifier_state.state_root,
                    },
                    in_flight: self.in_flight.drop_first(),
                },
                TaskReportView::Inclusion { public_values, .. } => PipelineView {
                    client_state: self.client_state,
                    verifier_state: VerifierStateView {
                        committee_hash: self.verifier_state.committee_hash,
                        state_root: public_values.subrange(32, 64),
                    },
                    in_flight: self.in_flight.drop_first(),
                },
            }
        }
    }
}

/// What putting `pushed` behind the tasks `queue` does to membership and to
/// the absence of duplicates.
pub(crate) proof fn lemma_put_behind(queue: Seq<ProofKind>, pushed: ProofKind, kind: ProofKind)
    ensures
        queue.push(pushed).contains(kind) <==> queue.contains(kind) || pushed == kind,
        queue.no_duplicates() && !queue.contains(pushed) ==> queue.push(pushed).no_duplicates(),
{
    let longer = queue.push(pushed);
    if queue.contains(kind) {
        let i = choose|i: int| 0 <= i < queue.len() && queue[i] == kind;
        assert(longer[i] == kind);
    }
    if pushed == kind {
        assert(longer[queue.len() as int] == kind);
    }
    if longer.contains(kind) && pushed != kind {
        let i = choose|i: int| 0 <= i < longer.len() && longer[i] == kind;
        assert(queue[i] == kind);
    }
}

/// The state of the client between two events: what it trusts, and which
/// tasks are in flight.
#[derive(Debug)]
pub struct Pipeline {
    client_state: ClientState,
    verifier_state: VerifierState,
    in_flight: VecDeque<ProofKind>,
}

impl View for Pipeline {
    type V = PipelineView;

    closed spec fn view(&self) -> PipelineView {
        PipelineView {
            client_state: self.client_state@,
            verifier_state: self.verifier_state@,
            in_flight: self.in_flight@,
        }
    }
}

impl Pipeline {
    /// A pipeline that trusts `client_state` and `verifier_state`, with no
    /// task in flight.
    pub fn new(client_state: ClientState, verifier_state: VerifierState) -> (pipeline: Pipeline)
        ensures
            pipeline@ == (PipelineView {
                client_state: client_state@,
                verifier_state: verifier_state@,
                in_flight: Seq::<ProofKind>::empty(),
            }),
            pipeline@.wf(),
    {
        Pipeline { client_state, verifier_state, in_flight: VecDeque::new() }
    }

    /// The trusted state of the client.
    pub fn client_state(&self) -> (state: &ClientState)
        ensures
            state@ == self@.client_state,
    {
        &self.client_state
    }

    /// What the verifier validated last.
    pub fn verifier_state(&self) -> (state: VerifierState)
        ensures
            state@ == self@.verifier_state,
    {
        self.verifier_state
    }

    /// How many tasks are in flight.
    pub fn in_flight(&self) -> (count: usize)
        ensures
            count == self@.in_flight.len(),
    {
        self.in_flight.len()
    }

    /// The class of the task whose turn it is, if any task is in flight.
    pub fn next_task(&self) -> (due: Option<ProofKind>)
        ensures
            due == (if self@.in_flight.len() > 0 {
                Some(self@.in_flight[0])
            } else {
                None
            }),
    {
        if self.in_flight.len() > 0 {
            Some(self.in_flight[0])
        } else {
            None
        }
    }

    /// Whether the admission token of the class `kind` is free.
    pub fn token_available(&self, kind: ProofKind) -> (available: bool)
        ensures
            available == self@.token_available(kind),
    {
        let mut i: usize = 0;
        while i < self.in_flight.len()
            invariant
                i <= self.in_flight@.len(),
                forall|j: int| 0 <= j < i ==> self.in_flight@[j] != kind,
            decreases self.in_flight@.len() - i,
        {
            if self.in_flight[i] == kind {
                return false;
            }
            i += 1;
        }
        true
    }

    /// One tick of the polling loop, which has just seen the node at epoch
    /// `node_epoch`. Admits an epoch-change task if the node is at another
    /// epoch than the client and no such task is in flight, then an inclusion
    /// task if none is in flight. What is not admitted is dropped: the next
    /// tick tries again. A client state without an epoch is fatal.
    pub fn poll(&mut self, node_epoch: u64) -> (result: Result<PollOutcome, ClientError>)
        requires
            old(self)@.wf(),
        ensures
            final(self)@.wf(),
            final(self)@ == old(self)@.after_poll(node_epoch),
            result == (if old(self)@.client_state.epoch() is None {
                Err::<PollOutcome, ClientError>(ClientError::InvariantBroken)
            } else {
                Ok(
                    PollOutcome {
                        epoch_change: if old(self)@.admits_epoch_change(node_epoch) {
                            Some(node_epoch)
                        } else {
                            None
                        },
                        inclusion: old(self)@.admits_inclusion(),
                    },
                )
            }),
    {
        let client_epoch = match self.client_state.epoch() {
            Some(epoch) => epoch,
            None => {
                assert(self@.in_flight + self@.admitted(node_epoch) == self@.in_flight);
                return Err(ClientError::InvariantBroken);
            },
        };
        let mut outcome = PollOutcome { epoch_change: None, inclusion: false };
        if node_epoch != client_epoch && self.token_available(ProofKind::EpochChange) {
            proof {
                lemma_put_behind(self.in_flight@, ProofKind::EpochChange, ProofKind::Inclusion);
            }
            self.in_flight.push_back(ProofKind::EpochChange);
            outcome.epoch_change = Some(node_epoch);
        }
        if self.token_available(ProofKind::Inclusion) {
            proof {
                lemma_put_behind(self.in_flight@, ProofKind::Inclusion, ProofKind::Inclusion);
            }
            self.in_flight.push_back(ProofKind::Inclusion);
            outcome.inclusion = true;
        }
        assert(self@.in_flight == old(self)@.in_flight + old(self)@.admitted(node_epoch));
        Ok(outcome)
    }

    /// One turn of the verifier, on what became of a task. The report must be
    /// about the oldest task in flight: any other is an ordering violation
    /// and changes nothing. The task leaves the pipeline, which frees its
    /// token, whether its proof is accepted or not; only an accepted proof
    /// changes what the client trusts.
    pub fn verifier_step(&mut self, report: TaskReport) -> (result: Result<(), ClientError>)
        requires
            old(self)@.wf(),
        ensures
            final(self)@.wf(),
            final(self)@ == old(self)@.after_report(report@),
            !old(self)@.is_due(report@) ==> result == Err::<(), ClientError>(
                ClientError::InvariantBroken,
            ),
            old(self)@.is_due(report@) ==> match report@ {
                TaskReportView::Failed { error, .. } => result == Err::<(), ClientError>(error),
                TaskReportView::EpochChange { public_values, response, .. } => match result {
                    Ok(_) => old(self)@.accepts(report@),
                    Err(error) => fails_with(
                        error,
                        verdict(response, public_values, old(self)@.verifier_state.committee_hash),
                        ProofKind::EpochChange,
                        public_values,
                        old(self)@.verifier_state.committee_hash,
                    ),
                },
                TaskReportView::Inclusion { public_values, response } => match result {
                    Ok(_) => old(self)@.accepts(report@),
                    Err(error) => fails_with(
                        error,
                        verdict(response, public_values, old(self)@.verifier_state.committee_hash),
                        ProofKind::Inclusion,
                        public_values,
                        old(self)@.verifier_state.committee_hash,
                    ),
                },
            },
    {
        let due = match self.next_task() {
            Some(kind) => kind == report.kind(),
            None => false,
        };
        if !due {
            return Err(ClientError::InvariantBroken);
        }
        let _ = self.in_flight.pop_front();
        assert(self.in_flight@ == old(self)@.in_flight.drop_first());
        match report {
            TaskReport::Failed { error, .. } => Err(error),
            TaskReport::EpochChange { ratcheted_state, public_values, response } => {
                let mut public_values = public_values;
                match epoch_change_verifying_task(
                    response.as_slice(),
                    &mut public_values,
                    self.verifier_state,
                ) {
                    Ok(verifier_state) => {
                        self.verifier_state = verifier_state;
                        self.client_state = ratcheted_state;
                        Ok(())
                    },
                    Err(error) => Err(error),
                }
            },
            TaskReport::Inclusion { public_values, response } => {
                let mut public_values = public_values;
                match inclusion_verifying_task(
                    response.as_slice(),
                    &mut public_values,
                    self.verifier_state,
                ) {
                    Ok(verifier_state) => {
                        self.verifier_state = verifier_state;
                        Ok(())
                    },
                    Err(error) => Err(error),
                }
            },
        }
    }
}

} // verus!
