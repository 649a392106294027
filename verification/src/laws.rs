//! What holds of every run of the pipeline.
//!
//! A run is a sequence of events, ticks of the polling loop and reports to the
//! verifier, applied to a pipeline one after the other. The statements below
//! are about the plain-value model of the pipeline, which `Pipeline::poll` and
//! `Pipeline::verifier_step` are proved to follow.

use vstd::prelude::*;

use crate::pipeline::{lemma_put_behind, PipelineView, TaskReportView, QUEUE_CAPACITY};
use crate::public_values::ProofKind;
use crate::trusted_state::TrustedStateView;

verus! {

/// One thing that happens to the pipeline.
pub enum Event {
    /// The polling loop ticks and sees the node at `node_epoch`.
    Tick { node_epoch: u64 },
    /// The verifier is told what became of a task.
    Report { report: TaskReportView },
}

/// The epoch of a trusted state as a number; a state without an epoch ranks
/// below every epoch.
pub open spec fn epoch_rank(state: TrustedStateView) -> int {
    match state.epoch() {
        Some(epoch) => epoch as int,
        None => -1,
    }
}

/// The pipeline after one event.
pub open spec fn step(pipeline: PipelineView, event: Event) -> PipelineView {
    match event {
        Event::Tick { node_epoch } => pipeline.after_poll(node_epoch),
        Event::Report { report } => pipeline.after_report(report),
    }
}

/// The pipeline after the events `events`, first to last.
pub open spec fn run(pipeline: PipelineView, events: Seq<Event>) -> PipelineView
    decreases events.len(),
{
    if events.len() == 0 {
        pipeline
    } else {
        step(run(pipeline, events.drop_last()), events.last())
    }
}

/// The tasks that one event admits, in the order of their submission.
pub open spec fn admitted_by(pipeline: PipelineView, event: Event) -> Seq<ProofKind> {
    match event {
        Event::Tick { node_epoch } => pipeline.admitted(node_epoch),
        Event::Report { .. } => Seq::<ProofKind>::empty(),
    }
}

/// The task whose verification one event ends, if it ends any.
pub open spec fn completed_by(pipeline: PipelineView, event: Event) -> Seq<ProofKind> {
    match event {
        Event::Tick { .. } => Seq::<ProofKind>::empty(),
        Event::Report { report } => if pipeline.is_due(report) {
            seq![report.kind()]
        } else {
            Seq::<ProofKind>::empty()
        },
    }
}

/// The tasks admitted during a run, in the order of their submission.
pub open spec fn admitted_during(pipeline: PipelineView, events: Seq<Event>) -> Seq<ProofKind>
    decreases events.len(),
{
    if events.len() == 0 {
        Seq::<ProofKind>::empty()
    } else {
        admitted_during(pipeline, events.drop_last()) + admitted_by(
            run(pipeline, events.drop_last()),
            events.last(),
        )
    }
}

/// The tasks whose verification ended during a run, in the order in which the
/// verifier dealt with them.
pub open spec fn completed_during(pipeline: PipelineView, events: Seq<Event>) -> Seq<ProofKind>
    decreases events.len(),
{
    if events.len() == 0 {
        Seq::<ProofKind>::empty()
    } else {
        completed_during(pipeline, events.drop_last()) + completed_by(
            run(pipeline, events.drop_last()),
            events.last(),
        )
    }
}

/// Whether an event, where it commits a new trusted state, commits one whose
/// epoch is not below the epoch of the state it replaces.
pub open spec fn ratchets_forward(pipeline: PipelineView, event: Event) -> bool {
    match event {
        Event::Tick { .. } => true,
        Event::Report { report } => pipeline.commits(report) ==> epoch_rank(pipeline.client_state)
            <= epoch_rank(report->ratcheted_state),
    }
}

/// Whether the committee hash that the verifier holds is the hash of the
/// committee in the trusted state of the client.
pub open spec fn coherent(pipeline: PipelineView) -> bool {
    pipeline.client_state.committee_hash() == Some(pipeline.verifier_state.committee_hash)
}

/// A tick changes neither the trusted state nor the verifier state.
pub proof fn law_tick_keeps_trust(pipeline: PipelineView, node_epoch: u64)
    ensures
        pipeline.after_poll(node_epoch).client_state == pipeline.client_state,
        pipeline.after_poll(node_epoch).verifier_state == pipeline.verifier_state,
{
}

/// No event puts a second task of a class in flight: where no class has two
/// tasks in flight before an event, none has after it.
pub proof fn law_one_task_per_class(pipeline: PipelineView, event: Event)
    requires
        pipeline.wf(),
    ensures
        step(pipeline, event).wf(),
{
    match event {
        Event::Tick { node_epoch } => {
            let queue = pipeline.in_flight;
            let first = if pipeline.admits_epoch_change(node_epoch) {
                queue.push(ProofKind::EpochChange)
            } else {
                queue
            };
            lemma_put_behind(queue, ProofKind::EpochChange, ProofKind::Inclusion);
            lemma_put_behind(first, ProofKind::Inclusion, ProofKind::Inclusion);
            let second = if pipeline.admits_inclusion() {
                first.push(ProofKind::Inclusion)
            } else {
                first
            };
            assert(queue + pipeline.admitted(node_epoch) =~= second);
        },
        Event::Report { report } => {
            if pipeline.is_due(report) {
                let rest = pipeline.in_flight.drop_first();
                assert forall|i: int, j: int| 0 <= i < rest.len() && 0 <= j < rest.len() && i != j
                    implies rest[i] != rest[j] by {
                    assert(rest[i] == pipeline.in_flight[i + 1]);
                    assert(rest[j] == pipeline.in_flight[j + 1]);
                }
            }
        },
    }
}

/// At any time, at most one epoch-change task and at most one inclusion task
/// are in flight: that holds after every run that starts from a pipeline of
/// which it holds.
pub proof fn law_at_most_one_in_flight(pipeline: PipelineView, events: Seq<Event>)
    requires
        pipeline.wf(),
    ensures
        run(pipeline, events).wf(),
        run(pipeline, events).in_flight.len() <= 2,
        run(pipeline, events).in_flight.len() <= QUEUE_CAPACITY,
    decreases events.len(),
{
    if events.len() > 0 {
        law_at_most_one_in_flight(pipeline, events.drop_last());
        law_one_task_per_class(run(pipeline, events.drop_last()), events.last());
    }
    lemma_two_classes(run(pipeline, events).in_flight);
}

/// The verifier deals with tasks in the order of their submission: at the end
/// of any run, the tasks that were in flight at its start, followed by those
/// admitted during it, are the tasks completed during it followed by those
/// still in flight.
pub proof fn law_submission_order(pipeline: PipelineView, events: Seq<Event>)
    ensures
        pipeline.in_flight + admitted_during(pipeline, events) == completed_during(
            pipeline,
            events,
        ) + run(pipeline, events).in_flight,
    decreases events.len(),
{
    if events.len() == 0 {
        assert(pipeline.in_flight + Seq::<ProofKind>::empty() =~= Seq::<ProofKind>::empty()
            + pipeline.in_flight);
    } else {
        let earlier = events.drop_last();
        let before = run(pipeline, earlier);
        law_submission_order(pipeline, earlier);
        let admitted = admitted_during(pipeline, earlier);
        let completed = completed_during(pipeline, earlier);
        assert(pipeline.in_flight + admitted == completed + before.in_flight);
        match events.last() {
            Event::Tick { node_epoch } => {
                let added = before.admitted(node_epoch);
                assert(pipeline.in_flight + (admitted + added) =~= (pipeline.in_flight + admitted)
                    + added);
                assert((completed + Seq::<ProofKind>::empty()) + (before.in_flight + added) =~= (
                completed + before.in_flight) + added);
            },
            Event::Report { report } => {
                assert(admitted + Seq::<ProofKind>::empty() =~= admitted);
                if before.is_due(report) {
                    assert((completed + seq![report.kind()]) + before.in_flight.drop_first()
                        =~= completed + before.in_flight);
                } else {
                    assert(completed + Seq::<ProofKind>::empty() =~= completed);
                }
            },
        }
    }
}

/// The epochs of the trusted states that a run commits never decrease, in any
/// run in which each ratcheted state that is committed is not older than the
/// state it replaces: the state after `later` events is not older than the
/// state after `sooner` of them.
pub proof fn law_epochs_non_decreasing(
    pipeline: PipelineView,
    events: Seq<Event>,
    sooner: int,
    later: int,
)
    requires
        0 <= sooner <= later <= events.len(),
        forall|i: int|
            0 <= i < events.len() ==> ratchets_forward(
                run(pipeline, events.take(i)),
                #[trigger] events[i],
            ),
    ensures
        epoch_rank(run(pipeline, events.take(sooner)).client_state) <= epoch_rank(
            run(pipeline, events.take(later)).client_state,
        ),
    decreases later - sooner,
{
    if sooner < later {
        law_epochs_non_decreasing(pipeline, events, sooner, later - 1);
        let prefix = events.take(later);
        assert(prefix.drop_last() =~= events.take(later - 1));
        assert(prefix.last() == events[later - 1]);
        let before = run(pipeline, events.take(later - 1));
        assert(ratchets_forward(before, events[later - 1]));
        assert(run(pipeline, prefix) == step(before, events[later - 1]));
    }
}

/// Every committed change of the trusted state is justified by a verified
/// epoch-change proof. The trusted state changes only where the report is due,
/// brings an epoch-change proof that the proof server has verified, and that
/// proof names as previous committee hash the one the verifier holds. The
/// committee hash that the verifier holds afterwards is the new one of that
/// proof, and the trusted state is the ratcheted state of the report.
pub proof fn law_commit_is_justified(pipeline: PipelineView, report: TaskReportView)
    ensures
        pipeline.after_report(report).client_state != pipeline.client_state ==> pipeline.commits(
            report,
        ),
        pipeline.commits(report) ==> {
            &&& report matches TaskReportView::EpochChange {
                ratcheted_state,
                public_values,
                response,
            }
            &&& response.len() > 0 && response[0] == 1
            &&& public_values.len() >= 64
            &&& public_values.subrange(0, 32) == pipeline.verifier_state.committee_hash
            &&& pipeline.after_report(report).verifier_state.committee_hash
                == public_values.subrange(32, 64)
            &&& pipeline.after_report(report).client_state == ratcheted_state
        },
{
}

/// The committee hashes of a verified epoch-change proof chain the trusted
/// states: where the verifier holds the hash of the committee of the trusted
/// state, and the ratcheted state that a report commits has the committee
/// that its proof names as new, the previous hash of the proof is the hash of
/// the committee of the state before, the new hash is the hash of the
/// committee of the state after, and the verifier again holds the hash of the
/// committee of the trusted state.
pub proof fn law_committee_chain(pipeline: PipelineView, report: TaskReportView)
    requires
        coherent(pipeline),
        pipeline.commits(report) ==> report->ratcheted_state.committee_hash() == Some(
            report->EpochChange_public_values.subrange(32, 64),
        ),
    ensures
        coherent(pipeline.after_report(report)),
        pipeline.commits(report) ==> {
            &&& pipeline.client_state.committee_hash() == Some(
                report->EpochChange_public_values.subrange(0, 32),
            )
            &&& pipeline.after_report(report).client_state.committee_hash() == Some(
                report->EpochChange_public_values.subrange(32, 64),
            )
        },
{
}

/// A tick that sees the node at the epoch of the client admits no
/// epoch-change task: the tasks in flight are those of before, followed by an
/// inclusion task where one is admitted.
pub proof fn law_same_epoch_admits_no_epoch_change(pipeline: PipelineView, node_epoch: u64)
    requires
        pipeline.client_state.epoch() == Some(node_epoch),
    ensures
        !pipeline.admits_epoch_change(node_epoch),
        pipeline.after_poll(node_epoch).in_flight == (if pipeline.admits_inclusion() {
            pipeline.in_flight.push(ProofKind::Inclusion)
        } else {
            pipeline.in_flight
        }),
{
    assert(pipeline.admitted(node_epoch) =~= (if pipeline.admits_inclusion() {
        seq![ProofKind::Inclusion]
    } else {
        Seq::<ProofKind>::empty()
    }));
    assert(pipeline.after_poll(node_epoch).in_flight =~= (if pipeline.admits_inclusion() {
        pipeline.in_flight.push(ProofKind::Inclusion)
    } else {
        pipeline.in_flight
    }));
}

/// While a task of a class is in flight, a tick admits no other of that
/// class. So of two ticks with no report between them, the second admits
/// nothing that the first admitted or found in flight.
pub proof fn law_held_token_admits_nothing(
    pipeline: PipelineView,
    first_epoch: u64,
    second_epoch: u64,
)
    requires
        pipeline.client_state.epoch() is Some,
    ensures
        !pipeline.token_available(ProofKind::Inclusion) ==> !pipeline.admits_inclusion(),
        !pipeline.token_available(ProofKind::EpochChange) ==> !pipeline.admits_epoch_change(
            second_epoch,
        ),
        !pipeline.after_poll(first_epoch).admits_inclusion(),
        pipeline.admits_epoch_change(first_epoch) ==> !pipeline.after_poll(
            first_epoch,
        ).admits_epoch_change(second_epoch),
{
    let queue = pipeline.in_flight;
    let first = if pipeline.admits_epoch_change(first_epoch) {
        queue.push(ProofKind::EpochChange)
    } else {
        queue
    };
    let second = if pipeline.admits_inclusion() {
        first.push(ProofKind::Inclusion)
    } else {
        first
    };
    assert(queue + pipeline.admitted(first_epoch) =~= second);
    lemma_put_behind(queue, ProofKind::EpochChange, ProofKind::EpochChange);
    lemma_put_behind(queue, ProofKind::EpochChange, ProofKind::Inclusion);
    lemma_put_behind(first, ProofKind::Inclusion, ProofKind::Inclusion);
    lemma_put_behind(first, ProofKind::Inclusion, ProofKind::EpochChange);
}

/// A proof that the proof server does not verify changes nothing that the
/// client trusts: where the answer to the request for verification does not
/// start with `01`, the trusted state and the verifier state stay as they
/// are, and the task leaves the pipeline, which frees its token.
pub proof fn law_rejection_changes_nothing(pipeline: PipelineView, report: TaskReportView)
    requires
        pipeline.wf(),
        pipeline.is_due(report),
        match report {
            TaskReportView::Failed { .. } => false,
            TaskReportView::EpochChange { response, .. } => response.len() > 0 && response[0] != 1,
            TaskReportView::Inclusion { response, .. } => response.len() > 0 && response[0] != 1,
        },
    ensures
        pipeline.after_report(report).client_state == pipeline.client_state,
        pipeline.after_report(report).verifier_state == pipeline.verifier_state,
        pipeline.after_report(report).in_flight == pipeline.in_flight.drop_first(),
        pipeline.after_report(report).token_available(report.kind()),
{
    lemma_head_is_unique(pipeline.in_flight);
}

/// A proof against another committee than the trusted one changes nothing
/// that the client trusts, whatever the proof server answered, and its task
/// leaves the pipeline.
pub proof fn law_mismatch_changes_nothing(pipeline: PipelineView, report: TaskReportView)
    requires
        pipeline.wf(),
        pipeline.is_due(report),
        match report {
            TaskReportView::Failed { .. } => false,
            TaskReportView::EpochChange { public_values, .. } => public_values.len() >= 32
                && public_values.subrange(0, 32) != pipeline.verifier_state.committee_hash,
            TaskReportView::Inclusion { public_values, .. } => public_values.len() >= 32
                && public_values.subrange(0, 32) != pipeline.verifier_state.committee_hash,
        },
    ensures
        !pipeline.accepts(report),
        pipeline.after_report(report).client_state == pipeline.client_state,
        pipeline.after_report(report).verifier_state == pipeline.verifier_state,
        pipeline.after_report(report).in_flight == pipeline.in_flight.drop_first(),
        pipeline.after_report(report).token_available(report.kind()),
{
    lemma_head_is_unique(pipeline.in_flight);
}

/// An inclusion proof made against the committee of before an epoch change is
/// rejected once that change is committed, and the next attempt succeeds.
/// With an epoch-change task and an inclusion task in flight, in that order:
/// once the epoch change is accepted, an inclusion proof that names another
/// committee hash than the new one changes nothing and frees the inclusion
/// token; the next tick admits an inclusion task again; and a verified proof
/// of that task which names the new committee hash is accepted and sets the
/// state root.
pub proof fn law_stale_inclusion_is_retried(
    pipeline: PipelineView,
    epoch_change: TaskReportView,
    stale: TaskReportView,
    node_epoch: u64,
    fresh: TaskReportView,
)
    requires
        pipeline.in_flight == seq![ProofKind::EpochChange, ProofKind::Inclusion],
        epoch_change is EpochChange,
        pipeline.accepts(epoch_change),
        epoch_change->ratcheted_state.epoch() == Some(node_epoch),
        stale matches TaskReportView::Inclusion { public_values, .. } && public_values.len() >= 32
            && public_values.subrange(0, 32) != epoch_change->EpochChange_public_values.subrange(
            32,
            64,
        ),
        fresh matches TaskReportView::Inclusion { public_values, response } && response.len() > 0
            && response[0] == 1 && public_values.len() >= 64 && public_values.subrange(0, 32)
            == epoch_change->EpochChange_public_values.subrange(32, 64),
    ensures
        ({
            let committed = pipeline.after_report(epoch_change);
            let rejected = committed.after_report(stale);
            let retried = rejected.after_poll(node_epoch);
            let accepted = retried.after_report(fresh);
            &&& committed.client_state == epoch_change->ratcheted_state
            &&& !committed.accepts(stale)
            &&& rejected.client_state == committed.client_state
            &&& rejected.verifier_state == committed.verifier_state
            &&& rejected.in_flight == Seq::<ProofKind>::empty()
            &&& retried.in_flight == seq![ProofKind::Inclusion]
            &&& retried.accepts(fresh)
            &&& accepted.verifier_state.state_root == fresh->Inclusion_public_values.subrange(
                32,
                64,
            )
            &&& accepted.verifier_state.committee_hash == committed.verifier_state.committee_hash
            &&& accepted.client_state == committed.client_state
            &&& accepted.in_flight == Seq::<ProofKind>::empty()
        }),
{
    let committed = pipeline.after_report(epoch_change);
    assert(pipeline.in_flight[0] == ProofKind::EpochChange);
    assert(committed.in_flight =~= seq![ProofKind::Inclusion]);
    let rejected = committed.after_report(stale);
    assert(committed.in_flight[0] == ProofKind::Inclusion);
    assert(rejected.in_flight =~= Seq::<ProofKind>::empty());
    let retried = rejected.after_poll(node_epoch);
    assert(rejected.admitted(node_epoch) =~= seq![ProofKind::Inclusion]);
    assert(retried.in_flight =~= seq![ProofKind::Inclusion]);
    assert(retried.in_flight[0] == ProofKind::Inclusion);
    let accepted = retried.after_report(fresh);
    assert(accepted.in_flight =~= Seq::<ProofKind>::empty());
}

/// In a queue without duplicates the class of the first task occurs nowhere
/// behind it.
proof fn lemma_head_is_unique(queue: Seq<ProofKind>)
    requires
        queue.no_duplicates(),
        queue.len() > 0,
    ensures
        !queue.drop_first().contains(queue[0]),
{
    let rest = queue.drop_first();
    if rest.contains(queue[0]) {
        let i = choose|i: int| 0 <= i < rest.len() && rest[i] == queue[0];
        assert(queue[i + 1] == queue[0]);
    }
}

/// A queue without duplicates holds at most one task of each of the two
/// classes.
proof fn lemma_two_classes(queue: Seq<ProofKind>)
    requires
        queue.no_duplicates(),
    ensures
        queue.len() <= 2,
{
    if queue.len() > 2 {
        let a = queue[0];
        let b = queue[1];
        let c = queue[2];
        assert(a != b && a != c && b != c);
    }
}

} // verus!
