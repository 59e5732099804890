//! The consumption loop's decisions. A loop polls its channel, classifies
//! what arrived, and decides what to do; the transport calls themselves live
//! with the caller, which feeds each poll's outcome in as an event and
//! performs the returned action.
use vstd::prelude::*;

verus! {

use vstd::multiset::Multiset;
use crate::model::DownloadTask;

/// What one poll of the input channel yielded: a transport failure, a
/// message without a payload, a payload that is no task, or a parsed task.
pub enum PollEvent {
    ReceiveFailed,
    EmptyPayload,
    ParseFailed,
    Parsed(DownloadTask),
}

/// What the loop does with it: poll again without consuming anything,
/// acknowledge the message without a record, or run the job's pipeline,
/// publish its record, and then acknowledge.
pub enum WorkerAction {
    KeepPolling,
    AcknowledgeOnly,
    RunJob(DownloadTask),
}

/// The loop's decision: a transport failure is logged and polling goes on; a
/// message is acknowledged unconditionally, and only a parsed task runs a
/// job and leaves a record.
pub open spec fn step_spec(ev: PollEvent) -> WorkerAction {
    match ev {
        PollEvent::ReceiveFailed => WorkerAction::KeepPolling,
        PollEvent::EmptyPayload => WorkerAction::AcknowledgeOnly,
        PollEvent::ParseFailed => WorkerAction::AcknowledgeOnly,
        PollEvent::Parsed(task) => WorkerAction::RunJob(task),
    }
}

/// Whether the action consumes the message: everything but a failed poll is
/// acknowledged, whether the payload was empty, unparsable, or processed.
pub open spec fn acknowledges(a: WorkerAction) -> bool {
    !(a is KeepPolling)
}

/// Whether the action leaves an outcome record: only a parsed task does.
pub open spec fn emits_record(a: WorkerAction) -> bool {
    a is RunJob
}

/// Decides one loop iteration. An empty or unparsable payload is consumed
/// without a record; a parsed task is the only thing that runs a job.
pub fn worker_step(ev: PollEvent) -> (a: WorkerAction)
    ensures
        a == step_spec(ev),
        acknowledges(a) <==> !(ev is ReceiveFailed),
        emits_record(a) <==> ev is Parsed,
        ev matches PollEvent::Parsed(task) ==> (a matches WorkerAction::RunJob(t) && t == task),
{
    match ev {
        PollEvent::ReceiveFailed => WorkerAction::KeepPolling,
        PollEvent::EmptyPayload => WorkerAction::AcknowledgeOnly,
        PollEvent::ParseFailed => WorkerAction::AcknowledgeOnly,
        PollEvent::Parsed(task) => WorkerAction::RunJob(task),
    }
}

/// The actions one loop takes over a whole delivery of poll events.
pub open spec fn worker_actions(events: Seq<PollEvent>) -> Seq<WorkerAction> {
    events.map_values(|ev: PollEvent| step_spec(ev))
}

/// The jobs delivered to one loop, counted by correlation id.
pub open spec fn jobs_delivered(events: Seq<PollEvent>) -> Multiset<u32>
    decreases events.len(),
{
    if events.len() == 0 {
        Multiset::empty()
    } else {
        match events.last() {
            PollEvent::Parsed(task) => jobs_delivered(events.drop_last()).insert(
                task.correlation_id,
            ),
            _ => jobs_delivered(events.drop_last()),
        }
    }
}

/// The jobs a loop runs, counted by correlation id.
pub open spec fn jobs_run(actions: Seq<WorkerAction>) -> Multiset<u32>
    decreases actions.len(),
{
    if actions.len() == 0 {
        Multiset::empty()
    } else {
        match actions.last() {
            WorkerAction::RunJob(task) => jobs_run(actions.drop_last()).insert(
                task.correlation_id,
            ),
            _ => jobs_run(actions.drop_last()),
        }
    }
}

/// One loop runs exactly the jobs delivered to it, each exactly as often as
/// it was delivered: transport failures, empty and unparsable payloads add
/// nothing, and every parsed task runs once.
pub proof fn lemma_worker_runs_delivered_jobs(events: Seq<PollEvent>)
    ensures
        jobs_run(worker_actions(events)) == jobs_delivered(events),
    decreases events.len(),
{
    if events.len() == 0 {
        assert(worker_actions(events) =~= Seq::<WorkerAction>::empty());
    } else {
        lemma_worker_runs_delivered_jobs(events.drop_last());
        assert(worker_actions(events).drop_last() =~= worker_actions(events.drop_last()));
        assert(worker_actions(events).last() == step_spec(events.last()));
    }
}

/// The jobs delivered across a pool of loops.
pub open spec fn pool_delivered(deliveries: Seq<Seq<PollEvent>>) -> Multiset<u32>
    decreases deliveries.len(),
{
    if deliveries.len() == 0 {
        Multiset::empty()
    } else {
        pool_delivered(deliveries.drop_last()).add(jobs_delivered(deliveries.last()))
    }
}

/// The jobs run across a pool of loops.
pub open spec fn pool_run(deliveries: Seq<Seq<PollEvent>>) -> Multiset<u32>
    decreases deliveries.len(),
{
    if deliveries.len() == 0 {
        Multiset::empty()
    } else {
        pool_run(deliveries.drop_last()).add(jobs_run(worker_actions(deliveries.last())))
    }
}

/// A pool of independent loops whose deliveries together hand out exactly
/// the enqueued jobs — each job to one loop, once, as one consumer group
/// promises — runs exactly the enqueued jobs: in particular each distinct
/// job exactly once across all loops combined.
pub proof fn lemma_pool_runs_each_job_once(
    deliveries: Seq<Seq<PollEvent>>,
    enqueued: Multiset<u32>,
)
    requires
        pool_delivered(deliveries) == enqueued,
    ensures
        pool_run(deliveries) == enqueued,
        forall|id: u32| enqueued.count(id) == 1 ==> pool_run(deliveries).count(id) == 1,
    decreases deliveries.len(),
{
    if deliveries.len() == 0 {
    } else {
        lemma_pool_runs_each_job_once(
            deliveries.drop_last(),
            pool_delivered(deliveries.drop_last()),
        );
        lemma_worker_runs_delivered_jobs(deliveries.last());
    }
}

} // verus!
