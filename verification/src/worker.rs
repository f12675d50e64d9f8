//! The worker lifecycle machine: what one worker tells the shared channel
//! for each thing that happens to its process. The surrounding runtime owns
//! the process, the stream reads and the exit wait; every message it sends
//! is decided here, so the per-worker message protocol can be stated and
//! proved of every possible run.

use vstd::prelude::*;
use crate::framer::LineEnding;
use crate::message::OutputMessagePayload;
use crate::message::is_terminal_payload;

verus! {

/// A worker's lifecycle: not started, running, stopped — in that order,
/// each state reached at most once. A worker is never restarted in place; a
/// restart creates a new worker with the same descriptor.
#[derive(Clone, Copy, Debug, PartialEq, Eq, Structural)]
pub enum WorkerPhase {
    NotStarted,
    Running,
    Stopped,
}

/// What can happen to a worker's process, as its runtime observes it.
pub enum WorkerEvent {
    /// The process was spawned.
    SpawnOk,
    /// Spawning failed (bad program path, permission error); carries the
    /// error's description.
    SpawnFailed(String),
    /// The framer completed one chunk of the process's standard output.
    OutChunk(LineEnding, Vec<u8>),
    /// The framer completed one chunk of the process's standard error.
    ErrChunk(LineEnding, Vec<u8>),
    /// A stream broke while being drained; carries the error's description.
    /// The runtime still reaps the process, but the error is the worker's
    /// terminal message and the exit status goes unreported.
    ReadFailed(String),
    /// The process exited; the code is absent when it was terminated
    /// abnormally.
    Exited(Option<i32>),
}

/// One step of the worker machine: the next phase and the messages emitted,
/// in order. Events that cannot arise in a phase (a chunk before a spawn, a
/// second spawn) change nothing.
pub open spec fn worker_step_model(ph: WorkerPhase, ev: WorkerEvent) -> (
    WorkerPhase,
    Seq<OutputMessagePayload>,
) {
    match ph {
        WorkerPhase::NotStarted => match ev {
            WorkerEvent::SpawnOk => (WorkerPhase::Running, seq![OutputMessagePayload::Start]),
            WorkerEvent::SpawnFailed(e) => (
                WorkerPhase::Stopped,
                seq![OutputMessagePayload::Error(e)],
            ),
            _ => (WorkerPhase::NotStarted, Seq::empty()),
        },
        WorkerPhase::Running => match ev {
            WorkerEvent::OutChunk(end, bytes) => (
                WorkerPhase::Running,
                seq![OutputMessagePayload::Stdout(end, bytes)],
            ),
            WorkerEvent::ErrChunk(end, bytes) => (
                WorkerPhase::Running,
                seq![OutputMessagePayload::Stderr(end, bytes)],
            ),
            WorkerEvent::ReadFailed(e) => (
                WorkerPhase::Stopped,
                seq![OutputMessagePayload::Error(e)],
            ),
            WorkerEvent::Exited(code) => (
                WorkerPhase::Stopped,
                seq![OutputMessagePayload::Done(code)],
            ),
            _ => (WorkerPhase::Running, Seq::empty()),
        },
        WorkerPhase::Stopped => (WorkerPhase::Stopped, Seq::empty()),
    }
}

/// Takes one worker step: the runtime hands in what happened, and sends the
/// returned messages to the shared channel in order.
pub fn worker_step(phase: WorkerPhase, event: WorkerEvent) -> (r: (
    WorkerPhase,
    Vec<OutputMessagePayload>,
))
    ensures
        r.0 == worker_step_model(phase, event).0,
        r.1@ == worker_step_model(phase, event).1,
{
    let mut out: Vec<OutputMessagePayload> = Vec::new();
    let next = match phase {
        WorkerPhase::NotStarted => match event {
            WorkerEvent::SpawnOk => {
                out.push(OutputMessagePayload::Start);
                WorkerPhase::Running
            },
            WorkerEvent::SpawnFailed(e) => {
                out.push(OutputMessagePayload::Error(e));
                WorkerPhase::Stopped
            },
            _ => WorkerPhase::NotStarted,
        },
        WorkerPhase::Running => match event {
            WorkerEvent::OutChunk(end, bytes) => {
                out.push(OutputMessagePayload::Stdout(end, bytes));
                WorkerPhase::Running
            },
            WorkerEvent::ErrChunk(end, bytes) => {
                out.push(OutputMessagePayload::Stderr(end, bytes));
                WorkerPhase::Running
            },
            WorkerEvent::ReadFailed(e) => {
                out.push(OutputMessagePayload::Error(e));
                WorkerPhase::Stopped
            },
            WorkerEvent::Exited(code) => {
                out.push(OutputMessagePayload::Done(code));
                WorkerPhase::Stopped
            },
            _ => WorkerPhase::Running,
        },
        WorkerPhase::Stopped => WorkerPhase::Stopped,
    };
    proof {
        assert(out@ =~= worker_step_model(phase, event).1);
    }
    (next, out)
}

/// A worker's complete message sequence is well formed: it opens with
/// `Start` (or is one lone terminal error, where the spawn itself failed),
/// closes with exactly one terminal message, and nothing follows or repeats
/// either.
pub open spec fn valid_history(h: Seq<OutputMessagePayload>) -> bool {
    &&& h.len() >= 1
    &&& is_terminal_payload(h.last())
    &&& forall|i: int| 0 <= i < h.len() - 1 ==> !is_terminal_payload(#[trigger] h[i])
    &&& (h[0] is Start || (h.len() == 1 && h[0] is Error))
    &&& forall|i: int| 0 < i < h.len() ==> !(#[trigger] h[i] is Start)
}

/// The worker machine run over a whole sequence of events: the final phase
/// and everything emitted, in order.
pub open spec fn worker_run_model(ph: WorkerPhase, evs: Seq<WorkerEvent>) -> (
    WorkerPhase,
    Seq<OutputMessagePayload>,
)
    decreases evs.len(),
{
    if evs.len() == 0 {
        (ph, Seq::empty())
    } else {
        let st = worker_step_model(ph, evs[0]);
        let rest = worker_run_model(st.0, evs.skip(1));
        (rest.0, st.1 + rest.1)
    }
}

proof fn lemma_run_from_stopped(evs: Seq<WorkerEvent>)
    ensures
        worker_run_model(WorkerPhase::Stopped, evs).0 is Stopped,
        worker_run_model(WorkerPhase::Stopped, evs).1 == Seq::<OutputMessagePayload>::empty(),
    decreases evs.len(),
{
    if evs.len() > 0 {
        lemma_run_from_stopped(evs.skip(1));
        assert(worker_run_model(WorkerPhase::Stopped, evs).1 =~= Seq::<
            OutputMessagePayload,
        >::empty());
    }
}

proof fn lemma_run_from_running(evs: Seq<WorkerEvent>)
    ensures
        ({
            let r = worker_run_model(WorkerPhase::Running, evs);
            &&& !(r.0 is NotStarted)
            &&& forall|i: int| 0 <= i < r.1.len() ==> !(#[trigger] r.1[i] is Start)
            &&& r.0 is Running ==> forall|i: int|
                0 <= i < r.1.len() ==> !is_terminal_payload(#[trigger] r.1[i])
            &&& r.0 is Stopped ==> {
                &&& r.1.len() >= 1
                &&& is_terminal_payload(r.1.last())
                &&& forall|i: int|
                    0 <= i < r.1.len() - 1 ==> !is_terminal_payload(#[trigger] r.1[i])
            }
        }),
    decreases evs.len(),
{
    if evs.len() > 0 {
        let st = worker_step_model(WorkerPhase::Running, evs[0]);
        let rest = worker_run_model(st.0, evs.skip(1));
        let r = worker_run_model(WorkerPhase::Running, evs);
        match evs[0] {
            WorkerEvent::ReadFailed(_) | WorkerEvent::Exited(_) => {
                lemma_run_from_stopped(evs.skip(1));
                assert(r.1 =~= st.1);
            },
            _ => {
                lemma_run_from_running(evs.skip(1));
                assert(forall|i: int|
                    0 <= i < r.1.len() && i >= st.1.len() ==> r.1[i] == rest.1[i - st.1.len()]);
            },
        }
    }
}

/// Law: however a run goes — whichever chunks arrive, in whatever order,
/// whether the spawn fails, a stream breaks or the process exits — a worker
/// that has stopped has emitted a well-formed message sequence: exactly one
/// `Start` first (or one lone error where the spawn failed) and exactly one
/// terminal message, last.
pub proof fn lemma_worker_history_valid(evs: Seq<WorkerEvent>)
    requires
        worker_run_model(WorkerPhase::NotStarted, evs).0 is Stopped,
    ensures
        valid_history(worker_run_model(WorkerPhase::NotStarted, evs).1),
    decreases evs.len(),
{
    let r = worker_run_model(WorkerPhase::NotStarted, evs);
    let st = worker_step_model(WorkerPhase::NotStarted, evs[0]);
    let rest = worker_run_model(st.0, evs.skip(1));
    match evs[0] {
        WorkerEvent::SpawnOk => {
            lemma_run_from_running(evs.skip(1));
            assert(r.1 =~= st.1 + rest.1);
            assert(forall|i: int|
                0 <= i < r.1.len() && i >= 1 ==> r.1[i] == rest.1[i - 1]);
            assert(r.1.last() == rest.1.last());
        },
        WorkerEvent::SpawnFailed(_) => {
            lemma_run_from_stopped(evs.skip(1));
            assert(r.1 =~= st.1);
        },
        _ => {
            lemma_worker_history_valid(evs.skip(1));
            assert(r.1 =~= rest.1);
        },
    }
}

} // verus!
