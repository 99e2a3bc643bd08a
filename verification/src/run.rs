//! One task run: classifying remote status replies, racing the poller
//! against the external interrupt, and ordering progress notifications.
//!
//! The run is a state machine over plain values. The caller performs the
//! I/O — sleeping one polling interval, querying status, watching the
//! interrupt, issuing the abort — and feeds each result in as a
//! [`RunEvent`]; [`step`] decides the next state and which notification,
//! if any, to deliver to the observer. [`run_events`] folds a whole
//! pre-recorded event sequence the same way.
//!
//! Notification policy: the observer's `stop` hook is invoked on the
//! success path only; a failed or interrupted run leaves the observer
//! without a terminal `stop` call (see [`lemma_stop_only_on_success`]).

use vstd::prelude::*;

use crate::error::Error;
use crate::{Progress, ProgressUpdate};

verus! {

/// The status word the remote reports for a task.
#[derive(Debug, Clone, Copy, PartialEq, Eq, Structural)]
pub enum RemoteStatus {
    /// The task is being computed.
    Running,
    /// The task finished successfully.
    Finished,
    /// The task was aborted on the remote side.
    Aborted,
    /// The task exceeded its timeout on the remote side.
    TimedOut,
    /// Any other status word.
    Other,
}

/// One status record from the remote: the status word and, when the
/// remote supplied one, the progress reached.
#[derive(Debug, Clone, Copy)]
pub struct TaskStatus {
    /// The reported status word.
    pub status: RemoteStatus,
    /// The reported progress, if any.
    pub progress: Option<Progress>,
}

/// What one status query came back with.
#[derive(Debug)]
pub enum QueryReply {
    /// The query itself could not be carried out; carries the transport's
    /// message.
    Failed(String),
    /// The remote returned no record for the task.
    Missing,
    /// The remote returned a status record.
    Status(TaskStatus),
}

/// The status poller's decision after one reply.
#[derive(Debug)]
pub enum PollStep {
    /// Deliver this progress value and poll again.
    Continue(Progress),
    /// The task finished: the poll sequence ends successfully.
    Complete,
    /// The poll sequence fails with this error.
    Fail(Error),
}

/// What the poller decides on one reply: a transport failure or an absent
/// record fails the run; `Finished` completes it; `Aborted` and `TimedOut`
/// fail it with the remote's verdict; any still-running status must carry
/// progress, which is delivered, or the run fails.
pub open spec fn spec_classify(reply: QueryReply) -> PollStep {
    match reply {
        QueryReply::Failed(m) => PollStep::Fail(Error::RemoteQueryFailed(m)),
        QueryReply::Missing => PollStep::Fail(Error::EmptyStatus),
        QueryReply::Status(ts) => match ts.status {
            RemoteStatus::Finished => PollStep::Complete,
            RemoteStatus::Aborted => PollStep::Fail(Error::TaskAborted),
            RemoteStatus::TimedOut => PollStep::Fail(Error::TaskTimedOut),
            _ => match ts.progress {
                Some(p) => PollStep::Continue(p),
                None => PollStep::Fail(Error::MissingProgress),
            },
        },
    }
}

/// Classifies one status reply into the poller's decision.
pub fn classify_reply(reply: QueryReply) -> (r: PollStep)
    ensures
        r == spec_classify(reply),
{
    match reply {
        QueryReply::Failed(m) => PollStep::Fail(Error::RemoteQueryFailed(m)),
        QueryReply::Missing => PollStep::Fail(Error::EmptyStatus),
        QueryReply::Status(ts) => match ts.status {
            RemoteStatus::Finished => PollStep::Complete,
            RemoteStatus::Aborted => PollStep::Fail(Error::TaskAborted),
            RemoteStatus::TimedOut => PollStep::Fail(Error::TaskTimedOut),
            _ => match ts.progress {
                Some(p) => PollStep::Continue(p),
                None => PollStep::Fail(Error::MissingProgress),
            },
        },
    }
}

/// Where a run stands.
#[derive(Debug)]
pub enum RunPhase {
    /// Polling the remote and delivering progress.
    Polling,
    /// The interrupt won the race; the abort call is pending.
    Aborting,
    /// The run is over with this outcome.
    Done(Result<(), Error>),
}

/// The run's cursor: its phase, the last status word observed (none
/// before the first reply), and the progress reached so far (zero at the
/// start). Replaced wholesale at each step, never updated field by field.
#[derive(Debug)]
pub struct RunState {
    /// Where the run stands.
    pub phase: RunPhase,
    /// The last status word a reply carried, if any reply did.
    pub last_status: Option<RemoteStatus>,
    /// The progress reached so far.
    pub progress: Progress,
}

/// One event a run reacts to.
#[derive(Debug)]
pub enum RunEvent {
    /// A status query completed: the poller branch won this round of the
    /// race.
    Reply(QueryReply),
    /// The external interrupt fired: the interrupt branch won the race.
    Interrupt,
    /// The abort issued after the interrupt completed; `None` on success,
    /// the transport's message on failure.
    AbortDone(Option<String>),
}

/// One notification to the caller-supplied observer.
#[derive(Debug, Clone, Copy, PartialEq, Eq, Structural)]
pub enum ProgressEvent {
    /// Progress updates are starting.
    Start,
    /// The task reached this progress.
    Update(Progress),
    /// Progress updates are over: the task finished.
    Stop,
}

/// The state a fresh run begins in.
pub open spec fn spec_initial() -> RunState {
    RunState {
        phase: RunPhase::Polling,
        last_status: None,
        progress: Progress { per_million: 0 },
    }
}

/// The status word `prev` becomes after reply `r`: a status record
/// supersedes it, anything else leaves it.
pub open spec fn spec_observed(r: QueryReply, prev: Option<RemoteStatus>) -> Option<RemoteStatus> {
    match r {
        QueryReply::Status(ts) => Some(ts.status),
        _ => prev,
    }
}

/// The transition relation of one run. While polling, a reply is
/// classified: progress keeps the run polling and is delivered; a
/// finished task ends the run successfully and delivers the terminal
/// `Stop`; any poll failure ends the run with that error and no further
/// notification. An interrupt while polling moves the run to `Aborting`,
/// where the caller must issue the abort; its completion ends the run
/// with `UserInterrupted`, or with `AbortFailed` carrying the transport's
/// message. An event that does not belong to the current phase changes
/// nothing.
pub open spec fn spec_step(s: RunState, e: RunEvent) -> (RunState, Option<ProgressEvent>) {
    match (s.phase, e) {
        (RunPhase::Polling, RunEvent::Reply(r)) => {
            let ls = spec_observed(r, s.last_status);
            match spec_classify(r) {
                PollStep::Continue(p) => (
                    RunState { phase: RunPhase::Polling, last_status: ls, progress: p },
                    Some(ProgressEvent::Update(p)),
                ),
                PollStep::Complete => (
                    RunState {
                        phase: RunPhase::Done(Result::Ok(())),
                        last_status: ls,
                        progress: s.progress,
                    },
                    Some(ProgressEvent::Stop),
                ),
                PollStep::Fail(err) => (
                    RunState {
                        phase: RunPhase::Done(Result::Err(err)),
                        last_status: ls,
                        progress: s.progress,
                    },
                    None,
                ),
            }
        },
        (RunPhase::Polling, RunEvent::Interrupt) => (
            RunState { phase: RunPhase::Aborting, last_status: s.last_status, progress: s.progress },
            None,
        ),
        (RunPhase::Aborting, RunEvent::AbortDone(res)) => {
            let outcome = match res {
                None => Error::UserInterrupted,
                Some(m) => Error::AbortFailed(m),
            };
            (
                RunState {
                    phase: RunPhase::Done(Result::Err(outcome)),
                    last_status: s.last_status,
                    progress: s.progress,
                },
                None,
            )
        },
        (phase, _) => (
            RunState { phase, last_status: s.last_status, progress: s.progress },
            None,
        ),
    }
}

impl RunState {
    /// The state a fresh run begins in.
    pub fn new() -> (r: RunState)
        ensures
            r == spec_initial(),
    {
        RunState {
            phase: RunPhase::Polling,
            last_status: None,
            progress: Progress { per_million: 0 },
        }
    }
}

/// Advances the run by one event, returning the next state and the
/// notification, if any, the caller must now deliver to the observer.
pub fn step(state: RunState, event: RunEvent) -> (r: (RunState, Option<ProgressEvent>))
    ensures
        r == spec_step(state, event),
{
    match (state.phase, event) {
        (RunPhase::Polling, RunEvent::Reply(reply)) => {
            let ls = match &reply {
                QueryReply::Status(ts) => Some(ts.status),
                _ => state.last_status,
            };
            match classify_reply(reply) {
                PollStep::Continue(p) => (
                    RunState { phase: RunPhase::Polling, last_status: ls, progress: p },
                    Some(ProgressEvent::Update(p)),
                ),
                PollStep::Complete => (
                    RunState {
                        phase: RunPhase::Done(Result::Ok(())),
                        last_status: ls,
                        progress: state.progress,
                    },
                    Some(ProgressEvent::Stop),
                ),
                PollStep::Fail(err) => (
                    RunState {
                        phase: RunPhase::Done(Result::Err(err)),
                        last_status: ls,
                        progress: state.progress,
                    },
                    None,
                ),
            }
        },
        (RunPhase::Polling, RunEvent::Interrupt) => (
            RunState {
                phase: RunPhase::Aborting,
                last_status: state.last_status,
                progress: state.progress,
            },
            None,
        ),
        (RunPhase::Aborting, RunEvent::AbortDone(res)) => {
            let outcome = match res {
                None => Error::UserInterrupted,
                Some(m) => Error::AbortFailed(m),
            };
            (
                RunState {
                    phase: RunPhase::Done(Result::Err(outcome)),
                    last_status: state.last_status,
                    progress: state.progress,
                },
                None,
            )
        },
        (phase, _) => (
            RunState { phase, last_status: state.last_status, progress: state.progress },
            None,
        ),
    }
}

/// The notification of one step as a sequence: empty, or the one event.
pub open spec fn note_seq(n: Option<ProgressEvent>) -> Seq<ProgressEvent> {
    match n {
        None => Seq::empty(),
        Some(v) => seq![v],
    }
}

/// Folding the run over an event sequence from state `s`: the final
/// state, the notifications delivered in order (without the leading
/// `Start`), and how many times the abort call was issued. Events after
/// the run is done are not consumed.
pub open spec fn spec_run(s: RunState, events: Seq<RunEvent>) -> (
    RunState,
    Seq<ProgressEvent>,
    nat,
)
    decreases events.len(),
{
    if events.len() == 0 || s.phase is Done {
        (s, Seq::empty(), 0 as nat)
    } else {
        let (s1, note) = spec_step(s, events[0]);
        let ab: nat = if s.phase is Polling && events[0] is Interrupt {
            1
        } else {
            0
        };
        let rest = spec_run(s1, events.skip(1));
        (rest.0, note_seq(note) + rest.1, (ab + rest.2) as nat)
    }
}

/// Runs a whole pre-recorded event sequence against an observer.
///
/// The observer's `start` hook is invoked first, then each notification
/// the steps produce is delivered in order, one at a time. Returns the
/// final state, the full notification log (with the leading `Start`),
/// and how many times the abort call was issued.
pub fn run_events<O: ProgressUpdate>(observer: &O, events: Vec<RunEvent>) -> (r: (
    RunState,
    Vec<ProgressEvent>,
    usize,
))
    ensures
        r.0 == spec_run(spec_initial(), events@).0,
        r.1@ == seq![ProgressEvent::Start] + spec_run(spec_initial(), events@).1,
        r.2 == spec_run(spec_initial(), events@).2,
{
    let ghost total = spec_run(spec_initial(), events@);
    let mut state = RunState::new();
    let mut log: Vec<ProgressEvent> = Vec::new();
    let mut aborts: usize = 0;
    observer.start();
    log.push(ProgressEvent::Start);

    let mut rem = events;
    let n = rem.len();
    let mut i: usize = 0;
    let mut done = false;
    proof {
        assert(events@.skip(0) =~= events@);
        assert(log@.skip(1) =~= Seq::<ProgressEvent>::empty());
        assert(Seq::<ProgressEvent>::empty() + total.1 =~= total.1);
    }
    while i < n && !done
        invariant
            i <= n,
            n == events@.len(),
            rem@ == events@.skip(i as int),
            done <==> state.phase is Done,
            aborts <= i,
            log@.len() >= 1,
            log@[0] == ProgressEvent::Start,
            total == spec_run(spec_initial(), events@),
            total.0 == spec_run(state, events@.skip(i as int)).0,
            total.1 == log@.skip(1) + spec_run(state, events@.skip(i as int)).1,
            total.2 == aborts + spec_run(state, events@.skip(i as int)).2,
        decreases n - i,
    {
        let ghost st_before = state;
        let ghost log_before = log@;
        let event = rem.remove(0);
        proof {
            assert(event == events@.skip(i as int)[0]);
            assert(events@.skip(i as int).skip(1) =~= events@.skip(i as int + 1));
            assert(rem@ =~= events@.skip(i as int + 1));
        }
        let counts_abort = match (&state.phase, &event) {
            (RunPhase::Polling, RunEvent::Interrupt) => true,
            _ => false,
        };
        if counts_abort {
            aborts = aborts + 1;
        }
        let (next, note) = step(state, event);
        match note {
            Some(ev) => {
                match ev {
                    ProgressEvent::Update(p) => observer.update(p),
                    ProgressEvent::Stop => observer.stop(),
                    // A step never asks for `Start` again; the arm only
                    // completes the match.
                    ProgressEvent::Start => observer.start(),
                }
                log.push(ev);
            },
            None => {},
        }
        state = next;
        done = match &state.phase {
            RunPhase::Done(_) => true,
            _ => false,
        };
        i = i + 1;
        proof {
            let rest = spec_run(state, events@.skip(i as int));
            assert(spec_run(st_before, events@.skip(i as int - 1)) == (
                rest.0,
                note_seq(note) + rest.1,
                ((if st_before.phase is Polling && event is Interrupt {
                    1 as nat
                } else {
                    0 as nat
                }) + rest.2) as nat,
            ));
            assert(log@.skip(1) =~= log_before.skip(1) + note_seq(note));
            assert(log_before.skip(1) + (note_seq(note) + rest.1) =~= log@.skip(1) + rest.1);
        }
    }
    proof {
        if !done {
            assert(i == n);
            assert(events@.skip(n as int) =~= Seq::<RunEvent>::empty());
        }
        assert(spec_run(state, events@.skip(i as int)) == (
            state,
            Seq::<ProgressEvent>::empty(),
            0 as nat,
        ));
        assert(log@ =~= seq![ProgressEvent::Start] + spec_run(spec_initial(), events@).1);
        assert(log@ == seq![ProgressEvent::Start] + spec_run(spec_initial(), events@).1);
    }
    (state, log, aborts)
}

/// The poll events of a sequence of progress values: one running status
/// record per value, in order.
pub open spec fn running_events(ps: Seq<Progress>) -> Seq<RunEvent> {
    Seq::new(
        ps.len(),
        |i: int|
            RunEvent::Reply(
                QueryReply::Status(
                    TaskStatus { status: RemoteStatus::Running, progress: Some(ps[i]) },
                ),
            ),
    )
}

/// The notifications a sequence of progress values produces, in order.
pub open spec fn update_events(ps: Seq<Progress>) -> Seq<ProgressEvent> {
    Seq::new(ps.len(), |i: int| ProgressEvent::Update(ps[i]))
}

/// Running a polling-phase state through a prefix of running replies
/// delivers exactly their progress values, in order, and continues from
/// a polling state that has observed the last of them.
proof fn lemma_running_prefix(s: RunState, ps: Seq<Progress>, rest: Seq<RunEvent>)
    requires
        s.phase is Polling,
    ensures
        ({
            let mid = if ps.len() == 0 {
                s
            } else {
                RunState {
                    phase: RunPhase::Polling,
                    last_status: Some(RemoteStatus::Running),
                    progress: ps.last(),
                }
            };
            let run = spec_run(s, running_events(ps) + rest);
            let cont = spec_run(mid, rest);
            &&& run.0 == cont.0
            &&& run.1 == update_events(ps) + cont.1
            &&& run.2 == cont.2
        }),
    decreases ps.len(),
{
    if ps.len() == 0 {
        assert(running_events(ps) + rest =~= rest);
        assert(update_events(ps) + spec_run(s, rest).1 =~= spec_run(s, rest).1);
    } else {
        let evs = running_events(ps) + rest;
        let e0 = evs[0];
        assert(e0 == running_events(ps)[0]);
        let stepped = spec_step(s, e0);
        let s1 = RunState {
            phase: RunPhase::Polling,
            last_status: Some(RemoteStatus::Running),
            progress: ps[0],
        };
        assert(stepped == (s1, Some(ProgressEvent::Update(ps[0]))));
        assert(evs.skip(1) =~= running_events(ps.skip(1)) + rest);
        lemma_running_prefix(s1, ps.skip(1), rest);
        if ps.len() == 1 {
            assert(ps.last() == ps[0]);
        } else {
            assert(ps.skip(1).last() == ps.last());
        }
        let mid = if ps.len() == 0 {
            s
        } else {
            RunState {
                phase: RunPhase::Polling,
                last_status: Some(RemoteStatus::Running),
                progress: ps.last(),
            }
        };
        let cont = spec_run(mid, rest);
        assert(update_events(ps) =~= seq![ProgressEvent::Update(ps[0])] + update_events(
            ps.skip(1),
        ));
        assert(spec_run(s, evs).1 == seq![ProgressEvent::Update(ps[0])] + (update_events(
            ps.skip(1),
        ) + cont.1));
        assert(seq![ProgressEvent::Update(ps[0])] + (update_events(ps.skip(1)) + cont.1)
            =~= update_events(ps) + cont.1);
    }
}

/// A run whose remote reports the given progress values and then a
/// finished status notifies the observer of exactly those values, in
/// that order and no others, followed by the one terminal `Stop`; the
/// run succeeds and never issues an abort, whatever events follow.
pub proof fn lemma_success_run(ps: Seq<Progress>, fin: TaskStatus, rest: Seq<RunEvent>)
    requires
        fin.status is Finished,
    ensures
        ({
            let events = running_events(ps) + seq![RunEvent::Reply(QueryReply::Status(fin))]
                + rest;
            let run = spec_run(spec_initial(), events);
            &&& run.0.phase == RunPhase::Done(Result::<(), Error>::Ok(()))
            &&& run.1 == update_events(ps) + seq![ProgressEvent::Stop]
            &&& run.2 == 0
        }),
{
    let events = running_events(ps) + seq![RunEvent::Reply(QueryReply::Status(fin))] + rest;
    let tail = seq![RunEvent::Reply(QueryReply::Status(fin))] + rest;
    assert(events =~= running_events(ps) + tail);
    lemma_running_prefix(spec_initial(), ps, tail);
    let mid = if ps.len() == 0 {
        spec_initial()
    } else {
        RunState {
            phase: RunPhase::Polling,
            last_status: Some(RemoteStatus::Running),
            progress: ps.last(),
        }
    };
    let stepped = spec_step(mid, tail[0]);
    assert(stepped.1 == Some(ProgressEvent::Stop));
    assert(stepped.0.phase == RunPhase::Done(Result::<(), Error>::Ok(())));
    assert(spec_run(stepped.0, tail.skip(1)) == (
        stepped.0,
        Seq::<ProgressEvent>::empty(),
        0 as nat,
    ));
    assert(spec_run(mid, tail).1 =~= seq![ProgressEvent::Stop]);
    assert(update_events(ps) + spec_run(mid, tail).1 == spec_run(spec_initial(), events).1);
}

/// A run whose first poll classifies to a failure — a failed query, an
/// absent record, an aborted or timed-out task, or missing progress —
/// ends with exactly that error; the observer receives nothing beyond
/// the initial `Start`, in particular never the terminal `Stop`, and no
/// abort is issued, whatever events follow.
pub proof fn lemma_failed_first_poll(r: QueryReply, err: Error, rest: Seq<RunEvent>)
    requires
        spec_classify(r) == PollStep::Fail(err),
    ensures
        ({
            let events = seq![RunEvent::Reply(r)] + rest;
            let run = spec_run(spec_initial(), events);
            &&& run.0.phase == RunPhase::Done(Result::<(), Error>::Err(err))
            &&& run.1 == Seq::<ProgressEvent>::empty()
            &&& run.2 == 0
        }),
{
    let events = seq![RunEvent::Reply(r)] + rest;
    let stepped = spec_step(spec_initial(), events[0]);
    assert(stepped.0.phase == RunPhase::Done(Result::<(), Error>::Err(err)));
    assert(spec_run(stepped.0, events.skip(1)) == (
        stepped.0,
        Seq::<ProgressEvent>::empty(),
        0 as nat,
    ));
    assert(spec_run(spec_initial(), events).1 =~= Seq::<ProgressEvent>::empty());
}

/// A run interrupted before any successful poll issues the abort exactly
/// once and delivers nothing beyond the initial `Start`; if the abort
/// succeeds the run ends as user-interrupted, and if the abort itself
/// fails the run ends as abort-failed carrying the transport's message —
/// whatever events follow.
pub proof fn lemma_interrupt_before_first_poll(abort_result: Option<String>, rest: Seq<RunEvent>)
    ensures
        ({
            let events = seq![RunEvent::Interrupt, RunEvent::AbortDone(abort_result)] + rest;
            let run = spec_run(spec_initial(), events);
            &&& run.0.phase == RunPhase::Done(
                Result::<(), Error>::Err(
                    match abort_result {
                        None => Error::UserInterrupted,
                        Some(m) => Error::AbortFailed(m),
                    },
                ),
            )
            &&& run.1 == Seq::<ProgressEvent>::empty()
            &&& run.2 == 1
        }),
{
    let events = seq![RunEvent::Interrupt, RunEvent::AbortDone(abort_result)] + rest;
    assert(events[0] == RunEvent::Interrupt);
    assert(events[1] == RunEvent::AbortDone(abort_result));
    assert(events.skip(1)[0] == events[1]);
    let s1 = spec_step(spec_initial(), events[0]).0;
    assert(s1.phase is Aborting);
    assert(spec_step(spec_initial(), events[0]).1 is None);
    let s2 = spec_step(s1, events.skip(1)[0]).0;
    assert(spec_step(s1, events.skip(1)[0]).1 is None);
    assert(s2.phase == RunPhase::Done(
        Result::<(), Error>::Err(
            match abort_result {
                None => Error::UserInterrupted,
                Some(m) => Error::AbortFailed(m),
            },
        ),
    ));
    let r2 = spec_run(s2, events.skip(1).skip(1));
    assert(r2 == (s2, Seq::<ProgressEvent>::empty(), 0 as nat));
    let r1 = spec_run(s1, events.skip(1));
    assert(events.skip(1).len() == 1 + rest.len());
    assert(r1.0 == r2.0 && r1.1 == note_seq(None) + r2.1 && r1.2 == r2.2);
    let r0 = spec_run(spec_initial(), events);
    assert(r0.0 == r1.0 && r0.1 == note_seq(None) + r1.1 && r0.2 == 1 + r1.2);
    assert(r0.1 =~= Seq::<ProgressEvent>::empty());
}

/// The terminal `Stop` is delivered exactly on the success path: a run's
/// notifications contain `Stop` if and only if the run was live and ended
/// in the successful outcome. A failed or interrupted run leaves the
/// observer without a terminal `Stop` — the policy this library fixes.
pub proof fn lemma_stop_only_on_success(s: RunState, events: Seq<RunEvent>)
    ensures
        ({
            let run = spec_run(s, events);
            run.1.contains(ProgressEvent::Stop) <==> (!(s.phase is Done) && run.0.phase
                == RunPhase::Done(Result::<(), Error>::Ok(())))
        }),
    decreases events.len(),
{
    let run = spec_run(s, events);
    if events.len() == 0 || s.phase is Done {
        assert(!run.1.contains(ProgressEvent::Stop));
    } else {
        let stepped = spec_step(s, events[0]);
        let rest = spec_run(stepped.0, events.skip(1));
        lemma_stop_only_on_success(stepped.0, events.skip(1));
        assert(run.1 == note_seq(stepped.1) + rest.1);
        if stepped.1 == Some(ProgressEvent::Stop) {
            assert(stepped.0.phase == RunPhase::Done(Result::<(), Error>::Ok(())));
            assert(rest == (stepped.0, Seq::<ProgressEvent>::empty(), 0 as nat));
            assert(run.1[0] == ProgressEvent::Stop);
            assert(run.1.contains(ProgressEvent::Stop));
        } else {
            assert(run.1.contains(ProgressEvent::Stop) <==> rest.1.contains(
                ProgressEvent::Stop,
            )) by {
                if rest.1.contains(ProgressEvent::Stop) {
                    let k = choose|k: int|
                        0 <= k < rest.1.len() && rest.1[k] == ProgressEvent::Stop;
                    assert(run.1[note_seq(stepped.1).len() + k] == ProgressEvent::Stop);
                }
                if run.1.contains(ProgressEvent::Stop) {
                    let k = choose|k: int| 0 <= k < run.1.len() && run.1[k] == ProgressEvent::Stop;
                    if k < note_seq(stepped.1).len() {
                        assert(note_seq(stepped.1)[k] == ProgressEvent::Stop);
                        assert(false);
                    } else {
                        assert(rest.1[k - note_seq(stepped.1).len()] == ProgressEvent::Stop);
                    }
                }
            }
            if stepped.0.phase is Done {
                assert(!(stepped.0.phase == RunPhase::Done(Result::<(), Error>::Ok(()))));
            }
        }
    }
}

/// No run issues the abort more than once, and a run that is no longer
/// polling never issues one at all.
pub proof fn lemma_abort_at_most_once(s: RunState, events: Seq<RunEvent>)
    ensures
        spec_run(s, events).2 <= 1,
        !(s.phase is Polling) ==> spec_run(s, events).2 == 0,
    decreases events.len(),
{
    if events.len() == 0 || s.phase is Done {
    } else {
        let stepped = spec_step(s, events[0]);
        lemma_abort_at_most_once(stepped.0, events.skip(1));
    }
}

/// The run ended on the interrupt path: user-interrupted, or with a
/// failed abort.
pub open spec fn is_interrupt_outcome(o: Result<(), Error>) -> bool {
    o == Result::<(), Error>::Err(Error::UserInterrupted) || (o matches Result::Err(
        Error::AbortFailed(_),
    ))
}

/// A fresh run that ends interrupted, or with a failed abort, issued the
/// abort exactly once: the interrupted outcomes are reported only after
/// the one abort call completes.
pub proof fn lemma_interrupted_run_aborted_once(s: RunState, events: Seq<RunEvent>)
    ensures
        ({
            let run = spec_run(s, events);
            (run.0.phase matches RunPhase::Done(o) && is_interrupt_outcome(o) && s.phase
                is Polling) ==> run.2 == 1
        }),
    decreases events.len(),
{
    let run = spec_run(s, events);
    if events.len() == 0 || s.phase is Done {
    } else if s.phase is Polling {
        let stepped = spec_step(s, events[0]);
        if events[0] is Interrupt {
            lemma_abort_at_most_once(stepped.0, events.skip(1));
        } else {
            lemma_interrupted_run_aborted_once(stepped.0, events.skip(1));
            // A poll decision ends the run with the poller's own errors,
            // never with the interrupt path's outcomes.
            match stepped.0.phase {
                RunPhase::Done(o) => {
                    assert(!is_interrupt_outcome(o));
                },
                _ => {},
            }
        }
    } else {
        lemma_abort_at_most_once(s, events);
    }
}

} // verus!
