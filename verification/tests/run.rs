use std::cell::RefCell;

use gwasm_api::error::Error;
use gwasm_api::run::{
    classify_reply, run_events, step, PollStep, ProgressEvent, QueryReply, RemoteStatus,
    RunEvent, RunPhase, RunState, TaskStatus,
};
use gwasm_api::{Progress, ProgressUpdate};

/// An observer that records every hook invocation in order.
struct Recorder {
    calls: RefCell<Vec<String>>,
}

impl Recorder {
    fn new() -> Recorder {
        Recorder {
            calls: RefCell::new(Vec::new()),
        }
    }

    fn calls(&self) -> Vec<String> {
        self.calls.borrow().clone()
    }
}

impl ProgressUpdate for Recorder {
    fn update(&self, progress: Progress) {
        self.calls
            .borrow_mut()
            .push(format!("update {}", progress.per_million));
    }

    fn start(&self) {
        self.calls.borrow_mut().push("start".to_string());
    }

    fn stop(&self) {
        self.calls.borrow_mut().push("stop".to_string());
    }
}

fn running(per_million: u32) -> RunEvent {
    RunEvent::Reply(QueryReply::Status(TaskStatus {
        status: RemoteStatus::Running,
        progress: Some(Progress { per_million }),
    }))
}

fn finished() -> RunEvent {
    RunEvent::Reply(QueryReply::Status(TaskStatus {
        status: RemoteStatus::Finished,
        progress: None,
    }))
}

#[test]
fn successful_run_notifies_in_exact_order() {
    // The remote reports progress 0.0, 0.3, 0.7 and then Finished: the
    // observer sees start, the three updates in order, stop, and nothing
    // else.
    let recorder = Recorder::new();
    let events = vec![running(0), running(300_000), running(700_000), finished()];
    let (state, log, aborts) = run_events(&recorder, events);
    assert!(matches!(state.phase, RunPhase::Done(Ok(()))));
    assert_eq!(
        recorder.calls(),
        vec!["start", "update 0", "update 300000", "update 700000", "stop"]
    );
    assert_eq!(
        log,
        vec![
            ProgressEvent::Start,
            ProgressEvent::Update(Progress { per_million: 0 }),
            ProgressEvent::Update(Progress { per_million: 300_000 }),
            ProgressEvent::Update(Progress { per_million: 700_000 }),
            ProgressEvent::Stop,
        ]
    );
    assert_eq!(aborts, 0);
    assert_eq!(state.progress, Progress { per_million: 700_000 });
    assert_eq!(state.last_status, Some(RemoteStatus::Finished));
}

#[test]
fn aborted_first_poll_fails_without_stop() {
    // The remote reports Aborted on the first poll: the run fails with
    // the remote task failure and the observer never receives stop.
    let recorder = Recorder::new();
    let events = vec![RunEvent::Reply(QueryReply::Status(TaskStatus {
        status: RemoteStatus::Aborted,
        progress: None,
    }))];
    let (state, log, aborts) = run_events(&recorder, events);
    assert!(matches!(state.phase, RunPhase::Done(Err(Error::TaskAborted))));
    assert_eq!(recorder.calls(), vec!["start"]);
    assert_eq!(log, vec![ProgressEvent::Start]);
    assert_eq!(aborts, 0);
}

#[test]
fn timed_out_poll_fails_with_timeout() {
    let recorder = Recorder::new();
    let events = vec![
        running(100_000),
        RunEvent::Reply(QueryReply::Status(TaskStatus {
            status: RemoteStatus::TimedOut,
            progress: Some(Progress { per_million: 100_000 }),
        })),
    ];
    let (state, log, _) = run_events(&recorder, events);
    assert!(matches!(
        state.phase,
        RunPhase::Done(Err(Error::TaskTimedOut))
    ));
    assert_eq!(recorder.calls(), vec!["start", "update 100000"]);
    assert_eq!(
        log,
        vec![
            ProgressEvent::Start,
            ProgressEvent::Update(Progress { per_million: 100_000 }),
        ]
    );
}

#[test]
fn interrupt_aborts_once_and_reports_interrupted() {
    // An interrupt before the first successful poll: abort is issued
    // exactly once; a successful abort reports the interruption.
    let recorder = Recorder::new();
    let events = vec![RunEvent::Interrupt, RunEvent::AbortDone(None), finished()];
    let (state, log, aborts) = run_events(&recorder, events);
    assert!(matches!(
        state.phase,
        RunPhase::Done(Err(Error::UserInterrupted))
    ));
    assert_eq!(recorder.calls(), vec!["start"]);
    assert_eq!(log, vec![ProgressEvent::Start]);
    assert_eq!(aborts, 1);
}

#[test]
fn failed_abort_reports_abort_failure() {
    // If the abort itself fails, the run reports the abort failure with
    // the transport's message, not the interruption.
    let recorder = Recorder::new();
    let events = vec![
        RunEvent::Interrupt,
        RunEvent::AbortDone(Some("connection reset".to_string())),
    ];
    let (state, _, aborts) = run_events(&recorder, events);
    match state.phase {
        RunPhase::Done(Err(Error::AbortFailed(m))) => assert_eq!(m, "connection reset"),
        other => panic!("expected AbortFailed, got {:?}", other),
    }
    assert_eq!(aborts, 1);
}

#[test]
fn classify_covers_every_failure() {
    let fail = |reply: QueryReply| match classify_reply(reply) {
        PollStep::Fail(e) => e,
        other => panic!("expected a failure, got {:?}", other),
    };
    match fail(QueryReply::Failed("no route".to_string())) {
        Error::RemoteQueryFailed(m) => assert_eq!(m, "no route"),
        other => panic!("expected RemoteQueryFailed, got {:?}", other),
    }
    assert!(matches!(fail(QueryReply::Missing), Error::EmptyStatus));
    assert!(matches!(
        fail(QueryReply::Status(TaskStatus {
            status: RemoteStatus::Running,
            progress: None,
        })),
        Error::MissingProgress
    ));
    assert!(matches!(
        fail(QueryReply::Status(TaskStatus {
            status: RemoteStatus::Other,
            progress: None,
        })),
        Error::MissingProgress
    ));
    assert!(matches!(
        fail(QueryReply::Status(TaskStatus {
            status: RemoteStatus::Aborted,
            progress: None,
        })),
        Error::TaskAborted
    ));
    assert!(matches!(
        fail(QueryReply::Status(TaskStatus {
            status: RemoteStatus::TimedOut,
            progress: None,
        })),
        Error::TaskTimedOut
    ));
    assert!(matches!(
        classify_reply(QueryReply::Status(TaskStatus {
            status: RemoteStatus::Finished,
            progress: None,
        })),
        PollStep::Complete
    ));
    match classify_reply(QueryReply::Status(TaskStatus {
        status: RemoteStatus::Other,
        progress: Some(Progress { per_million: 42 }),
    })) {
        PollStep::Continue(p) => assert_eq!(p.per_million, 42),
        other => panic!("expected Continue, got {:?}", other),
    }
}

#[test]
fn step_ignores_out_of_place_events() {
    // An abort completion while still polling changes nothing.
    let s0 = RunState::new();
    let (s1, note) = step(s0, RunEvent::AbortDone(None));
    assert!(matches!(s1.phase, RunPhase::Polling));
    assert!(note.is_none());
    // A reply while aborting changes nothing.
    let (s2, _) = step(s1, RunEvent::Interrupt);
    assert!(matches!(s2.phase, RunPhase::Aborting));
    let (s3, note) = step(s2, finished());
    assert!(matches!(s3.phase, RunPhase::Aborting));
    assert!(note.is_none());
}

#[test]
fn transport_failure_mid_run_stops_polling() {
    let recorder = Recorder::new();
    let events = vec![
        running(500_000),
        RunEvent::Reply(QueryReply::Failed("gone".to_string())),
        running(900_000),
    ];
    let (state, log, _) = run_events(&recorder, events);
    match state.phase {
        RunPhase::Done(Err(Error::RemoteQueryFailed(m))) => assert_eq!(m, "gone"),
        other => panic!("expected RemoteQueryFailed, got {:?}", other),
    }
    // The later progress report is never delivered.
    assert_eq!(
        log,
        vec![
            ProgressEvent::Start,
            ProgressEvent::Update(Progress { per_million: 500_000 }),
        ]
    );
}

#[test]
fn missing_record_fails_with_empty_status() {
    let recorder = Recorder::new();
    let events = vec![QueryReply::Missing].into_iter().map(RunEvent::Reply).collect();
    let (state, log, aborts) = run_events(&recorder, events);
    assert!(matches!(state.phase, RunPhase::Done(Err(Error::EmptyStatus))));
    assert_eq!(log, vec![ProgressEvent::Start]);
    assert_eq!(aborts, 0);
}
