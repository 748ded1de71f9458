use gpu_trace::error::TraceError;
use gpu_trace::protocol::SpanPhase;
use gpu_trace::recorder::SpanLocation;
use gpu_trace::session::{BackendAction, BackendEvent, Session, Stage, Step};
use gpu_trace::timestamp::ProfilingReading;

fn here() -> SpanLocation {
    SpanLocation { function: String::from("main"), file: String::from("main.rs"), line: 35 }
}

fn done() -> BackendEvent {
    BackendEvent::Done(Ok(()))
}

fn failed(detail: &str) -> BackendEvent {
    BackendEvent::Done(Err(String::from(detail)))
}

fn anchored(session: &mut Session, raw: u64) -> Step {
    assert_eq!(session.advance(done()), Step::Ask(BackendAction::AwaitMarker));
    assert_eq!(session.advance(done()), Step::Ask(BackendAction::ReadMarker));
    session.advance(BackendEvent::Marker(Ok(ProfilingReading::End(raw))))
}

#[test]
fn session_starts_with_the_marker() {
    let session = Session::new("MyContext", 1, "OCL Dummy", here());
    assert_eq!(session.stage(), Stage::EnqueueingMarker);
    assert_eq!(session.pending(), Some(BackendAction::EnqueueMarker));
    assert!(session.context().is_none());
    assert!(session.span().is_none());
}

#[test]
fn session_runs_to_the_upload() {
    let mut session = Session::new("MyContext", 1, "OCL Dummy", here());
    assert_eq!(session.advance(done()), Step::Ask(BackendAction::AwaitMarker));
    assert_eq!(session.stage(), Stage::AwaitingMarker);
    assert_eq!(session.advance(done()), Step::Ask(BackendAction::ReadMarker));
    assert_eq!(session.stage(), Stage::ReadingMarker);
    assert!(session.context().is_none());
    assert!(session.span().is_none());

    let step = session.advance(BackendEvent::Marker(Ok(ProfilingReading::End(40_000_000_000))));
    assert_eq!(step, Step::Ask(BackendAction::SubmitCommand));
    assert_eq!(session.stage(), Stage::Submitting);
    let context = session.context().unwrap();
    assert_eq!(context.label(), "MyContext");
    assert_eq!(context.anchor_ns(), 40_000_000_000);
    assert_eq!(context.clock_rate(), 1);
    let span = session.span().unwrap();
    assert_eq!(span.name(), "OCL Dummy");
    assert_eq!(span.location(), &here());
    assert_eq!(span.phase(), SpanPhase::Open);

    assert_eq!(session.advance(done()), Step::Ask(BackendAction::AwaitCommand));
    assert_eq!(session.span().unwrap().phase(), SpanPhase::Open);
    assert_eq!(session.advance(done()), Step::Ask(BackendAction::ReadCommand));
    assert_eq!(session.span().unwrap().phase(), SpanPhase::Ended);

    let step = session.advance(BackendEvent::Command(
        Ok(ProfilingReading::Start(40_000_350_000)),
        Ok(ProfilingReading::End(40_000_910_000)),
    ));
    assert_eq!(step, Step::Finished { start_ns: 40_000_350_000, end_ns: 40_000_910_000 });
    assert_eq!(session.stage(), Stage::Finished);
    assert_eq!(session.pending(), None);
    assert_eq!(session.span().unwrap().phase(), SpanPhase::Complete);
}

#[test]
fn session_pending_follows_the_stage() {
    let mut session = Session::new("MyContext", 1, "OCL Dummy", here());
    let mut asked = vec![session.pending().unwrap()];
    let answers = vec![
        done(),
        done(),
        BackendEvent::Marker(Ok(ProfilingReading::End(5))),
        done(),
        done(),
        BackendEvent::Command(Ok(ProfilingReading::Start(6)), Ok(ProfilingReading::End(7))),
    ];
    for answer in answers {
        assert!(session.expects(&answer));
        match session.advance(answer) {
            Step::Ask(action) => {
                assert_eq!(session.pending(), Some(action));
                asked.push(action);
            }
            Step::Finished { start_ns, end_ns } => assert_eq!((start_ns, end_ns), (6, 7)),
            Step::Failed(e) => panic!("{}", e.message()),
        }
    }
    assert_eq!(
        asked,
        vec![
            BackendAction::EnqueueMarker,
            BackendAction::AwaitMarker,
            BackendAction::ReadMarker,
            BackendAction::SubmitCommand,
            BackendAction::AwaitCommand,
            BackendAction::ReadCommand,
        ]
    );
}

#[test]
fn session_expects_the_answer_to_what_it_asked() {
    let mut session = Session::new("MyContext", 1, "OCL Dummy", here());
    let marker = BackendEvent::Marker(Ok(ProfilingReading::End(5)));
    let command =
        BackendEvent::Command(Ok(ProfilingReading::Start(6)), Ok(ProfilingReading::End(7)));
    assert!(session.expects(&done()));
    assert!(session.expects(&failed("x")));
    assert!(!session.expects(&marker));
    assert!(!session.expects(&command));
    session.advance(done());
    session.advance(done());
    assert!(!session.expects(&done()));
    assert!(session.expects(&marker));
    assert!(!session.expects(&command));
    session.advance(BackendEvent::Marker(Ok(ProfilingReading::End(5))));
    session.advance(done());
    session.advance(done());
    assert!(!session.expects(&done()));
    assert!(!session.expects(&marker));
    assert!(session.expects(&command));
    session.advance(BackendEvent::Command(
        Ok(ProfilingReading::Start(6)),
        Ok(ProfilingReading::End(7)),
    ));
    assert!(!session.expects(&done()));
    assert!(!session.expects(&marker));
    assert!(!session.expects(&command));
}

#[test]
fn session_stops_at_a_backend_failure() {
    for reached in 0..4 {
        let mut session = Session::new("MyContext", 1, "OCL Dummy", here());
        if reached >= 1 {
            session.advance(done());
        }
        if reached >= 2 {
            session.advance(done());
            session.advance(BackendEvent::Marker(Ok(ProfilingReading::End(5))));
        }
        if reached >= 3 {
            session.advance(done());
        }
        let step = session.advance(failed("CL_OUT_OF_RESOURCES"));
        assert_eq!(
            step,
            Step::Failed(TraceError::BackendError(String::from("CL_OUT_OF_RESOURCES")))
        );
        assert_eq!(session.stage(), Stage::Failed);
        assert_eq!(session.pending(), None);
        assert!(!session.expects(&done()));
        assert_eq!(session.span().is_some(), reached >= 2);
        if let Some(span) = session.span() {
            assert_eq!(span.phase(), SpanPhase::Open);
        }
    }
}

#[test]
fn session_without_profiling_opens_nothing() {
    let mut session = Session::new("MyContext", 1, "OCL Dummy", here());
    let step = anchored(&mut session, 0);
    assert_eq!(step, Step::Failed(TraceError::ProfilingUnavailable));
    assert_eq!(session.stage(), Stage::Failed);
    assert!(session.context().is_none());
    assert!(session.span().is_none());
}

#[test]
fn session_passes_a_marker_read_failure_on() {
    let mut session = Session::new("MyContext", 1, "OCL Dummy", here());
    session.advance(done());
    session.advance(done());
    let step = session.advance(BackendEvent::Marker(Err(String::from("device lost"))));
    assert_eq!(step, Step::Failed(TraceError::BackendError(String::from("device lost"))));
    assert!(session.context().is_none());
    assert!(session.span().is_none());
}

#[test]
fn session_with_an_unfit_clock_rate_opens_nothing() {
    for rate in [0i16, -3] {
        let mut session = Session::new("MyContext", rate, "OCL Dummy", here());
        let step = anchored(&mut session, 5);
        assert_eq!(step, Step::Failed(TraceError::ContextCreationError));
        assert!(session.context().is_none());
        assert!(session.span().is_none());
    }
}

#[test]
fn session_with_an_unfit_description_opens_no_span() {
    let name = "n".repeat(70_000);
    let mut session = Session::new("MyContext", 1, &name, here());
    let step = anchored(&mut session, 5);
    assert_eq!(step, Step::Failed(TraceError::SpanAllocationError));
    assert_eq!(session.stage(), Stage::Failed);
    assert!(session.context().is_some());
    assert!(session.span().is_none());
}

#[test]
fn session_uploads_nothing_of_an_invalid_interval() {
    let replies = [
        (Ok(ProfilingReading::Start(0)), Ok(ProfilingReading::End(9))),
        (Ok(ProfilingReading::Start(8)), Ok(ProfilingReading::End(0))),
        (Ok(ProfilingReading::End(8)), Ok(ProfilingReading::End(9))),
    ];
    for (start, end) in replies {
        let mut session = Session::new("MyContext", 1, "OCL Dummy", here());
        assert_eq!(anchored(&mut session, 5), Step::Ask(BackendAction::SubmitCommand));
        session.advance(done());
        session.advance(done());
        let step = session.advance(BackendEvent::Command(start, end));
        assert_eq!(step, Step::Failed(TraceError::ProfilingDataUnavailable));
        assert_eq!(session.stage(), Stage::Failed);
        assert_eq!(session.span().unwrap().phase(), SpanPhase::Ended);
    }
}

#[test]
fn session_passes_a_command_read_failure_on() {
    let mut session = Session::new("MyContext", 1, "OCL Dummy", here());
    assert_eq!(anchored(&mut session, 5), Step::Ask(BackendAction::SubmitCommand));
    session.advance(done());
    session.advance(done());
    let step = session.advance(BackendEvent::Command(
        Ok(ProfilingReading::Start(8)),
        Err(String::from("CL_PROFILING_INFO_NOT_AVAILABLE")),
    ));
    assert_eq!(
        step,
        Step::Failed(TraceError::BackendError(String::from("CL_PROFILING_INFO_NOT_AVAILABLE")))
    );
    assert_eq!(session.span().unwrap().phase(), SpanPhase::Ended);
}
