use gpu_trace::error::TraceError;
use gpu_trace::protocol::{SinkDouble, SpanPhase};
use gpu_trace::recorder::{
    begin_span, context_from_reply, end_span, open_context, span_from_reply, upload,
    SpanLocation, MAX_DESCRIPTION_BYTES,
};
use gpu_trace::timestamp::{capture_anchor, extract_timestamps, ProfilingReading};

fn here() -> SpanLocation {
    SpanLocation { function: String::from("main"), file: String::from("main.rs"), line: 35 }
}

#[test]
fn context_keeps_what_it_was_opened_with() {
    let context = open_context("MyContext", 123_456_789, 1).unwrap();
    assert_eq!(context.label(), "MyContext");
    assert_eq!(context.anchor_ns(), 123_456_789);
    assert_eq!(context.clock_rate(), 1);
}

#[test]
fn context_takes_any_positive_rate() {
    for rate in [1i16, 2, 1_000, i16::MAX] {
        let context = open_context("Queue", -5, rate).unwrap();
        assert_eq!(context.clock_rate(), rate);
        assert_eq!(context.anchor_ns(), -5);
    }
}

#[test]
fn context_refuses_a_rate_that_is_not_positive() {
    for rate in [0i16, -1, i16::MIN] {
        assert!(matches!(
            open_context("MyContext", 123_456_789, rate),
            Err(TraceError::ContextCreationError)
        ));
    }
}

#[test]
fn span_begins_open() {
    let context = open_context("MyContext", 1_000, 1).unwrap();
    let span = begin_span(&context, "OCL Dummy", &here()).unwrap();
    assert_eq!(span.phase(), SpanPhase::Open);
    assert_eq!(span.name(), "OCL Dummy");
    assert_eq!(span.location(), &here());
}

#[test]
fn fresh_context_admits_a_span() {
    let anchor = capture_anchor(Ok(ProfilingReading::End(77_000))).unwrap();
    for rate in [1i16, 1_000] {
        let context = open_context("MyContext", anchor, rate).unwrap();
        assert!(begin_span(&context, "first", &here()).is_ok());
    }
}

#[test]
fn span_description_may_fill_the_record() {
    let context = open_context("MyContext", 1_000, 1).unwrap();
    let location = here();
    let room = MAX_DESCRIPTION_BYTES - location.function.len() - location.file.len();
    let name = "n".repeat(room);
    let span = begin_span(&context, &name, &location).unwrap();
    assert_eq!(span.name().len(), room);
}

#[test]
fn span_description_beyond_the_record_is_refused() {
    let context = open_context("MyContext", 1_000, 1).unwrap();
    let location = here();
    let room = MAX_DESCRIPTION_BYTES - location.function.len() - location.file.len();
    let name = "n".repeat(room + 1);
    assert!(matches!(
        begin_span(&context, &name, &location),
        Err(TraceError::SpanAllocationError)
    ));
    let wide = "\u{00e9}".repeat(room / 2 + 1);
    assert!(matches!(
        begin_span(&context, &wide, &location),
        Err(TraceError::SpanAllocationError)
    ));
    let long = SpanLocation {
        function: "f".repeat(40_000),
        file: "s".repeat(40_000),
        line: 1,
    };
    assert!(matches!(begin_span(&context, "", &long), Err(TraceError::SpanAllocationError)));
}

#[test]
fn end_mark_is_made_once() {
    let context = open_context("MyContext", 1_000, 1).unwrap();
    let mut span = begin_span(&context, "OCL Dummy", &here()).unwrap();
    end_span(&mut span);
    assert_eq!(span.phase(), SpanPhase::Ended);
    end_span(&mut span);
    assert_eq!(span.phase(), SpanPhase::Ended);
}

#[test]
fn upload_completes_the_span() {
    let context = open_context("MyContext", 1_000, 1).unwrap();
    let mut span = begin_span(&context, "OCL Dummy", &here()).unwrap();
    end_span(&mut span);
    upload(&mut span, 1_200, 1_900);
    assert_eq!(span.phase(), SpanPhase::Complete);
    assert_eq!(span.name(), "OCL Dummy");
    assert_eq!(span.location(), &here());
    end_span(&mut span);
    assert_eq!(span.phase(), SpanPhase::Complete);
}

#[test]
fn spans_of_one_context_are_independent() {
    let context = open_context("MyContext", 1_000, 1).unwrap();
    let mut first = begin_span(&context, "first", &here()).unwrap();
    let mut second = begin_span(&context, "second", &here()).unwrap();
    end_span(&mut first);
    assert_eq!(first.phase(), SpanPhase::Ended);
    assert_eq!(second.phase(), SpanPhase::Open);
    end_span(&mut second);
    upload(&mut second, 10, 20);
    assert_eq!(first.phase(), SpanPhase::Ended);
    assert_eq!(second.phase(), SpanPhase::Complete);
    upload(&mut first, 5, 30);
    assert_eq!(first.phase(), SpanPhase::Complete);
}

#[test]
fn calibrated_span_end_to_end() {
    let max_elapsed_ns: i64 = 5_000_000_000;
    let anchor = capture_anchor(Ok(ProfilingReading::End(40_000_000_000))).unwrap();
    assert_eq!(anchor, 40_000_000_000);

    let context = open_context("MyContext", anchor, 1).unwrap();
    let mut span = begin_span(&context, "OCL Dummy", &here()).unwrap();
    end_span(&mut span);

    let (start_ns, end_ns) = extract_timestamps(
        Ok(ProfilingReading::Start(40_000_350_000)),
        Ok(ProfilingReading::End(40_000_910_000)),
    )
    .unwrap();
    assert_eq!((start_ns, end_ns), (40_000_350_000, 40_000_910_000));
    assert!(start_ns <= end_ns);
    assert!(anchor <= start_ns && start_ns - anchor <= max_elapsed_ns);
    assert!(anchor <= end_ns && end_ns - anchor <= max_elapsed_ns);

    assert_eq!(span.phase(), SpanPhase::Ended);
    upload(&mut span, start_ns, end_ns);
    assert_eq!(span.phase(), SpanPhase::Complete);

    let mut sink = SinkDouble::new();
    assert!(sink.end());
    assert!(sink.upload_start(start_ns));
    assert!(sink.upload_end(end_ns));
    assert_eq!(sink.phase(), span.phase());
    assert!(!sink.upload_start(start_ns));
    assert!(!sink.upload_end(end_ns));
}

#[test]
fn workflow_stops_before_any_span_without_profiling() {
    let anchor = capture_anchor(Ok(ProfilingReading::End(0)));
    assert_eq!(anchor, Err(TraceError::ProfilingUnavailable));
    let opened = anchor.and_then(|anchor_ns| open_context("MyContext", anchor_ns, 1));
    assert!(matches!(opened, Err(TraceError::ProfilingUnavailable)));
}

#[test]
fn registration_follows_the_sink() {
    let taken = tracy_client::Client::start().new_gpu_context(
        Some("Direct"),
        tracy_client::GpuContextType::OpenCL,
        9_000,
        1.0,
    );
    assert!(taken.is_ok());
    let context = context_from_reply("Direct", 9_000, 1, taken).unwrap();
    assert_eq!(context.label(), "Direct");
    assert_eq!(context.anchor_ns(), 9_000);
    assert_eq!(context.clock_rate(), 1);

    let refused = Err(tracy_client::GpuContextCreationError::TooManyContextsCreated);
    assert!(matches!(
        context_from_reply("Direct", 9_000, 1, refused),
        Err(TraceError::ContextCreationError)
    ));
}

#[test]
fn allocation_follows_the_sink() {
    let sink_context = tracy_client::Client::start()
        .new_gpu_context(Some("Direct"), tracy_client::GpuContextType::OpenCL, 9_000, 1.0)
        .unwrap();
    let taken = sink_context.span_alloc("direct span", "main", "main.rs", 35);
    assert!(taken.is_ok());
    let mut span = span_from_reply("direct span", &here(), taken).unwrap();
    assert_eq!(span.phase(), SpanPhase::Open);
    assert_eq!(span.name(), "direct span");
    assert_eq!(span.location(), &here());
    end_span(&mut span);
    upload(&mut span, 1, 2);
    assert_eq!(span.phase(), SpanPhase::Complete);

    let refused = Err(tracy_client::GpuSpanCreationError::TooManyPendingSpans);
    assert!(matches!(
        span_from_reply("direct span", &here(), refused),
        Err(TraceError::SpanAllocationError)
    ));
}
