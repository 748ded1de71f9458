use gpu_trace::error::TraceError;
use gpu_trace::recorder::{begin_span, open_context, SpanLocation};

#[test]
fn sink_refusals_are_reported() {
    let location =
        SpanLocation { function: String::from("main"), file: String::from("main.rs"), line: 35 };

    let context = open_context("MyContext", 1_000, 1).unwrap();
    let mut pending = Vec::new();
    let mut refused = false;
    for _ in 0..40_000 {
        match begin_span(&context, "pending", &location) {
            Ok(span) => pending.push(span),
            Err(e) => {
                assert_eq!(e, TraceError::SpanAllocationError);
                refused = true;
                break;
            }
        }
    }
    assert!(refused);
    assert!(!pending.is_empty());
    pending.clear();
    assert!(begin_span(&context, "after", &location).is_ok());

    let mut opened = Vec::new();
    let mut refused = false;
    for _ in 0..300 {
        match open_context("Another", 1_000, 1) {
            Ok(context) => opened.push(context),
            Err(e) => {
                assert_eq!(e, TraceError::ContextCreationError);
                refused = true;
                break;
            }
        }
    }
    assert!(refused);
    assert!(!opened.is_empty());
}
