//! The GPU span recorder: registers a GPU context with the trace sink and
//! presents spans of GPU work to it, each in the order the sink requires.

use vstd::prelude::*;
use vstd::string::*;
use crate::error::TraceError;
use crate::protocol::{
    lemma_replay_push, lemma_well_ordered_shape, replay, step_of, well_ordered, SinkCall, SpanPhase,
};

verus! {

/// The longest description of a span, counted in bytes of its name, function
/// and file together, that the sink can store: it keeps the description in a
/// record whose size is a 16-bit count, twelve bytes of which are taken.
pub const MAX_DESCRIPTION_BYTES: usize = 65523;

/// The trace sink's handle to the running profiler client. Opaque.
#[verifier::external_type_specification]
#[verifier::external_body]
pub struct ExClient(tracy_client::Client);

/// The trace sink's handle to a registered GPU context. Opaque.
#[verifier::external_type_specification]
#[verifier::external_body]
pub struct ExGpuContext(tracy_client::GpuContext);

/// The trace sink's handle to an allocated GPU span. Opaque.
#[verifier::external_type_specification]
#[verifier::external_body]
pub struct ExGpuSpan(tracy_client::GpuSpan);

/// The trace sink's reason for refusing a context. Opaque.
#[verifier::external_type_specification]
#[verifier::external_body]
pub struct ExGpuContextCreationError(tracy_client::GpuContextCreationError);

/// The trace sink's reason for refusing a span. Opaque.
#[verifier::external_type_specification]
#[verifier::external_body]
pub struct ExGpuSpanCreationError(tracy_client::GpuSpanCreationError);

/// `tracy_client::Client::start`: hands out a handle to the profiler client,
/// starting it if need be. Nothing is claimed of the handle.
pub assume_specification[ tracy_client::Client::start ]() -> (client: tracy_client::Client)
;

/// `tracy_client::GpuContext::span_alloc`: allocates a span under the
/// context, or refuses when too many of its spans still wait for data.
/// Nothing is claimed of which. The description must fit the sink's record:
/// given a longer one the sink ends the process or writes past the record,
/// depending on how it was built.
pub assume_specification[ tracy_client::GpuContext::span_alloc ](
    context: &tracy_client::GpuContext,
    name: &str,
    function: &str,
    file: &str,
    line: u32,
) -> (reply: Result<tracy_client::GpuSpan, tracy_client::GpuSpanCreationError>)
    requires
        name.spec_bytes().len() + function.spec_bytes().len() + file.spec_bytes().len()
            <= MAX_DESCRIPTION_BYTES,
;

/// `tracy_client::GpuSpan::end_zone`: tells the sink that the span has
/// ended. Nothing is claimed of the handle afterwards.
pub assume_specification[ tracy_client::GpuSpan::end_zone ](span: &mut tracy_client::GpuSpan)
;

/// `tracy_client::GpuSpan::upload_timestamp_start`: hands the sink the
/// device time at which the span's work started. The sink takes any value;
/// it renders the span correctly if the values reach it in rising order.
pub assume_specification[ tracy_client::GpuSpan::upload_timestamp_start ](
    span: &tracy_client::GpuSpan,
    start_timestamp: i64,
)
;

/// `tracy_client::GpuSpan::upload_timestamp_end`: hands the sink the device
/// time at which the span's work finished. The sink takes any value; it
/// renders the span correctly if the values reach it in rising order.
pub assume_specification[ tracy_client::GpuSpan::upload_timestamp_end ](
    span: &tracy_client::GpuSpan,
    end_timestamp: i64,
)
;

/// `tracy_client::Client::new_gpu_context`: registers an OpenCL context
/// named `label` whose device clock read `anchor_ns` at the time of the
/// call and advances by `clock_rate` nanoseconds per tick. The sink takes
/// the rate as a floating-point number; every 16-bit integer converts to
/// one exactly. The sink refuses once too many contexts have been
/// registered in the process. Nothing is claimed of which answer comes.
#[verifier::external_body]
fn register_context(
    client: tracy_client::Client,
    label: &str,
    anchor_ns: i64,
    clock_rate: i16,
) -> (reply: Result<tracy_client::GpuContext, tracy_client::GpuContextCreationError>)
{
    client.new_gpu_context(
        Some(label),
        tracy_client::GpuContextType::OpenCL,
        anchor_ns,
        clock_rate.into(),
    )
}

/// Where in the source a span of GPU work is issued.
#[derive(Debug, PartialEq, Eq)]
pub struct SpanLocation {
    /// The function that issues the work.
    pub function: String,
    /// The source file of that function.
    pub file: String,
    /// The line in that file.
    pub line: u32,
}

/// The mapping between one device's clock domain and the sink's timeline.
/// It is fixed when the context is opened and holds for every span that is
/// begun under it.
pub struct GpuTraceContext {
    handle: tracy_client::GpuContext,
    label: String,
    anchor_ns: i64,
    clock_rate: i16,
}

/// What a `GpuTraceContext` was opened with.
pub struct ContextView {
    /// The name under which the sink lists the context.
    pub label: Seq<char>,
    /// The device time that the context is anchored to.
    pub anchor_ns: i64,
    /// Nanoseconds of trace time per tick of the device clock.
    pub clock_rate: i16,
}

/// One interval of GPU execution on the sink's timeline.
pub struct GpuTraceSpan {
    handle: tracy_client::GpuSpan,
    name: String,
    location: SpanLocation,
    phase: SpanPhase,
    presented: Ghost<Seq<SinkCall>>,
}

/// What a `GpuTraceSpan` stands for.
pub struct SpanView {
    /// The name under which the sink shows the span.
    pub name: Seq<char>,
    /// Where the span's work is issued.
    pub location: SpanLocation,
    /// How far the span has been presented to the sink.
    pub phase: SpanPhase,
    /// The calls made on the span at the sink so far, oldest first.
    pub presented: Seq<SinkCall>,
}

impl View for GpuTraceContext {
    type V = ContextView;

    closed spec fn view(&self) -> ContextView {
        ContextView { label: self.label@, anchor_ns: self.anchor_ns, clock_rate: self.clock_rate }
    }
}

impl View for GpuTraceSpan {
    type V = SpanView;

    closed spec fn view(&self) -> SpanView {
        SpanView {
            name: self.name@,
            location: self.location,
            phase: self.phase,
            presented: self.presented@,
        }
    }
}

/// The number of bytes that the sink stores of a span's description: those
/// of its name, function and file, in UTF-8.
pub open spec fn description_bytes(name: Seq<char>, location: SpanLocation) -> nat {
    vstd::utf8::encode_utf8(name).len() + vstd::utf8::encode_utf8(location.function@).len()
        + vstd::utf8::encode_utf8(location.file@).len()
}

/// Whether the sink can store the description of a span.
pub open spec fn describable(name: Seq<char>, location: SpanLocation) -> bool {
    description_bytes(name, location) <= MAX_DESCRIPTION_BYTES
}

/// Whether a context comes to be: the clock rate must be positive, and the
/// sink must take the registration.
pub open spec fn context_opens(clock_rate: i16, sink_accepts: bool) -> bool {
    clock_rate > 0 && sink_accepts
}

/// Whether a span comes to be: the sink must be able to store its
/// description, and must take the allocation.
pub open spec fn span_begins(name: Seq<char>, location: SpanLocation, sink_accepts: bool) -> bool {
    describable(name, location) && sink_accepts
}

/// A span as it is right after its allocation: nothing has been said of it
/// to the sink.
pub open spec fn fresh_span(name: Seq<char>, location: SpanLocation) -> SpanView {
    SpanView { name, location, phase: SpanPhase::Open, presented: Seq::empty() }
}

impl GpuTraceContext {
    /// A context always has a positive clock rate.
    pub open spec fn wf(&self) -> bool {
        self@.clock_rate > 0
    }

    /// The name under which the sink lists the context.
    pub fn label(&self) -> (label: &str)
        ensures
            label@ == self@.label,
    {
        self.label.as_str()
    }

    /// The device time that the context is anchored to.
    pub fn anchor_ns(&self) -> (anchor_ns: i64)
        ensures
            anchor_ns == self@.anchor_ns,
    {
        self.anchor_ns
    }

    /// Nanoseconds of trace time per tick of the device clock.
    pub fn clock_rate(&self) -> (clock_rate: i16)
        ensures
            clock_rate == self@.clock_rate,
    {
        self.clock_rate
    }
}

impl SpanView {
    /// The calls made so far are in order, and lead to the current phase.
    pub open spec fn wf(self) -> bool {
        replay(SpanPhase::Open, self.presented) == Some(self.phase)
    }
}

impl GpuTraceSpan {
    /// The calls made so far are in order, and lead to the current phase.
    pub open spec fn wf(&self) -> bool {
        self@.wf()
    }

    /// The name under which the sink shows the span.
    pub fn name(&self) -> (name: &str)
        ensures
            name@ == self@.name,
    {
        self.name.as_str()
    }

    /// Where the span's work is issued.
    pub fn location(&self) -> (location: &SpanLocation)
        ensures
            *location == self@.location,
    {
        &self.location
    }

    /// How far the span has been presented to the sink.
    pub fn phase(&self) -> (phase: SpanPhase)
        ensures
            phase == self@.phase,
    {
        self.phase
    }
}

/// What becomes of a registration of `label`, `anchor_ns` and `clock_rate`
/// once the sink has answered it with `reply`: the context if the sink took
/// it, and `ContextCreationError` if not.
pub fn context_from_reply(
    label: &str,
    anchor_ns: i64,
    clock_rate: i16,
    reply: Result<tracy_client::GpuContext, tracy_client::GpuContextCreationError>,
) -> (res: Result<GpuTraceContext, TraceError>)
    requires
        clock_rate > 0,
    ensures
        res is Ok == context_opens(clock_rate, reply is Ok),
        res matches Err(e) ==> e == TraceError::ContextCreationError,
        res matches Ok(context) ==> context.wf() && context@ == (ContextView {
            label: label@,
            anchor_ns,
            clock_rate,
        }),
{
    match reply {
        Ok(handle) => Ok(GpuTraceContext { handle, label: label.to_owned(), anchor_ns, clock_rate }),
        Err(_) => Err(TraceError::ContextCreationError),
    }
}

/// Registers a GPU context with the trace sink, once, before any span.
///
/// `anchor_ns` is the device time of the calibration marker, and
/// `clock_rate` the number of nanoseconds of trace time per tick of the
/// device clock: 1 for a backend whose clock already counts nanoseconds.
/// Fails with `ContextCreationError` if the rate is not positive, without
/// troubling the sink, or if the sink refuses the registration.
pub fn open_context(label: &str, anchor_ns: i64, clock_rate: i16) -> (res: Result<
    GpuTraceContext,
    TraceError,
>)
    ensures
        clock_rate <= 0 ==> res is Err,
        res matches Err(e) ==> e == TraceError::ContextCreationError,
        res matches Ok(context) ==> context.wf() && context@ == (ContextView {
            label: label@,
            anchor_ns,
            clock_rate,
        }),
{
    if clock_rate <= 0 {
        return Err(TraceError::ContextCreationError);
    }
    let client = tracy_client::Client::start();
    let reply = register_context(client, label, anchor_ns, clock_rate);
    context_from_reply(label, anchor_ns, clock_rate, reply)
}

/// What becomes of an allocation for `name` at `location` once the sink
/// has answered it with `reply`: the open span if the sink took it, and
/// `SpanAllocationError` if not.
pub fn span_from_reply(
    name: &str,
    location: &SpanLocation,
    reply: Result<tracy_client::GpuSpan, tracy_client::GpuSpanCreationError>,
) -> (res: Result<GpuTraceSpan, TraceError>)
    requires
        describable(name@, *location),
    ensures
        res is Ok == span_begins(name@, *location, reply is Ok),
        res matches Err(e) ==> e == TraceError::SpanAllocationError,
        res matches Ok(span) ==> span.wf() && span@ == fresh_span(name@, *location),
{
    match reply {
        Ok(handle) => Ok(
            GpuTraceSpan {
                handle,
                name: name.to_owned(),
                location: SpanLocation {
                    function: location.function.clone(),
                    file: location.file.clone(),
                    line: location.line,
                },
                phase: SpanPhase::Open,
                presented: Ghost(Seq::empty()),
            },
        ),
        Err(_) => Err(TraceError::SpanAllocationError),
    }
}

/// Whether the description of a span fits the sink's record.
fn fits(name: &str, location: &SpanLocation) -> (fits: bool)
    ensures
        fits == describable(name@, *location),
{
    let name_len: usize = name.as_bytes().len();
    let function_len: usize = location.function.as_str().as_bytes().len();
    let file_len: usize = location.file.as_str().as_bytes().len();
    name_len <= MAX_DESCRIPTION_BYTES && function_len <= MAX_DESCRIPTION_BYTES - name_len
        && file_len <= MAX_DESCRIPTION_BYTES - name_len - function_len
}

/// Allocates a span named `name` under `context`, for work that is issued
/// at `location`. To be called right where the work is submitted: the sink
/// notes the host time of the call.
///
/// Fails with `SpanAllocationError` if the description is longer than the
/// sink can store, without troubling the sink, or if the sink refuses the
/// allocation. A span that is returned is open: nothing has been said of it
/// to the sink yet.
pub fn begin_span(context: &GpuTraceContext, name: &str, location: &SpanLocation) -> (res: Result<
    GpuTraceSpan,
    TraceError,
>)
    ensures
        !describable(name@, *location) ==> res is Err,
        res matches Err(e) ==> e == TraceError::SpanAllocationError,
        res matches Ok(span) ==> span.wf() && span@ == fresh_span(name@, *location),
{
    if !fits(name, location) {
        return Err(TraceError::SpanAllocationError);
    }
    let reply = context.handle.span_alloc(
        name,
        location.function.as_str(),
        location.file.as_str(),
        location.line,
    );
    span_from_reply(name, location, reply)
}

/// The span `before` once `call` has been made on it.
pub open spec fn presenting(before: SpanView, call: SinkCall) -> SpanView
    recommends
        step_of(before.phase, call) is Some,
{
    SpanView {
        name: before.name,
        location: before.location,
        phase: step_of(before.phase, call)->0,
        presented: before.presented.push(call),
    }
}

/// Makes one call on the span at the sink. Every call on a span goes
/// through here, and must be in order.
fn present(span: &mut GpuTraceSpan, call: SinkCall)
    requires
        old(span).wf(),
        step_of(old(span)@.phase, call) is Some,
    ensures
        final(span).wf(),
        final(span)@ == presenting(old(span)@, call),
{
    match call {
        SinkCall::End => {
            span.handle.end_zone();
            span.phase = SpanPhase::Ended;
        },
        SinkCall::UploadStart(start_ns) => {
            span.handle.upload_timestamp_start(start_ns);
            span.phase = SpanPhase::StartUploaded;
        },
        SinkCall::UploadEnd(end_ns) => {
            span.handle.upload_timestamp_end(end_ns);
            span.phase = SpanPhase::Complete;
        },
    }
    proof {
        lemma_replay_push(SpanPhase::Open, span.presented@, call);
    }
    span.presented = Ghost(span.presented@.push(call));
}

/// Marks the logical end of the span: the host-side boundary of the work,
/// whether or not the device has finished it.
///
/// The first call on an open span tells the sink. On a span whose end is
/// already marked the call changes nothing and the sink is not told again.
pub fn end_span(span: &mut GpuTraceSpan)
    requires
        old(span).wf(),
    ensures
        final(span).wf(),
        final(span)@ == if old(span)@.phase == SpanPhase::Open {
            presenting(old(span)@, SinkCall::End)
        } else {
            old(span)@
        },
        old(span)@.phase == SpanPhase::Open ==> final(span)@.phase == SpanPhase::Ended,
{
    match span.phase {
        SpanPhase::Open => {
            present(span, SinkCall::End);
        },
        _ => {},
    }
}

/// Uploads the device times of the span's work: the start, then the end.
///
/// The span's end must have been marked and nothing uploaded yet: to upload
/// to a span that was never ended, or a second time, is a fault of the
/// caller. Afterwards the span is complete.
pub fn upload(span: &mut GpuTraceSpan, start_ns: i64, end_ns: i64)
    requires
        old(span).wf(),
        old(span)@.phase == SpanPhase::Ended,
    ensures
        final(span).wf(),
        final(span)@ == (SpanView {
            name: old(span)@.name,
            location: old(span)@.location,
            phase: SpanPhase::Complete,
            presented: seq![
                SinkCall::End,
                SinkCall::UploadStart(start_ns),
                SinkCall::UploadEnd(end_ns),
            ],
        }),
        final(span)@.presented == old(span)@.presented.push(SinkCall::UploadStart(start_ns)).push(
            SinkCall::UploadEnd(end_ns),
        ),
{
    proof {
        lemma_well_ordered_shape(span@.presented);
        assert(span@.presented =~= seq![SinkCall::End]);
    }
    present(span, SinkCall::UploadStart(start_ns));
    present(span, SinkCall::UploadEnd(end_ns));
    assert(span@.presented =~= seq![
        SinkCall::End,
        SinkCall::UploadStart(start_ns),
        SinkCall::UploadEnd(end_ns),
    ]);
}

/// A context with a positive clock rate that the sink has taken admits a
/// span straight away: the recorder itself refuses nothing but a rate that
/// is not positive and a description that the sink cannot store.
pub proof fn lemma_fresh_context_admits_span(
    clock_rate: i16,
    name: Seq<char>,
    location: SpanLocation,
)
    requires
        clock_rate > 0,
        describable(name, location),
    ensures
        forall|sink_accepts: bool| context_opens(clock_rate, sink_accepts) == sink_accepts,
        forall|sink_accepts: bool| span_begins(name, location, sink_accepts) == sink_accepts,
{
}

/// Whatever is done with a span, the calls that reach the sink are a
/// beginning of: end mark, start timestamp, end timestamp. So an end
/// timestamp is never presented before the start timestamp.
pub proof fn lemma_presented_in_order(span: GpuTraceSpan, j: int)
    requires
        span.wf(),
        0 <= j < span@.presented.len(),
        span@.presented[j] is UploadEnd,
    ensures
        well_ordered(span@.presented),
        j == 2,
        span@.presented[1] is UploadStart,
        span@.presented[0] == SinkCall::End,
{
    lemma_well_ordered_shape(span@.presented);
}

} // verus!
