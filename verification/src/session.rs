//! One calibrated span, from the calibration marker to the upload of the
//! timestamps, as a sequence of questions to the compute backend.
//!
//! The session decides; the host acts. The host carries out each action at
//! the backend and hands back what the backend answered. In between, the
//! session validates the answer and tells the trace sink what is due, so
//! that the sink is told nothing before the device clock is anchored and
//! every span reaches it in order.

use vstd::prelude::*;
use crate::error::TraceError;
use crate::protocol::{
    lemma_replay_push, lemma_shape_well_ordered, lemma_well_ordered_shape, SinkCall, SpanPhase,
};
use crate::recorder::{
    begin_span, describable, end_span, fresh_span, open_context, presenting, upload, ContextView,
    GpuTraceContext, GpuTraceSpan, SpanLocation, SpanView,
};
use crate::timestamp::{anchor_of, capture_anchor, extract_timestamps, timestamps_of, ProfilingReply};

verus! {

/// What the host is to do at the compute backend.
#[derive(Debug, Clone, Copy, PartialEq, Eq, Structural)]
pub enum BackendAction {
    /// Enqueue a marker command that waits for nothing.
    EnqueueMarker,
    /// Block until the marker has completed.
    AwaitMarker,
    /// Read the marker's end counter.
    ReadMarker,
    /// Submit the command to be timed, without waiting for it.
    SubmitCommand,
    /// Block until the command has completed.
    AwaitCommand,
    /// Read the command's start and end counters.
    ReadCommand,
}

/// What the backend answered to an action.
#[derive(Debug, PartialEq, Eq)]
pub enum BackendEvent {
    /// An enqueue, a submission or a wait went through, or failed with the
    /// backend's description of the failure.
    Done(Result<(), String>),
    /// The answer to the query for the marker's end counter.
    Marker(ProfilingReply),
    /// The answers to the queries for the command's start and end counters.
    Command(ProfilingReply, ProfilingReply),
}

/// How far a session has come. Each stage but the last two waits for the
/// answer to one action.
#[derive(Debug, Clone, Copy, PartialEq, Eq, Structural)]
pub enum Stage {
    /// The marker is being enqueued.
    EnqueueingMarker,
    /// The marker is being waited for.
    AwaitingMarker,
    /// The marker's end counter is being read.
    ReadingMarker,
    /// The context and the span are open; the command is being submitted.
    Submitting,
    /// The command is being waited for.
    AwaitingCommand,
    /// The span's end is marked; the command's counters are being read.
    ReadingCommand,
    /// The timestamps are uploaded.
    Finished,
    /// A step failed. Nothing more is done.
    Failed,
}

/// What a session says after an answer.
#[derive(Debug, PartialEq, Eq)]
pub enum Step {
    /// The host is to carry out this action next.
    Ask(BackendAction),
    /// The span is complete, with these device times.
    Finished {
        /// When the command began to execute.
        start_ns: i64,
        /// When the command finished.
        end_ns: i64,
    },
    /// The session has failed for this reason.
    Failed(TraceError),
}

/// The action whose answer `stage` waits for.
pub open spec fn asked(stage: Stage) -> Option<BackendAction> {
    match stage {
        Stage::EnqueueingMarker => Some(BackendAction::EnqueueMarker),
        Stage::AwaitingMarker => Some(BackendAction::AwaitMarker),
        Stage::ReadingMarker => Some(BackendAction::ReadMarker),
        Stage::Submitting => Some(BackendAction::SubmitCommand),
        Stage::AwaitingCommand => Some(BackendAction::AwaitCommand),
        Stage::ReadingCommand => Some(BackendAction::ReadCommand),
        Stage::Finished => None,
        Stage::Failed => None,
    }
}

/// The stage that comes after `stage` when its step goes through.
pub open spec fn following(stage: Stage) -> Stage {
    match stage {
        Stage::EnqueueingMarker => Stage::AwaitingMarker,
        Stage::AwaitingMarker => Stage::ReadingMarker,
        Stage::ReadingMarker => Stage::Submitting,
        Stage::Submitting => Stage::AwaitingCommand,
        Stage::AwaitingCommand => Stage::ReadingCommand,
        Stage::ReadingCommand => Stage::Finished,
        Stage::Finished => Stage::Finished,
        Stage::Failed => Stage::Failed,
    }
}

/// Whether `event` is an answer to the action that `stage` waits for.
pub open spec fn answers(stage: Stage, event: BackendEvent) -> bool {
    match stage {
        Stage::EnqueueingMarker | Stage::AwaitingMarker | Stage::Submitting
        | Stage::AwaitingCommand => event is Done,
        Stage::ReadingMarker => event is Marker,
        Stage::ReadingCommand => event is Command,
        Stage::Finished | Stage::Failed => false,
    }
}

/// One calibrated span in the making.
pub struct Session {
    label: String,
    clock_rate: i16,
    name: String,
    location: SpanLocation,
    stage: Stage,
    context: Option<GpuTraceContext>,
    span: Option<GpuTraceSpan>,
}

/// What a `Session` stands for.
pub struct SessionView {
    /// The name under which the sink is to list the context.
    pub label: Seq<char>,
    /// Nanoseconds of trace time per tick of the device clock.
    pub clock_rate: i16,
    /// The name under which the sink is to show the span.
    pub name: Seq<char>,
    /// Where the span's work is issued.
    pub location: SpanLocation,
    /// How far the session has come.
    pub stage: Stage,
    /// The context, once it is open.
    pub context: Option<ContextView>,
    /// The span, once it is allocated.
    pub span: Option<SpanView>,
}

impl View for Session {
    type V = SessionView;

    closed spec fn view(&self) -> SessionView {
        SessionView {
            label: self.label@,
            clock_rate: self.clock_rate,
            name: self.name@,
            location: self.location,
            stage: self.stage,
            context: match self.context {
                Some(context) => Some(context@),
                None => None,
            },
            span: match self.span {
                Some(span) => Some(span@),
                None => None,
            },
        }
    }
}

impl SessionView {
    /// The session as it is when nothing has been asked of the sink.
    pub open spec fn untouched(self) -> bool {
        self.context is None && self.span is None
    }

    /// The sink has been told exactly what is due at the stage reached: of
    /// no context and no span before the anchor is known, of an open span
    /// while the command runs, of its end once the command was waited for,
    /// and of its timestamps at the end. After a failure a span, if there is
    /// one, has had no timestamp.
    pub open spec fn wf(self) -> bool {
        match self.stage {
            Stage::EnqueueingMarker | Stage::AwaitingMarker | Stage::ReadingMarker => {
                self.untouched()
            },
            Stage::Submitting | Stage::AwaitingCommand => {
                &&& self.context matches Some(context)
                &&& context.label == self.label
                &&& context.clock_rate == self.clock_rate
                &&& context.clock_rate > 0
                &&& self.span == Some(fresh_span(self.name, self.location))
            },
            Stage::ReadingCommand => {
                &&& self.context is Some
                &&& self.span == Some(
                    presenting(fresh_span(self.name, self.location), SinkCall::End),
                )
            },
            Stage::Finished => {
                &&& self.context is Some
                &&& self.span matches Some(span)
                &&& span.wf()
                &&& span.phase == SpanPhase::Complete
            },
            Stage::Failed => {
                self.span matches Some(span) ==> span.wf() && (span.phase == SpanPhase::Open
                    || span.phase == SpanPhase::Ended)
            },
        }
    }

    /// The same session at another stage, with what the sink was told.
    pub open spec fn at(self, stage: Stage, context: Option<ContextView>, span: Option<SpanView>)
        -> SessionView {
        SessionView {
            label: self.label,
            clock_rate: self.clock_rate,
            name: self.name,
            location: self.location,
            stage,
            context,
            span,
        }
    }
}

/// Whether `after` and `step` are what `event` makes of the session
/// `before`.
///
/// A backend failure fails the session with the backend's detail. An enqueue,
/// submission or wait that went through leads to the next action; after the
/// wait for the command the span's end is marked. The marker's answer is
/// judged for the anchor: without one the session fails and the sink has
/// been told nothing; with one the context is opened and the span begun,
/// unless the clock rate or the description is unfit or the sink refuses.
/// The command's answers are judged for the interval: without one the
/// session fails and no timestamp is uploaded; with one both are uploaded,
/// start first.
pub open spec fn advanced(before: SessionView, event: BackendEvent, after: SessionView, step: Step)
    -> bool {
    match event {
        BackendEvent::Done(Err(detail)) => {
            &&& step == Step::Failed(TraceError::BackendError(detail))
            &&& after == before.at(Stage::Failed, before.context, before.span)
        },
        BackendEvent::Done(Ok(_)) => {
            &&& step == Step::Ask(asked(following(before.stage))->0)
            &&& after == before.at(
                following(before.stage),
                before.context,
                if before.stage == Stage::AwaitingCommand {
                    Some(presenting(before.span->0, SinkCall::End))
                } else {
                    before.span
                },
            )
        },
        BackendEvent::Marker(reply) => match anchor_of(reply) {
            Err(e) => {
                &&& step == Step::Failed(e)
                &&& after == before.at(Stage::Failed, None, None)
            },
            Ok(anchor_ns) => {
                let context = ContextView {
                    label: before.label,
                    anchor_ns,
                    clock_rate: before.clock_rate,
                };
                ||| {
                    &&& before.clock_rate > 0
                    &&& describable(before.name, before.location)
                    &&& step == Step::Ask(BackendAction::SubmitCommand)
                    &&& after == before.at(
                        Stage::Submitting,
                        Some(context),
                        Some(fresh_span(before.name, before.location)),
                    )
                }
                ||| {
                    &&& step == Step::Failed(TraceError::ContextCreationError)
                    &&& after == before.at(Stage::Failed, None, None)
                }
                ||| {
                    &&& before.clock_rate > 0
                    &&& step == Step::Failed(TraceError::SpanAllocationError)
                    &&& after == before.at(Stage::Failed, Some(context), None)
                }
            },
        },
        BackendEvent::Command(start, end) => match timestamps_of(start, end) {
            Err(e) => {
                &&& step == Step::Failed(e)
                &&& after == before.at(Stage::Failed, before.context, before.span)
            },
            Ok((start_ns, end_ns)) => {
                &&& step == Step::Finished { start_ns, end_ns }
                &&& after == before.at(
                    Stage::Finished,
                    before.context,
                    Some(
                        presenting(
                            presenting(before.span->0, SinkCall::UploadStart(start_ns)),
                            SinkCall::UploadEnd(end_ns),
                        ),
                    ),
                )
            },
        },
    }
}

/// A span that has just been allocated, and one whose end alone is
/// marked, have been presented in order.
proof fn lemma_early_span_in_order(name: Seq<char>, location: SpanLocation)
    ensures
        fresh_span(name, location).wf(),
        presenting(fresh_span(name, location), SinkCall::End).wf(),
        presenting(fresh_span(name, location), SinkCall::End).phase == SpanPhase::Ended,
{
    lemma_replay_push(SpanPhase::Open, Seq::empty(), SinkCall::End);
}

impl Session {
    /// See `SessionView::wf`.
    pub open spec fn wf(&self) -> bool {
        self@.wf()
    }

    /// A session for a context to be listed as `label`, whose device clock
    /// advances by `clock_rate` nanoseconds per tick, and a span to be shown
    /// as `name`, for work issued at `location`. It starts by asking for the
    /// calibration marker.
    pub fn new(label: &str, clock_rate: i16, name: &str, location: SpanLocation) -> (session: Self)
        ensures
            session.wf(),
            session@ == (SessionView {
                label: label@,
                clock_rate,
                name: name@,
                location,
                stage: Stage::EnqueueingMarker,
                context: None,
                span: None,
            }),
    {
        Session {
            label: label.to_owned(),
            clock_rate,
            name: name.to_owned(),
            location,
            stage: Stage::EnqueueingMarker,
            context: None,
            span: None,
        }
    }

    /// How far the session has come.
    pub fn stage(&self) -> (stage: Stage)
        ensures
            stage == self@.stage,
    {
        self.stage
    }

    /// The action that the host is to carry out now, if the session is
    /// still under way.
    pub fn pending(&self) -> (action: Option<BackendAction>)
        ensures
            action == asked(self@.stage),
    {
        match self.stage {
            Stage::EnqueueingMarker => Some(BackendAction::EnqueueMarker),
            Stage::AwaitingMarker => Some(BackendAction::AwaitMarker),
            Stage::ReadingMarker => Some(BackendAction::ReadMarker),
            Stage::Submitting => Some(BackendAction::SubmitCommand),
            Stage::AwaitingCommand => Some(BackendAction::AwaitCommand),
            Stage::ReadingCommand => Some(BackendAction::ReadCommand),
            Stage::Finished => None,
            Stage::Failed => None,
        }
    }

    /// Whether `event` is an answer to the action that is pending.
    pub fn expects(&self, event: &BackendEvent) -> (fits: bool)
        ensures
            fits == answers(self@.stage, *event),
    {
        match self.stage {
            Stage::EnqueueingMarker | Stage::AwaitingMarker | Stage::Submitting
            | Stage::AwaitingCommand => match event {
                BackendEvent::Done(_) => true,
                _ => false,
            },
            Stage::ReadingMarker => match event {
                BackendEvent::Marker(_) => true,
                _ => false,
            },
            Stage::ReadingCommand => match event {
                BackendEvent::Command(_, _) => true,
                _ => false,
            },
            Stage::Finished | Stage::Failed => false,
        }
    }

    /// The context, once it is open.
    pub fn context(&self) -> (context: Option<&GpuTraceContext>)
        ensures
            context matches Some(c) ==> self@.context == Some(c@),
            context is None <==> self@.context is None,
    {
        self.context.as_ref()
    }

    /// The span, once it is allocated.
    pub fn span(&self) -> (span: Option<&GpuTraceSpan>)
        ensures
            span matches Some(s) ==> self@.span == Some(s@),
            span is None <==> self@.span is None,
    {
        self.span.as_ref()
    }

    /// Takes the backend's answer to the pending action, tells the sink what
    /// is due, and says what comes next.
    pub fn advance(&mut self, event: BackendEvent) -> (step: Step)
        requires
            old(self).wf(),
            answers(old(self)@.stage, event),
        ensures
            final(self).wf(),
            advanced(old(self)@, event, final(self)@, step),
    {
        proof {
            lemma_early_span_in_order(self.name@, self.location);
        }
        match event {
            BackendEvent::Done(Err(detail)) => {
                self.stage = Stage::Failed;
                Step::Failed(TraceError::BackendError(detail))
            },
            BackendEvent::Done(Ok(_)) => {
                match self.stage {
                    Stage::EnqueueingMarker => {
                        self.stage = Stage::AwaitingMarker;
                        Step::Ask(BackendAction::AwaitMarker)
                    },
                    Stage::AwaitingMarker => {
                        self.stage = Stage::ReadingMarker;
                        Step::Ask(BackendAction::ReadMarker)
                    },
                    Stage::Submitting => {
                        self.stage = Stage::AwaitingCommand;
                        Step::Ask(BackendAction::AwaitCommand)
                    },
                    _ => {
                        match &mut self.span {
                            Some(span) => {
                                end_span(span);
                            },
                            None => {},
                        }
                        self.stage = Stage::ReadingCommand;
                        Step::Ask(BackendAction::ReadCommand)
                    },
                }
            },
            BackendEvent::Marker(reply) => {
                match capture_anchor(reply) {
                    Err(e) => {
                        self.stage = Stage::Failed;
                        Step::Failed(e)
                    },
                    Ok(anchor_ns) => match open_context(
                        self.label.as_str(),
                        anchor_ns,
                        self.clock_rate,
                    ) {
                        Err(e) => {
                            self.stage = Stage::Failed;
                            Step::Failed(e)
                        },
                        Ok(context) => match begin_span(
                            &context,
                            self.name.as_str(),
                            &self.location,
                        ) {
                            Err(e) => {
                                self.context = Some(context);
                                self.stage = Stage::Failed;
                                Step::Failed(e)
                            },
                            Ok(span) => {
                                self.context = Some(context);
                                self.span = Some(span);
                                self.stage = Stage::Submitting;
                                Step::Ask(BackendAction::SubmitCommand)
                            },
                        },
                    },
                }
            },
            BackendEvent::Command(start, end) => {
                match extract_timestamps(start, end) {
                    Err(e) => {
                        self.stage = Stage::Failed;
                        Step::Failed(e)
                    },
                    Ok((start_ns, end_ns)) => {
                        match &mut self.span {
                            Some(span) => {
                                upload(span, start_ns, end_ns);
                            },
                            None => {},
                        }
                        self.stage = Stage::Finished;
                        Step::Finished { start_ns, end_ns }
                    },
                }
            },
        }
    }
}

/// The host is asked for the backend's actions in one order: marker
/// enqueue, wait and read, then command submission, wait and read. Each
/// answer that is asked for moves the session one stage on.
pub proof fn lemma_actions_in_order(
    before: SessionView,
    event: BackendEvent,
    after: SessionView,
    step: Step,
    action: BackendAction,
)
    requires
        before.wf(),
        answers(before.stage, event),
        advanced(before, event, after, step),
        step == Step::Ask(action),
    ensures
        after.stage == following(before.stage),
        asked(after.stage) == Some(action),
        asked(before.stage) is Some,
        action != BackendAction::EnqueueMarker,
{
}

/// Without a valid anchor the session fails and the sink has been told
/// nothing: no context is registered and no span is opened.
pub proof fn lemma_unanchored_session_untouched(
    before: SessionView,
    reply: ProfilingReply,
    after: SessionView,
    step: Step,
)
    requires
        before.wf(),
        answers(before.stage, BackendEvent::Marker(reply)),
        advanced(before, BackendEvent::Marker(reply), after, step),
        anchor_of(reply) is Err,
    ensures
        step == Step::Failed(anchor_of(reply)->Err_0),
        after.stage == Stage::Failed,
        after.untouched(),
{
}

/// Until the command's counters have been judged valid, no timestamp has
/// reached the sink; once they have, the sink has had the end mark, the
/// start and the end of the interval, in that order, and nothing else.
pub proof fn lemma_timestamps_uploaded_last(
    before: SessionView,
    event: BackendEvent,
    after: SessionView,
    step: Step,
)
    requires
        before.wf(),
        answers(before.stage, event),
        advanced(before, event, after, step),
    ensures
        after.wf(),
        after.stage != Stage::Finished ==> (after.span matches Some(span) ==> (span.phase
            == SpanPhase::Open || span.phase == SpanPhase::Ended)),
        after.stage == Stage::Finished ==> ({
            &&& event matches BackendEvent::Command(start, end)
            &&& timestamps_of(start, end) matches Ok((start_ns, end_ns))
            &&& step == (Step::Finished { start_ns, end_ns })
            &&& after.span matches Some(span)
            &&& span.presented == seq![
                SinkCall::End,
                SinkCall::UploadStart(start_ns),
                SinkCall::UploadEnd(end_ns),
            ]
        }),
{
    lemma_early_span_in_order(before.name, before.location);
    if after.stage == Stage::Finished {
        let (start_ns, end_ns) = timestamps_of(event->Command_0, event->Command_1)->Ok_0;
        let calls = seq![
            SinkCall::End,
            SinkCall::UploadStart(start_ns),
            SinkCall::UploadEnd(end_ns),
        ];
        lemma_shape_well_ordered(start_ns, end_ns, 3);
        assert(calls.take(3) == calls);
        assert(after.span->0.presented == calls);
        lemma_well_ordered_shape(calls);
    }
}

} // verus!
