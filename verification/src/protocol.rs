//! The order in which a span is presented to the trace sink.
//!
//! The sink streams span data as it arrives and cannot revise what it has
//! rendered, so each span must reach it in one order: the end mark, then
//! the start timestamp, then the end timestamp, each once. This module states
//! that order over sequences of sink calls, and provides a stand-in for the
//! sink that holds its callers to it.

use vstd::prelude::*;

verus! {

/// How far a span has been presented to the sink.
#[derive(Debug, Clone, Copy, PartialEq, Eq, Structural)]
pub enum SpanPhase {
    /// Allocated: the work it frames may still be running.
    Open,
    /// Its logical end has been marked; no timestamp has been uploaded.
    Ended,
    /// Its start timestamp has been uploaded.
    StartUploaded,
    /// Both timestamps have been uploaded: nothing more may be said of it.
    Complete,
}

/// One call on a span at the sink's boundary.
#[derive(Debug, Clone, Copy, PartialEq, Eq, Structural)]
pub enum SinkCall {
    /// Marks the span's logical end.
    End,
    /// Uploads the device time at which the work started.
    UploadStart(i64),
    /// Uploads the device time at which the work finished.
    UploadEnd(i64),
}

/// The phase that `call` leads to from `phase`, or `None` where the call is
/// out of order.
pub open spec fn step_of(phase: SpanPhase, call: SinkCall) -> Option<SpanPhase> {
    match (phase, call) {
        (SpanPhase::Open, SinkCall::End) => Some(SpanPhase::Ended),
        (SpanPhase::Ended, SinkCall::UploadStart(_)) => Some(SpanPhase::StartUploaded),
        (SpanPhase::StartUploaded, SinkCall::UploadEnd(_)) => Some(SpanPhase::Complete),
        _ => None,
    }
}

/// The phase reached from `phase` by `calls` in turn, or `None` where one of
/// them is out of order.
pub open spec fn replay(phase: SpanPhase, calls: Seq<SinkCall>) -> Option<SpanPhase>
    decreases calls.len(),
{
    if calls.len() == 0 {
        Some(phase)
    } else {
        match replay(phase, calls.drop_last()) {
            Some(reached) => step_of(reached, calls.last()),
            None => None,
        }
    }
}

/// Whether a freshly allocated span may be presented by `calls`.
pub open spec fn well_ordered(calls: Seq<SinkCall>) -> bool {
    replay(SpanPhase::Open, calls) is Some
}

/// Judges one call against the phase of its span.
pub fn step(phase: SpanPhase, call: SinkCall) -> (next: Option<SpanPhase>)
    ensures
        next == step_of(phase, call),
{
    match (phase, call) {
        (SpanPhase::Open, SinkCall::End) => Some(SpanPhase::Ended),
        (SpanPhase::Ended, SinkCall::UploadStart(_)) => Some(SpanPhase::StartUploaded),
        (SpanPhase::StartUploaded, SinkCall::UploadEnd(_)) => Some(SpanPhase::Complete),
        _ => None,
    }
}

/// A stand-in for the sink's side of one span. It keeps the calls that came
/// in order, and flags each call that did not instead of rendering it.
pub struct SinkDouble {
    phase: SpanPhase,
    accepted: Vec<SinkCall>,
    flagged: Vec<SinkCall>,
}

/// What a `SinkDouble` has seen of its span.
pub struct SinkView {
    /// The phase of the span as the sink has seen it.
    pub phase: SpanPhase,
    /// The calls taken so far, oldest first.
    pub accepted: Seq<SinkCall>,
    /// The calls flagged as protocol violations so far, oldest first.
    pub flagged: Seq<SinkCall>,
}

impl View for SinkDouble {
    type V = SinkView;

    closed spec fn view(&self) -> SinkView {
        SinkView { phase: self.phase, accepted: self.accepted@, flagged: self.flagged@ }
    }
}

/// What delivering `call` makes of a stand-in: the call is taken if it is in
/// order from the phase reached, and appended to the accepted calls;
/// otherwise it is appended to the flagged calls and the phase stays.
pub open spec fn delivery(before: SinkView, call: SinkCall) -> SinkView {
    match step_of(before.phase, call) {
        Some(next) => SinkView {
            phase: next,
            accepted: before.accepted.push(call),
            flagged: before.flagged,
        },
        None => SinkView {
            phase: before.phase,
            accepted: before.accepted,
            flagged: before.flagged.push(call),
        },
    }
}

impl SinkDouble {
    /// The calls taken so far are in order, and lead to the current phase.
    pub open spec fn wf(&self) -> bool {
        replay(SpanPhase::Open, self@.accepted) == Some(self@.phase)
    }

    /// The sink's side of a span that has just been allocated.
    pub fn new() -> (sink: Self)
        ensures
            sink.wf(),
            sink@ == (SinkView {
                phase: SpanPhase::Open,
                accepted: Seq::<SinkCall>::empty(),
                flagged: Seq::<SinkCall>::empty(),
            }),
    {
        SinkDouble { phase: SpanPhase::Open, accepted: Vec::new(), flagged: Vec::new() }
    }

    /// Takes `call` if it is in order, and flags it otherwise. Says which.
    pub fn deliver(&mut self, call: SinkCall) -> (taken: bool)
        requires
            old(self).wf(),
        ensures
            final(self).wf(),
            taken == (step_of(old(self)@.phase, call) is Some),
            final(self)@ == delivery(old(self)@, call),
    {
        match step(self.phase, call) {
            Some(next) => {
                proof {
                    lemma_replay_push(SpanPhase::Open, self.accepted@, call);
                }
                self.accepted.push(call);
                self.phase = next;
                true
            },
            None => {
                self.flagged.push(call);
                false
            },
        }
    }

    /// Marks the span's logical end. Says whether the sink took the call:
    /// it does on an open span only.
    pub fn end(&mut self) -> (taken: bool)
        requires
            old(self).wf(),
        ensures
            final(self).wf(),
            taken == (old(self)@.phase == SpanPhase::Open),
            final(self)@ == delivery(old(self)@, SinkCall::End),
    {
        self.deliver(SinkCall::End)
    }

    /// Uploads the start timestamp. Says whether the sink took the call: it
    /// does only once the end is marked and nothing is uploaded yet.
    pub fn upload_start(&mut self, start_ns: i64) -> (taken: bool)
        requires
            old(self).wf(),
        ensures
            final(self).wf(),
            taken == (old(self)@.phase == SpanPhase::Ended),
            final(self)@ == delivery(old(self)@, SinkCall::UploadStart(start_ns)),
    {
        self.deliver(SinkCall::UploadStart(start_ns))
    }

    /// Uploads the end timestamp. Says whether the sink took the call: it
    /// does only right after the start timestamp.
    pub fn upload_end(&mut self, end_ns: i64) -> (taken: bool)
        requires
            old(self).wf(),
        ensures
            final(self).wf(),
            taken == (old(self)@.phase == SpanPhase::StartUploaded),
            final(self)@ == delivery(old(self)@, SinkCall::UploadEnd(end_ns)),
    {
        self.deliver(SinkCall::UploadEnd(end_ns))
    }

    /// The phase of the span as the sink has seen it.
    pub fn phase(&self) -> (phase: SpanPhase)
        ensures
            phase == self@.phase,
    {
        self.phase
    }

    /// The calls taken so far, oldest first.
    pub fn accepted(&self) -> (calls: &Vec<SinkCall>)
        ensures
            calls@ == self@.accepted,
    {
        &self.accepted
    }

    /// The calls flagged as protocol violations so far, oldest first.
    pub fn flagged(&self) -> (calls: &Vec<SinkCall>)
        ensures
            calls@ == self@.flagged,
    {
        &self.flagged
    }
}

/// Replaying one more call is one more step from where the others led.
pub proof fn lemma_replay_push(phase: SpanPhase, calls: Seq<SinkCall>, call: SinkCall)
    ensures
        replay(phase, calls.push(call)) == match replay(phase, calls) {
            Some(reached) => step_of(reached, call),
            None => None,
        },
{
    assert(calls.push(call).drop_last() == calls);
}

/// Calls in order are a beginning of: end mark, start timestamp, end
/// timestamp. How many have come tells the phase.
pub proof fn lemma_well_ordered_shape(calls: Seq<SinkCall>)
    requires
        well_ordered(calls),
    ensures
        calls.len() <= 3,
        calls.len() >= 1 ==> calls[0] == SinkCall::End,
        calls.len() >= 2 ==> calls[1] is UploadStart,
        calls.len() >= 3 ==> calls[2] is UploadEnd,
        replay(SpanPhase::Open, calls) == Some(
            if calls.len() == 0 {
                SpanPhase::Open
            } else if calls.len() == 1 {
                SpanPhase::Ended
            } else if calls.len() == 2 {
                SpanPhase::StartUploaded
            } else {
                SpanPhase::Complete
            },
        ),
    decreases calls.len(),
{
    if calls.len() > 0 {
        lemma_well_ordered_shape(calls.drop_last());
    }
}

/// Any beginning of end mark, start timestamp, end timestamp is in order.
pub proof fn lemma_shape_well_ordered(start_ns: i64, end_ns: i64, len: nat)
    requires
        len <= 3,
    ensures
        well_ordered(
            seq![SinkCall::End, SinkCall::UploadStart(start_ns), SinkCall::UploadEnd(end_ns)].take(
                len as int,
            ),
        ),
    decreases len,
{
    let all = seq![SinkCall::End, SinkCall::UploadStart(start_ns), SinkCall::UploadEnd(end_ns)];
    if len > 0 {
        lemma_shape_well_ordered(start_ns, end_ns, (len - 1) as nat);
        assert(all.take(len as int).drop_last() == all.take(len - 1));
        lemma_well_ordered_shape(all.take(len - 1));
    }
}

/// In calls that are in order, an end timestamp comes after the start
/// timestamp, and the start timestamp after the end mark.
pub proof fn lemma_start_precedes_end(calls: Seq<SinkCall>, j: int)
    requires
        well_ordered(calls),
        0 <= j < calls.len(),
        calls[j] is UploadEnd,
    ensures
        exists|i: int| 0 <= i < j && #[trigger] calls[i] is UploadStart,
        exists|i: int| 0 <= i < j && #[trigger] calls[i] == SinkCall::End,
{
    lemma_well_ordered_shape(calls);
    assert(calls[1] is UploadStart);
    assert(calls[0] == SinkCall::End);
}

/// An end timestamp that comes before any start timestamp is out of order,
/// whatever came before it.
pub proof fn lemma_end_before_start_rejected(calls: Seq<SinkCall>, end_ns: i64)
    requires
        forall|i: int| 0 <= i < calls.len() ==> !(#[trigger] calls[i] is UploadStart),
    ensures
        !well_ordered(calls.push(SinkCall::UploadEnd(end_ns))),
{
    let extended = calls.push(SinkCall::UploadEnd(end_ns));
    if well_ordered(extended) {
        lemma_start_precedes_end(extended, calls.len() as int);
        let i = choose|i: int| 0 <= i < calls.len() && #[trigger] extended[i] is UploadStart;
        assert(extended[i] == calls[i]);
    }
}

/// A timestamp uploaded to a span whose end was never marked is out of
/// order.
pub proof fn lemma_upload_needs_end_mark(calls: Seq<SinkCall>, call: SinkCall)
    requires
        forall|i: int| 0 <= i < calls.len() ==> #[trigger] calls[i] != SinkCall::End,
        call != SinkCall::End,
    ensures
        !well_ordered(calls.push(call)),
{
    let extended = calls.push(call);
    if well_ordered(extended) {
        lemma_well_ordered_shape(extended);
        if calls.len() > 0 {
            assert(extended[0] == calls[0]);
        }
    }
}

/// Once both timestamps of a span are uploaded, every further call on it is
/// out of order: a span is uploaded exactly once.
pub proof fn lemma_complete_is_final(calls: Seq<SinkCall>, call: SinkCall)
    requires
        replay(SpanPhase::Open, calls) == Some(SpanPhase::Complete),
    ensures
        !well_ordered(calls.push(call)),
{
    lemma_replay_push(SpanPhase::Open, calls, call);
}

} // verus!
