//! Device-clock timestamps: what the backend reports for a command, and
//! what of it may be placed on the trace timeline.

use vstd::prelude::*;
use crate::error::TraceError;

verus! {

/// The value a backend reports in place of a timestamp when the queue was
/// created without profiling. It is never a point in time.
pub const INVALID_TIMESTAMP: u64 = 0;

/// One profiling counter of a command, in device-clock nanoseconds, tagged
/// with the moment of the command's life that it belongs to.
#[derive(Debug, Clone, Copy, PartialEq, Eq)]
pub enum ProfilingReading {
    /// When the host enqueued the command.
    Queued(u64),
    /// When the command was handed to the device.
    Submit(u64),
    /// When the device began to execute the command.
    Start(u64),
    /// When the device finished the command.
    End(u64),
}

/// What the backend answered to one profiling query: the reading, or its own
/// description of the failure.
pub type ProfilingReply = Result<ProfilingReading, String>;

/// The device counter `raw` as the signed nanosecond count that the trace
/// sink takes: the same 64 bits, read in two's complement.
pub open spec fn signed_ns(raw: u64) -> int {
    if raw <= i64::MAX {
        raw as int
    } else {
        raw - 0x1_0000_0000_0000_0000
    }
}

/// Whether `raw` is a point in time at all.
pub open spec fn is_timestamp(raw: u64) -> bool {
    raw != INVALID_TIMESTAMP
}

/// The start of execution that `reply` carries.
pub open spec fn start_time_of(reply: ProfilingReply) -> Result<i64, TraceError> {
    match reply {
        Err(detail) => Err(TraceError::BackendError(detail)),
        Ok(ProfilingReading::Start(raw)) => if is_timestamp(raw) {
            Ok(signed_ns(raw) as i64)
        } else {
            Err(TraceError::ProfilingDataUnavailable)
        },
        Ok(_) => Err(TraceError::ProfilingDataUnavailable),
    }
}

/// The end of execution that `reply` carries.
pub open spec fn end_time_of(reply: ProfilingReply) -> Result<i64, TraceError> {
    match reply {
        Err(detail) => Err(TraceError::BackendError(detail)),
        Ok(ProfilingReading::End(raw)) => if is_timestamp(raw) {
            Ok(signed_ns(raw) as i64)
        } else {
            Err(TraceError::ProfilingDataUnavailable)
        },
        Ok(_) => Err(TraceError::ProfilingDataUnavailable),
    }
}

/// Reads a device counter as signed nanoseconds.
pub fn to_signed_ns(raw: u64) -> (ns: i64)
    ensures
        ns == signed_ns(raw),
{
    assert(raw <= 0x7fff_ffff_ffff_ffffu64 ==> raw as i64 == raw) by (bit_vector);
    assert(raw > 0x7fff_ffff_ffff_ffffu64 ==> raw as i64 == raw - 0x1_0000_0000_0000_0000) by (bit_vector);
    raw as i64
}

/// The device time at which the command began to execute.
///
/// A backend failure is passed on with its detail. A reply that is not a
/// start reading, or that holds the invalid sentinel, is
/// `ProfilingDataUnavailable`.
pub fn get_start_time(reply: ProfilingReply) -> (res: Result<i64, TraceError>)
    ensures
        res == start_time_of(reply),
{
    match reply {
        Err(detail) => Err(TraceError::BackendError(detail)),
        Ok(ProfilingReading::Start(raw)) => {
            if raw != INVALID_TIMESTAMP {
                Ok(to_signed_ns(raw))
            } else {
                Err(TraceError::ProfilingDataUnavailable)
            }
        },
        Ok(_) => Err(TraceError::ProfilingDataUnavailable),
    }
}

/// The device time at which the command finished.
///
/// A backend failure is passed on with its detail. A reply that is not an
/// end reading, or that holds the invalid sentinel, is
/// `ProfilingDataUnavailable`.
pub fn get_end_time(reply: ProfilingReply) -> (res: Result<i64, TraceError>)
    ensures
        res == end_time_of(reply),
{
    match reply {
        Err(detail) => Err(TraceError::BackendError(detail)),
        Ok(ProfilingReading::End(raw)) => {
            if raw != INVALID_TIMESTAMP {
                Ok(to_signed_ns(raw))
            } else {
                Err(TraceError::ProfilingDataUnavailable)
            }
        },
        Ok(_) => Err(TraceError::ProfilingDataUnavailable),
    }
}

/// The calibration anchor that `marker` carries: the completion time of the
/// marker command.
pub open spec fn anchor_of(marker: ProfilingReply) -> Result<i64, TraceError> {
    match marker {
        Err(detail) => Err(TraceError::BackendError(detail)),
        Ok(ProfilingReading::End(raw)) => if is_timestamp(raw) {
            Ok(signed_ns(raw) as i64)
        } else {
            Err(TraceError::ProfilingUnavailable)
        },
        Ok(_) => Err(TraceError::ProfilingUnavailable),
    }
}

/// The execution interval that the two replies carry. A failed start reply
/// is reported before anything of the end reply.
pub open spec fn timestamps_of(start: ProfilingReply, end: ProfilingReply) -> Result<
    (i64, i64),
    TraceError,
> {
    match start_time_of(start) {
        Err(e) => Err(e),
        Ok(start_ns) => match end_time_of(end) {
            Err(e) => Err(e),
            Ok(end_ns) => Ok((start_ns, end_ns)),
        },
    }
}

/// The calibration anchor: the device time at which the marker command
/// completed, as the backend answered the query for its end counter once
/// the marker had been waited for.
///
/// A queue without profiling answers with the invalid sentinel; that, and
/// any reply other than an end reading, is `ProfilingUnavailable`. A backend
/// failure during enqueue, wait or readback is passed on with its detail.
/// An anchor that is returned is never the sentinel, and it is positive
/// whenever the device counter fits the signed range.
pub fn capture_anchor(marker: ProfilingReply) -> (res: Result<i64, TraceError>)
    ensures
        res == anchor_of(marker),
        res matches Ok(anchor_ns) ==> anchor_ns != 0,
        marker matches Ok(ProfilingReading::End(raw)) ==> (0 < raw <= i64::MAX ==> (res matches Ok(
            anchor_ns,
        ) && anchor_ns == raw && anchor_ns > 0)),
{
    match marker {
        Err(detail) => Err(TraceError::BackendError(detail)),
        Ok(ProfilingReading::End(raw)) => {
            if raw != INVALID_TIMESTAMP {
                Ok(to_signed_ns(raw))
            } else {
                Err(TraceError::ProfilingUnavailable)
            }
        },
        Ok(_) => Err(TraceError::ProfilingUnavailable),
    }
}

/// The start and end of a completed command's execution, in device time.
///
/// Fails with `ProfilingDataUnavailable` if either reading is the invalid
/// sentinel or is not the counter that was asked for, and passes a backend
/// failure on. The start reply is judged first.
pub fn extract_timestamps(start: ProfilingReply, end: ProfilingReply) -> (res: Result<
    (i64, i64),
    TraceError,
>)
    ensures
        res == timestamps_of(start, end),
{
    let start_ns: i64 = match get_start_time(start) {
        Ok(ns) => ns,
        Err(e) => {
            return Err(e);
        },
    };
    let end_ns: i64 = match get_end_time(end) {
        Ok(ns) => ns,
        Err(e) => {
            return Err(e);
        },
    };
    Ok((start_ns, end_ns))
}

/// A valid anchor is never the sentinel, and a device counter within the
/// signed range gives a positive anchor equal to the counter.
pub proof fn lemma_anchor_plausible(raw: u64)
    requires
        is_timestamp(raw),
    ensures
        anchor_of(Ok(ProfilingReading::End(raw))) matches Ok(anchor_ns) && anchor_ns != 0 && (raw
            <= i64::MAX ==> anchor_ns == raw && anchor_ns > 0),
{
}

/// Counters that the device reports in order come out in order, unless the
/// signed range ends between them.
pub proof fn lemma_interval_ordered(start_raw: u64, end_raw: u64)
    requires
        is_timestamp(start_raw),
        start_raw <= end_raw,
        !(start_raw <= i64::MAX < end_raw),
    ensures
        timestamps_of(Ok(ProfilingReading::Start(start_raw)), Ok(ProfilingReading::End(end_raw)))
            matches Ok((start_ns, end_ns)) && start_ns <= end_ns,
{
}

/// The readings of a command are judged apart: a sentinel in either makes
/// the whole interval unavailable, and nothing else does once the backend
/// has answered both queries with the counters asked for.
pub proof fn lemma_interval_available(start_raw: u64, end_raw: u64)
    ensures
        timestamps_of(Ok(ProfilingReading::Start(start_raw)), Ok(ProfilingReading::End(end_raw)))
            is Ok <==> is_timestamp(start_raw) && is_timestamp(end_raw),
        !(is_timestamp(start_raw) && is_timestamp(end_raw)) ==> timestamps_of(
            Ok(ProfilingReading::Start(start_raw)),
            Ok(ProfilingReading::End(end_raw)),
        ) == Err::<(i64, i64), TraceError>(TraceError::ProfilingDataUnavailable),
{
}

} // verus!
