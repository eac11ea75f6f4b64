//! What holds of a hardware decoder as a whole: what it takes, in which order it works, and
//! how it ends.
use vstd::prelude::*;
use crate::platform::ohos_decoder;
use crate::platform::ohos_decoder::{
    AccessUnit, AccessUnitKind, DecoderConfig, DecoderError, DecoderStats, Event, SharedView,
    VideoCodec,
};
use crate::platform::ohos_worker;
use crate::platform::ohos_worker::{SetupReply, SetupStage, TeardownReply};

verus! {

/// A unit is taken exactly where the decoder is neither closed nor failed nor at its end,
/// the unit has what its kind asks for, and there is room for it. Only the lack of room is
/// cured by waiting.
pub proof fn lemma_which_units_are_taken(s: SharedView, unit: AccessUnit)
    requires
        s.wf(),
    ensures
        ({
            let size = unit.bytes@.len();
            let whole = if unit.kind is EndOfStream {
                size == 0
            } else {
                0 < size <= 0x7fff_ffff
            };
            let open = !s.closing && !s.stats.closed;
            let room = s.reserved_units < s.limits.max_queued_units && s.reserved_bytes + size
                <= s.limits.max_queued_bytes;
            let healthy = open && s.stats.failure is None && !s.eos_accepted;
            &&& s.refusal(unit) is None <==> healthy && whole && room
            &&& !open ==> s.refusal(unit) == Some(DecoderError::Closed)
            &&& open ==> (s.stats.failure matches Some(error) ==> s.refusal(unit) == Some(error))
            &&& open && s.stats.failure is None && s.eos_accepted ==> s.refusal(unit) == Some(
                DecoderError::EndOfStreamAlreadySubmitted,
            )
            &&& healthy && !whole ==> s.refusal(unit) == Some(DecoderError::InvalidAccessUnit)
            &&& healthy && whole && size > s.limits.max_queued_bytes ==> s.refusal(unit)
                is Some && s.refusal(unit)->0 is AccessUnitExceedsQueueLimit
            &&& healthy && whole && size <= s.limits.max_queued_bytes && !room ==> s.refusal(unit)
                == Some(DecoderError::Backpressure)
        }),
{
}

/// A unit that is taken waits behind the others, takes its room, and is counted; the end of
/// the stream is the last that is taken.
pub proof fn lemma_taken_units_wait(s: SharedView, unit: AccessUnit, next: AccessUnit)
    requires
        s.wf(),
        s.refusal(unit) is None,
        s.stats.accepted_units < u64::MAX,
    ensures
        ({
            let after = s.accepting(unit);
            &&& after.wf()
            &&& after.packets.len() == s.packets.len() + 1
            &&& after.packets.last() == unit
            &&& after.packets.drop_last() =~= s.packets
            &&& after.reserved_units == s.reserved_units + 1
            &&& after.reserved_bytes == s.reserved_bytes + unit.bytes@.len()
            &&& after.stats.accepted_units == s.stats.accepted_units + 1
            &&& after.stats.failure == s.stats.failure && after.stats.pushed_units
                == s.stats.pushed_units
            &&& unit.kind is EndOfStream ==> after.refusal(next) is Some
            &&& after.inputs == s.inputs && after.events == s.events
        }),
{
}

/// The worker stops first, then serves callbacks in their order, and then submits the oldest
/// unit to the oldest free buffer; with nothing of that it waits.
pub proof fn lemma_work_in_order(s: SharedView, now: u64)
    ensures
        ({
            let after = s.after_next();
            let stop = s.closing || s.stats.failure is Some;
            &&& s.stopping() <==> stop
            &&& s.idle() <==> !stop && s.events.len() == 0 && (s.inputs.len() == 0
                || s.packets.len() == 0)
            &&& stop || s.idle() ==> after == s
            &&& !stop && s.events.len() > 0 ==> after.events =~= s.events.skip(1) && after.packets
                == s.packets && after.inputs == s.inputs
            &&& !stop && s.events.len() == 0 && s.inputs.len() > 0 && s.packets.len() > 0
                ==> after.packets =~= s.packets.skip(1) && after.inputs =~= s.inputs.skip(1)
            &&& after.stats == s.stats && after.reserved_units == s.reserved_units
            &&& s.next_unit(now).bytes == s.packets[0].bytes && s.next_unit(now).pts_us
                == s.packets[0].pts_us && s.next_unit(now).kind == s.packets[0].kind && s.next_unit(
                now,
            ).dequeued_at == Some(now)
        }),
{
}

/// A unit that was submitted gives its room back and is counted as pushed, or as cancelled
/// where that failed. How long it was under way counts where that is known.
pub proof fn lemma_submitted_units_are_counted(
    s: SharedView,
    bytes: usize,
    success: bool,
    spent: Option<u64>,
    queued: Option<u64>,
    now: u64,
)
    requires
        s.wf(),
        s.reserved_units > 0,
        s.reserved_bytes >= bytes,
        s.stats.pushed_units < u64::MAX,
        s.stats.cancelled_units < u64::MAX,
        s.stats.timed_units < u64::MAX,
    ensures
        ({
            let after = s.after_submission(bytes, success, spent, queued, now);
            &&& after.wf()
            &&& after.reserved_units == s.reserved_units - 1
            &&& after.reserved_bytes == s.reserved_bytes - bytes
            &&& after.stats.pushed_units == s.stats.pushed_units + if success {
                1int
            } else {
                0
            }
            &&& after.stats.cancelled_units == s.stats.cancelled_units + if success {
                0int
            } else {
                1
            }
            &&& spent is None ==> after.stats.timed_units == s.stats.timed_units
                && after.stats.pipeline_micros_total == s.stats.pipeline_micros_total
            &&& spent matches Some(micros) ==> after.stats.timed_units == s.stats.timed_units + 1
                && after.stats.pipeline_micros_peak >= micros && after.stats.pipeline_micros_peak
                >= s.stats.pipeline_micros_peak && (after.stats.pipeline_micros_peak == micros
                || after.stats.pipeline_micros_peak == s.stats.pipeline_micros_peak) && (
            s.stats.pipeline_micros_total + micros <= u64::MAX
                ==> after.stats.pipeline_micros_total == s.stats.pipeline_micros_total + micros)
            &&& success ==> (queued matches Some(micros) ==> (s.stats.queue_micros_total + micros
                <= u64::MAX ==> after.stats.queue_micros_total == s.stats.queue_micros_total
                + micros))
            &&& queued is None || !success ==> after.stats.queue_micros_total
                == s.stats.queue_micros_total && after.stats.queue_timed_units
                == s.stats.queue_timed_units
            &&& success ==> after.pending_latency =~= s.pending_latency.push(now)
            &&& !success ==> after.pending_latency == s.pending_latency
            &&& after.packets == s.packets && after.stats.accepted_units == s.stats.accepted_units
        }),
{
}

/// A frame that comes out is counted as rendered, with the time since the oldest submission
/// that waits for one; what is no frame is counted apart; and the last output closes the
/// decoder.
pub proof fn lemma_outputs_are_counted(s: SharedView, frame: bool, eos: bool, now: u64)
    requires
        s.stats.render_submissions < u64::MAX,
        s.stats.non_frame_outputs < u64::MAX,
        s.stats.render_timed_units < u64::MAX,
    ensures
        ({
            let after = s.after_output(frame, eos, now);
            let timed = frame && s.pending_latency.len() > 0;
            &&& after.stats.render_submissions == s.stats.render_submissions + if frame {
                1int
            } else {
                0
            }
            &&& after.stats.non_frame_outputs == s.stats.non_frame_outputs + if frame {
                0int
            } else {
                1
            }
            &&& timed ==> after.pending_latency =~= s.pending_latency.skip(1)
                && after.stats.render_timed_units == s.stats.render_timed_units + 1
            &&& timed && s.pending_latency[0] <= now ==> after.stats.render_micros_peak >= now
                - s.pending_latency[0] && (s.stats.render_micros_total + (now
                - s.pending_latency[0]) <= u64::MAX ==> after.stats.render_micros_total
                == s.stats.render_micros_total + (now - s.pending_latency[0]))
            &&& !timed ==> after.pending_latency == s.pending_latency
                && after.stats.render_micros_total == s.stats.render_micros_total
                && after.stats.render_timed_units == s.stats.render_timed_units
            &&& after.closing == (s.closing || eos)
            &&& after.stats.end_of_stream_output == (s.stats.end_of_stream_output || eos)
            &&& after.packets == s.packets && after.reserved_units == s.reserved_units
        }),
{
}

/// A callback waits behind those before it. One for a buffer that is held already, or one
/// too many, fails the decoder; and after the end none counts.
pub proof fn lemma_callbacks(s: SharedView, event: Event)
    requires
        s.wf(),
    ensures
        ({
            let after = s.posted(event);
            let over = s.closing || s.stats.closed || s.stats.failure is Some;
            let held = match event {
                Event::Input(b) => s.input_indices.contains(b.index),
                Event::Output(b) => s.output_indices.contains(b.index),
                Event::StreamChanged => false,
            };
            let full = s.events.len() >= ohos_decoder::MAX_CALLBACKS || s.input_indices.len()
                + s.output_indices.len() >= ohos_decoder::MAX_CALLBACKS;
            &&& over ==> after == s
            &&& !over && full ==> after.stats.failure == Some(DecoderError::CallbackOverflow)
            &&& !over && !full && held ==> after.stats.failure == Some(
                DecoderError::DuplicateBufferIndex,
            )
            &&& !over && !full && !held ==> after.events =~= s.events.push(event)
                && after.stats.failure is None
            &&& !over && !full && !held ==> (event matches Event::Input(b)
                ==> after.input_indices.contains(b.index) && after.output_indices
                == s.output_indices)
            &&& !over && !full && !held ==> (event matches Event::Output(b)
                ==> after.output_indices.contains(b.index) && after.input_indices
                == s.input_indices)
            &&& after.packets == s.packets && after.reserved_units == s.reserved_units
        }),
{
}

/// A decoder that ends holds nothing any more, takes nothing any more, and counts what it
/// dropped.
pub proof fn lemma_ended_decoders(s: SharedView, unit: AccessUnit)
    requires
        s.stats.cancelled_units + s.packets.len() <= u64::MAX,
        s.stats.cancelled_units + s.reserved_units <= u64::MAX,
    ensures
        ({
            let closed = s.closing_down();
            let kept = s.quarantining();
            &&& closed.stats.closed && closed.closing && closed.packets.len() == 0
                && closed.events.len() == 0 && closed.reserved_units == 0 && closed.reserved_bytes
                == 0
            &&& closed.stats.cancelled_units == s.stats.cancelled_units + s.packets.len()
            &&& closed.stats.quarantined == s.stats.quarantined
            &&& closed.refusal(unit) == Some(DecoderError::Closed)
            &&& kept.stats.quarantined && kept.closing && kept.packets.len() == 0
                && kept.reserved_units == 0
            &&& kept.stats.cancelled_units == s.stats.cancelled_units + s.reserved_units
            &&& kept.stats.closed == s.stats.closed
            &&& kept.refusal(unit) == Some(DecoderError::Closed)
        }),
{
}

/// A decoder has stopped for its failure, or because it closed, is kept back or reached its
/// end; and else it has not.
pub proof fn lemma_stop_reasons(s: DecoderStats)
    ensures
        s.stop_reason() is None <==> s.failure is None && !s.closed && !s.quarantined
            && !s.end_of_stream_output,
        s.failure matches Some(error) ==> s.stop_reason() == Some(error),
        s.failure is None && (s.closed || s.quarantined || s.end_of_stream_output)
            ==> s.stop_reason() == Some(DecoderError::Closed),
{
}

/// A new decoder has its room free, nothing waiting and nothing counted.
pub proof fn lemma_new_decoders(limits: DecoderConfig, unit: AccessUnit)
    requires
        ohos_decoder::valid_limits(limits),
    ensures
        ({
            let s = SharedView::fresh(limits);
            &&& s.wf() && s.accounted()
            &&& s.packets.len() == 0 && s.events.len() == 0 && s.inputs.len() == 0
            &&& s.reserved_units == 0 && s.reserved_bytes == 0
            &&& !s.closing && !s.stats.closed && s.stats.failure is None && !s.eos_accepted
            &&& s.stats.accepted_units == 0 && s.stats.pushed_units == 0
                && s.stats.render_submissions == 0 && s.stats.cancelled_units == 0
            &&& s.limits == limits
            &&& s.stats.stop_reason() is None
        }),
        limits.width > 0 && limits.height > 0,
        0 < limits.max_queued_units && 0 < limits.max_queued_bytes,
{
    assert(Set::<u32>::empty().len() == 0);
}

/// Opening a decoder goes on to the next call exactly where the one before succeeded: a
/// hardware decoder with a name, handles that are there, and codes of zero.
pub proof fn lemma_opening_goes_on(stage: SetupStage, reply: SetupReply)
    ensures
        ({
            let next = ohos_worker::after_stage(stage, reply);
            let asks_hardware = stage is Capability || stage is Name;
            let gives_handle = stage is Create || stage is CreateFormat;
            let gives_code = stage is RegisterCallback || stage is Configure || stage is SetSurface
                || stage is Prepare || stage is Start;
            let fine = if asks_hardware {
                !reply.null && reply.accepted
            } else if gives_handle {
                !reply.null
            } else if gives_code {
                reply.code == 0
            } else if stage is Window {
                reply.code == 0 && !reply.null
            } else if stage is LowLatency {
                reply.accepted
            } else {
                true
            };
            &&& next is Ok <==> fine
            &&& next matches Ok(s) ==> if stage is Ready {
                s is Ready
            } else {
                ohos_worker::rank(s) == ohos_worker::rank(stage) + 1
            }
            &&& gives_code || stage is Window ==> (reply.code != 0 ==> (next matches Err(
                DecoderError::Native { code, .. },
            ) && code == reply.code))
            &&& stage is Capability && !fine ==> next == Err::<SetupStage, DecoderError>(
                DecoderError::NoHardwareDecoder,
            )
            &&& stage is Name && !reply.null && !reply.accepted ==> next == Err::<
                SetupStage,
                DecoderError,
            >(DecoderError::NoHardwareDecoder)
            &&& gives_handle && reply.null ==> (next matches Err(error) && error
                is NativeReturnedNull)
        }),
{
}

/// A decoder that cannot be destroyed is kept back and is what closing fails with; else a
/// failed stop is.
pub proof fn lemma_teardown(reply: TeardownReply)
    ensures
        reply.keeps_native() <==> (reply.destroyed is Some && reply.destroyed->0 != 0),
        reply.keeps_native() ==> reply.outcome() == Err::<(), DecoderError>(
            DecoderError::DestroyFailed { code: reply.destroyed->0 },
        ),
        !reply.keeps_native() && reply.stopped is Some && reply.stopped->0 != 0 ==> (
        reply.outcome() matches Err(DecoderError::Native { code, .. }) && code
            == reply.stopped->0),
        reply.outcome() is Ok <==> !reply.keeps_native() && (reply.stopped is None
            || reply.stopped->0 == 0),
{
}

/// Each codec has the type under which the system knows it, and each kind of unit the flags
/// by which the system tells it.
pub proof fn lemma_types_and_flags(codec: VideoCodec, kind: AccessUnitKind)
    ensures
        codec is H264 ==> ohos_worker::mime_of(codec) == "video/avc"@,
        codec is H265 ==> ohos_worker::mime_of(codec) == "video/hevc"@,
        ohos_worker::unit_flags(kind) == 1 <==> kind is EndOfStream,
        ohos_worker::unit_flags(kind) == 2 <==> kind == (AccessUnitKind::Frame { key: true }),
        ohos_worker::unit_flags(kind) == 8 <==> kind is CodecConfig,
        ohos_worker::unit_flags(kind) == 0 <==> kind == (AccessUnitKind::Frame { key: false }),
{
}

/// Sums and times: a sum stops at the largest number, a time never goes backwards.
pub proof fn lemma_counts(a: u64, b: u64)
    ensures
        a + b <= u64::MAX ==> ohos_decoder::saturated(a, b) == a + b,
        a + b > u64::MAX ==> ohos_decoder::saturated(a, b) == u64::MAX,
        ohos_decoder::larger(a, b) >= a && ohos_decoder::larger(a, b) >= b,
        ohos_decoder::larger(a, b) == a || ohos_decoder::larger(a, b) == b,
        a <= b ==> ohos_decoder::elapsed(a, b) == b - a,
        a > b ==> ohos_decoder::elapsed(a, b) == 0,
        ohos_worker::nanoseconds(a as i64, 0) matches Some(n) ==> n == (a as i64)
            * 1_000_000_000,
{
}

/// A decoder is opened for a surface that there is, with a picture that has an area and
/// queues that hold something and are not too long.
pub proof fn lemma_openable_decoders(surface: u64, limits: DecoderConfig)
    ensures
        ohos_worker::openable(surface, limits) <==> ({
            &&& surface >= 1
            &&& limits.width >= 1
            &&& limits.height >= 1
            &&& 1 <= limits.max_queued_units && limits.max_queued_units <= 64
            &&& 1 <= limits.max_queued_bytes && limits.max_queued_bytes <= 67_108_864
        }),
{
}

/// A clock that reads seconds and nanoseconds reads one number, wherever that fits.
pub proof fn lemma_clock(seconds: i64, nanos: i64)
    requires
        0 <= nanos < 1_000_000_000,
    ensures
        0 <= seconds < 9_223_372_036 ==> ohos_worker::nanoseconds(seconds, nanos) == Some(
            seconds * 1_000_000_000 + nanos,
        ),
        seconds > 9_223_372_036 ==> ohos_worker::nanoseconds(seconds, nanos) is None,
        ohos_worker::nanoseconds(seconds, nanos) matches Some(n) ==> n / 1_000_000_000 == seconds
            && n % 1_000_000_000 == nanos && i64::MIN <= n <= i64::MAX,
{
}

} // verus!
