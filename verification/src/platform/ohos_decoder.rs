//! The decisions of a hardware video decoder that renders to a Surface.
//!
//! One worker serves one stream. Callbacks, submissions and the request to close
//! all change the same [`Shared`] state, and the worker asks that state what to do
//! next. No pixel data passes through here, only compressed access units.
//! Playback never drops an accepted unit; closing cancels those still queued.
//!
//! Times are microseconds of one monotonic clock, read by the caller.
use std::collections::HashSet;
use std::collections::VecDeque;
use vstd::prelude::*;
use vstd::string::StringExecFns;
use crate::text;

verus! {

/// A video codec that the decoder accepts.
#[derive(Debug, Clone, Copy, PartialEq, Eq, Structural)]
pub enum VideoCodec {
    H264,
    H265,
}

/// What a decoder is opened for.
#[derive(Debug, Clone, Copy, PartialEq, Eq, Structural)]
pub struct DecoderConfig {
    pub codec: VideoCodec,
    /// Largest expected coded geometry.
    pub width: i32,
    pub height: i32,
    /// Capture rate that the stream is encoded at.
    pub frame_rate: u32,
    pub max_queued_units: usize,
    pub max_queued_bytes: usize,
}

/// What an access unit carries.
#[derive(Debug, Clone, Copy, PartialEq, Eq, Structural)]
pub enum AccessUnitKind {
    CodecConfig,
    Frame { key: bool },
    EndOfStream,
}

/// A complete compressed access unit.
#[derive(Debug)]
pub struct AccessUnit {
    pub bytes: Vec<u8>,
    pub pts_us: i64,
    pub kind: AccessUnitKind,
    /// When the unit was handed to the decoder; nothing for one that never was.
    pub accepted_at: Option<u64>,
    /// When the unit left the admission queue.
    pub dequeued_at: Option<u64>,
}

/// Why the decoder refuses or stops.
#[derive(Debug, Clone, Copy, PartialEq, Eq)]
pub enum DecoderError {
    UnsupportedPlatform,
    InvalidConfig,
    InvalidAccessUnit,
    Backpressure,
    AccessUnitExceedsQueueLimit { size: usize, limit: usize },
    Closed,
    EndOfStreamAlreadySubmitted,
    NoHardwareDecoder,
    NativeReturnedNull { api: &'static str },
    InvalidNativeBuffer,
    InputTooLarge { size: usize, capacity: i32 },
    Native { api: &'static str, code: i32 },
    CallbackOverflow,
    DuplicateBufferIndex,
    OwnerLimit,
    QuarantinePresent,
    DestroyFailed { code: i32 },
    WorkerStartFailed,
    WorkerPanicked,
}

impl DecoderError {
    /// How the error is written out.
    pub open spec fn shown(self) -> Seq<char> {
        match self {
            DecoderError::UnsupportedPlatform => "UnsupportedPlatform"@,
            DecoderError::InvalidConfig => "InvalidConfig"@,
            DecoderError::InvalidAccessUnit => "InvalidAccessUnit"@,
            DecoderError::Backpressure => "Backpressure"@,
            DecoderError::AccessUnitExceedsQueueLimit { size, limit } =>
                "AccessUnitExceedsQueueLimit { size: "@ + text::decimal(size as nat) + ", limit: "@
                + text::decimal(limit as nat) + " }"@,
            DecoderError::Closed => "Closed"@,
            DecoderError::EndOfStreamAlreadySubmitted => "EndOfStreamAlreadySubmitted"@,
            DecoderError::NoHardwareDecoder => "NoHardwareDecoder"@,
            DecoderError::NativeReturnedNull { api } => "NativeReturnedNull { api: "@
                + text::quoted_text(api@) + " }"@,
            DecoderError::InvalidNativeBuffer => "InvalidNativeBuffer"@,
            DecoderError::InputTooLarge { size, capacity } => "InputTooLarge { size: "@
                + text::decimal(size as nat) + ", capacity: "@ + text::signed_decimal(
                capacity as int,
            ) + " }"@,
            DecoderError::Native { api, code } => "Native { api: "@ + text::quoted_text(api@)
                + ", code: "@ + text::signed_decimal(code as int) + " }"@,
            DecoderError::CallbackOverflow => "CallbackOverflow"@,
            DecoderError::DuplicateBufferIndex => "DuplicateBufferIndex"@,
            DecoderError::OwnerLimit => "OwnerLimit"@,
            DecoderError::QuarantinePresent => "QuarantinePresent"@,
            DecoderError::DestroyFailed { code } => "DestroyFailed { code: "@
                + text::signed_decimal(code as int) + " }"@,
            DecoderError::WorkerStartFailed => "WorkerStartFailed"@,
            DecoderError::WorkerPanicked => "WorkerPanicked"@,
        }
    }

    /// The error as a string.
    pub fn to_string(&self) -> (r: String)
        ensures
            r@ == self.shown(),
    {
        match *self {
            DecoderError::UnsupportedPlatform => String::from_str("UnsupportedPlatform"),
            DecoderError::InvalidConfig => String::from_str("InvalidConfig"),
            DecoderError::InvalidAccessUnit => String::from_str("InvalidAccessUnit"),
            DecoderError::Backpressure => String::from_str("Backpressure"),
            DecoderError::Closed => String::from_str("Closed"),
            DecoderError::EndOfStreamAlreadySubmitted => String::from_str("EndOfStreamAlreadySubmitted"),
            DecoderError::NoHardwareDecoder => String::from_str("NoHardwareDecoder"),
            DecoderError::InvalidNativeBuffer => String::from_str("InvalidNativeBuffer"),
            DecoderError::CallbackOverflow => String::from_str("CallbackOverflow"),
            DecoderError::DuplicateBufferIndex => String::from_str("DuplicateBufferIndex"),
            DecoderError::OwnerLimit => String::from_str("OwnerLimit"),
            DecoderError::QuarantinePresent => String::from_str("QuarantinePresent"),
            DecoderError::WorkerStartFailed => String::from_str("WorkerStartFailed"),
            DecoderError::WorkerPanicked => String::from_str("WorkerPanicked"),
            DecoderError::AccessUnitExceedsQueueLimit { size, limit } => {
                let mut s = text::joined(
                    "AccessUnitExceedsQueueLimit { size: ",
                    text::decimal_text(size as u64).as_str(),
                );
                s.append(", limit: ");
                s.append(text::decimal_text(limit as u64).as_str());
                s.append(" }");
                s
            },
            DecoderError::NativeReturnedNull { api } => {
                let mut s = text::joined("NativeReturnedNull { api: ", text::quoted(api).as_str());
                s.append(" }");
                s
            },
            DecoderError::InputTooLarge { size, capacity } => {
                let mut s = text::joined(
                    "InputTooLarge { size: ",
                    text::decimal_text(size as u64).as_str(),
                );
                s.append(", capacity: ");
                s.append(text::signed_text(capacity as i64).as_str());
                s.append(" }");
                s
            },
            DecoderError::Native { api, code } => {
                let mut s = text::joined("Native { api: ", text::quoted(api).as_str());
                s.append(", code: ");
                s.append(text::signed_text(code as i64).as_str());
                s.append(" }");
                s
            },
            DecoderError::DestroyFailed { code } => {
                let mut s = text::joined(
                    "DestroyFailed { code: ",
                    text::signed_text(code as i64).as_str(),
                );
                s.append(" }");
                s
            },
        }
    }
}

/// A refused access unit, handed back so that the caller can keep the order of its
/// stream.
#[derive(Debug)]
pub struct RejectedSubmission {
    pub reason: DecoderError,
    pub unit: AccessUnit,
}

/// Counters of one decoder. Times are microseconds.
#[derive(Debug, Clone, Copy, PartialEq, Eq)]
pub struct DecoderStats {
    pub accepted_units: u64,
    pub pushed_units: u64,
    /// Successful render submissions, not physical presentation.
    pub render_submissions: u64,
    /// Time from arrival to the end of the submission, over `timed_units`.
    pub pipeline_micros_total: u64,
    pub pipeline_micros_peak: u64,
    pub timed_units: u64,
    /// Time from a submission to the render submission of the frame it produced,
    /// over `render_timed_units`.
    pub render_micros_total: u64,
    pub render_micros_peak: u64,
    pub render_timed_units: u64,
    /// Time spent waiting in the admission queue, over `queue_timed_units`.
    pub queue_micros_total: u64,
    pub queue_timed_units: u64,
    pub non_frame_outputs: u64,
    pub format_change_notifications: u64,
    pub cancelled_units: u64,
    pub end_of_stream_output: bool,
    /// A failed native destruction keeps the native object and its Surface.
    pub quarantined: bool,
    pub closed: bool,
    pub failure: Option<DecoderError>,
}

impl DecoderStats {
    /// Nothing counted yet.
    pub open spec fn zero() -> DecoderStats {
        DecoderStats {
            accepted_units: 0,
            pushed_units: 0,
            render_submissions: 0,
            pipeline_micros_total: 0,
            pipeline_micros_peak: 0,
            timed_units: 0,
            render_micros_total: 0,
            render_micros_peak: 0,
            render_timed_units: 0,
            queue_micros_total: 0,
            queue_timed_units: 0,
            non_frame_outputs: 0,
            format_change_notifications: 0,
            cancelled_units: 0,
            end_of_stream_output: false,
            quarantined: false,
            closed: false,
            failure: None,
        }
    }

    /// Why a decoder with these counters has stopped, if it has: its failure, or
    /// else that it closed, was quarantined or reached the end of its stream.
    pub open spec fn stop_reason(self) -> Option<DecoderError> {
        match self.failure {
            Some(error) => Some(error),
            None => if self.closed || self.quarantined || self.end_of_stream_output {
                Some(DecoderError::Closed)
            } else {
                None
            },
        }
    }

    /// Whether the decoder has stopped, and why.
    pub fn stopped(&self) -> (r: Option<DecoderError>)
        ensures
            r == self.stop_reason(),
    {
        match self.failure {
            Some(error) => Some(error),
            None => {
                if self.closed || self.quarantined || self.end_of_stream_output {
                    Some(DecoderError::Closed)
                } else {
                    None
                }
            },
        }
    }
}

impl Default for DecoderStats {
    fn default() -> (r: DecoderStats)
        ensures
            r == DecoderStats::zero(),
    {
        DecoderStats {
            accepted_units: 0,
            pushed_units: 0,
            render_submissions: 0,
            pipeline_micros_total: 0,
            pipeline_micros_peak: 0,
            timed_units: 0,
            render_micros_total: 0,
            render_micros_peak: 0,
            render_timed_units: 0,
            queue_micros_total: 0,
            queue_timed_units: 0,
            non_frame_outputs: 0,
            format_change_notifications: 0,
            cancelled_units: 0,
            end_of_stream_output: false,
            quarantined: false,
            closed: false,
            failure: None,
        }
    }
}

/// Most callbacks waiting at once, and most buffers held at once.
pub const MAX_CALLBACKS: usize = 256;

/// Most decoders starting, live or quarantined at once.
pub const MAX_OWNERS: usize = 4;

/// Most access units a decoder may be configured to queue.
pub const MAX_UNITS: usize = 64;

/// Most bytes a decoder may be configured to queue.
pub const MAX_BYTES: usize = 67_108_864;

/// Buffer flag: the stream ends here.
pub const FLAG_END_OF_STREAM: u32 = 1;

/// Buffer flag: the unit is a key frame.
pub const FLAG_SYNC_FRAME: u32 = 2;

/// Buffer flag: codec parameters, not a frame.
pub const FLAG_CODEC_DATA: u32 = 8;

/// Whether an output with these flags is a frame, and whether the stream ends with
/// it. A frame is neither the end of the stream, nor codec data, nor discarded.
pub fn output_flags(flags: u32) -> (r: (bool, bool))
    ensures
        r.0 == (flags % 2 == 0 && flags / 8 % 2 == 0 && flags / 16 % 2 == 0),
        r.1 == (flags % 2 == 1),
{
    (flags % 2 == 0 && flags / 8 % 2 == 0 && flags / 16 % 2 == 0, flags % 2 == 1)
}

/// A buffer of the native codec: its index and where it lies.
#[derive(Debug, Clone, Copy, PartialEq, Eq, Structural)]
pub struct Buffer {
    pub index: u32,
    pub address: usize,
}

/// What a callback of the native codec reports.
#[derive(Debug, Clone, Copy, PartialEq, Eq, Structural)]
pub enum Event {
    Input(Buffer),
    Output(Buffer),
    StreamChanged,
}

/// What the worker does next.
#[derive(Debug)]
pub enum Action {
    Event(Event),
    Submit(Buffer, AccessUnit),
    Stop,
}

/// Who has to be woken after a change: the worker, and those that wait for room or
/// for the decoder to stop.
#[derive(Debug, Clone, Copy, PartialEq, Eq, Structural)]
pub struct Wake {
    pub worker: bool,
    pub waiters: bool,
}

/// The state of one decoder, as plain values.
pub struct SharedView {
    pub packets: Seq<AccessUnit>,
    pub events: Seq<Event>,
    pub inputs: Seq<Buffer>,
    pub input_indices: Set<u32>,
    pub output_indices: Set<u32>,
    pub pending_latency: Seq<u64>,
    pub reserved_units: usize,
    pub reserved_bytes: usize,
    pub eos_accepted: bool,
    pub closing: bool,
    pub stats: DecoderStats,
    pub limits: DecoderConfig,
}

/// The state that callbacks, submitters and the worker of one decoder share.
pub struct Shared {
    packets: VecDeque<AccessUnit>,
    events: VecDeque<Event>,
    inputs: VecDeque<Buffer>,
    input_indices: HashSet<u32>,
    output_indices: HashSet<u32>,
    /// When units were submitted whose frames have not come back yet.
    pending_latency: VecDeque<u64>,
    /// Counts the unit that the worker took out until it is submitted.
    reserved_units: usize,
    reserved_bytes: usize,
    eos_accepted: bool,
    closing: bool,
    stats: DecoderStats,
    limits: DecoderConfig,
}

impl View for Shared {
    type V = SharedView;

    closed spec fn view(&self) -> SharedView {
        SharedView {
            packets: self.packets@,
            events: self.events@,
            inputs: self.inputs@,
            input_indices: self.input_indices@,
            output_indices: self.output_indices@,
            pending_latency: self.pending_latency@,
            reserved_units: self.reserved_units,
            reserved_bytes: self.reserved_bytes,
            eos_accepted: self.eos_accepted,
            closing: self.closing,
            stats: self.stats,
            limits: self.limits,
        }
    }
}

/// The sum of two counts, kept at the largest value where it would pass it.
pub open spec fn saturated(a: u64, b: u64) -> u64 {
    if a + b > u64::MAX {
        u64::MAX
    } else {
        (a + b) as u64
    }
}

/// The larger of two counts.
pub open spec fn larger(a: u64, b: u64) -> u64 {
    if a < b {
        b
    } else {
        a
    }
}

/// The time from `start` to `end`, none where `end` is earlier.
pub open spec fn elapsed(start: u64, end: u64) -> u64 {
    if end < start {
        0
    } else {
        (end - start) as u64
    }
}

/// Whether the limits of a decoder make sense.
pub open spec fn valid_limits(limits: DecoderConfig) -> bool {
    &&& limits.width > 0
    &&& limits.height > 0
    &&& 0 < limits.max_queued_units <= MAX_UNITS
    &&& 0 < limits.max_queued_bytes <= MAX_BYTES
}

/// Whether a unit carries what its kind asks for: nothing at the end of a stream,
/// and else at least one byte and no more than a signed 32-bit length can tell.
pub open spec fn valid_unit(unit: AccessUnit) -> bool {
    match unit.kind {
        AccessUnitKind::EndOfStream => unit.bytes@.len() == 0,
        _ => 0 < unit.bytes@.len() <= i32::MAX,
    }
}

impl SharedView {
    /// What holds of every state: the reservations and the callbacks are within
    /// their limits.
    pub open spec fn wf(self) -> bool {
        &&& valid_limits(self.limits)
        &&& self.reserved_units <= self.limits.max_queued_units
        &&& self.reserved_bytes <= self.limits.max_queued_bytes
        &&& self.events.len() <= MAX_CALLBACKS
        &&& self.input_indices.finite()
        &&& self.output_indices.finite()
        &&& self.input_indices.len() + self.output_indices.len() <= MAX_CALLBACKS
    }

    /// The state of a new decoder.
    pub open spec fn fresh(limits: DecoderConfig) -> SharedView {
        SharedView {
            packets: Seq::empty(),
            events: Seq::empty(),
            inputs: Seq::empty(),
            input_indices: Set::empty(),
            output_indices: Set::empty(),
            pending_latency: Seq::empty(),
            reserved_units: 0,
            reserved_bytes: 0,
            eos_accepted: false,
            closing: false,
            stats: DecoderStats::zero(),
            limits,
        }
    }

    /// Why a unit is refused, if it is. A closed decoder answers first, then a
    /// failed one, then one whose stream has ended; then the unit itself is looked
    /// at; a full queue comes last, so that only it can be cured by waiting.
    pub open spec fn refusal(self, unit: AccessUnit) -> Option<DecoderError> {
        let size = unit.bytes@.len();
        if self.closing || self.stats.closed {
            Some(DecoderError::Closed)
        } else if self.stats.failure is Some {
            self.stats.failure
        } else if self.eos_accepted {
            Some(DecoderError::EndOfStreamAlreadySubmitted)
        } else if !valid_unit(unit) {
            Some(DecoderError::InvalidAccessUnit)
        } else if size > self.limits.max_queued_bytes {
            Some(
                DecoderError::AccessUnitExceedsQueueLimit {
                    size: size as usize,
                    limit: self.limits.max_queued_bytes,
                },
            )
        } else if self.reserved_units >= self.limits.max_queued_units || size
            > self.limits.max_queued_bytes - self.reserved_bytes {
            Some(DecoderError::Backpressure)
        } else {
            None
        }
    }

    /// The state after `unit` was accepted.
    pub open spec fn accepting(self, unit: AccessUnit) -> SharedView {
        SharedView {
            eos_accepted: unit.kind is EndOfStream,
            reserved_units: (self.reserved_units + 1) as usize,
            reserved_bytes: (self.reserved_bytes + unit.bytes@.len()) as usize,
            packets: self.packets.push(unit),
            stats: DecoderStats {
                accepted_units: (self.stats.accepted_units + 1) as u64,
                ..self.stats
            },
            ..self
        }
    }

    /// The state with `error` as its failure, unless it has failed before.
    pub open spec fn failing(self, error: DecoderError) -> SharedView {
        if self.stats.failure is Some {
            self
        } else {
            SharedView { stats: DecoderStats { failure: Some(error), ..self.stats }, ..self }
        }
    }

    /// The state after a callback. One that comes after the end changes nothing;
    /// one too many, or one for a buffer that is already held, is a failure.
    pub open spec fn posted(self, event: Event) -> SharedView {
        if self.closing || self.stats.closed || self.stats.failure is Some {
            self
        } else if self.events.len() >= MAX_CALLBACKS || self.input_indices.len()
            + self.output_indices.len() >= MAX_CALLBACKS {
            self.failing(DecoderError::CallbackOverflow)
        } else {
            match event {
                Event::Input(b) => if self.input_indices.contains(b.index) {
                    self.failing(DecoderError::DuplicateBufferIndex)
                } else {
                    SharedView {
                        events: self.events.push(event),
                        input_indices: self.input_indices.insert(b.index),
                        ..self
                    }
                },
                Event::Output(b) => if self.output_indices.contains(b.index) {
                    self.failing(DecoderError::DuplicateBufferIndex)
                } else {
                    SharedView {
                        events: self.events.push(event),
                        output_indices: self.output_indices.insert(b.index),
                        ..self
                    }
                },
                Event::StreamChanged => SharedView { events: self.events.push(event), ..self },
            }
        }
    }

    /// Whether the worker has to stop.
    pub open spec fn stopping(self) -> bool {
        self.closing || self.stats.failure is Some
    }

    /// Whether the worker has nothing to do yet.
    pub open spec fn idle(self) -> bool {
        &&& !self.stopping()
        &&& self.events.len() == 0
        &&& (self.inputs.len() == 0 || self.packets.len() == 0)
    }

    /// The unit that the worker submits next, stamped with the time it left the
    /// queue.
    pub open spec fn next_unit(self, now: u64) -> AccessUnit {
        AccessUnit { dequeued_at: Some(now), ..self.packets[0] }
    }

    /// The state after the worker asked what to do: it stops before anything else,
    /// and serves callbacks before it submits.
    pub open spec fn after_next(self) -> SharedView {
        if self.stopping() || self.idle() {
            self
        } else if self.events.len() > 0 {
            SharedView { events: self.events.skip(1), ..self }
        } else {
            SharedView { inputs: self.inputs.skip(1), packets: self.packets.skip(1), ..self }
        }
    }

    /// The state after a unit of `bytes` bytes was submitted, or failed to be.
    pub open spec fn after_submission(
        self,
        bytes: usize,
        success: bool,
        spent: Option<u64>,
        queued: Option<u64>,
        now: u64,
    ) -> SharedView {
        let timed = match spent {
            Some(micros) => DecoderStats {
                timed_units: (self.stats.timed_units + 1) as u64,
                pipeline_micros_total: saturated(self.stats.pipeline_micros_total, micros),
                pipeline_micros_peak: larger(self.stats.pipeline_micros_peak, micros),
                ..self.stats
            },
            None => self.stats,
        };
        let stats = if success {
            DecoderStats {
                pushed_units: (self.stats.pushed_units + 1) as u64,
                queue_timed_units: match queued {
                    Some(_) => saturated(self.stats.queue_timed_units, 1),
                    None => self.stats.queue_timed_units,
                },
                queue_micros_total: match queued {
                    Some(micros) => saturated(self.stats.queue_micros_total, micros),
                    None => self.stats.queue_micros_total,
                },
                ..timed
            }
        } else {
            DecoderStats { cancelled_units: (self.stats.cancelled_units + 1) as u64, ..timed }
        };
        SharedView {
            pending_latency: if success {
                self.pending_latency.push(now)
            } else {
                self.pending_latency
            },
            reserved_units: (self.reserved_units - 1) as usize,
            reserved_bytes: (self.reserved_bytes - bytes) as usize,
            stats,
            ..self
        }
    }

    /// The state after an output came back. A frame is matched to the oldest
    /// submission whose frame has not come back yet.
    pub open spec fn after_output(self, frame: bool, eos: bool, now: u64) -> SharedView {
        let counted = if !frame {
            SharedView {
                stats: DecoderStats {
                    non_frame_outputs: (self.stats.non_frame_outputs + 1) as u64,
                    ..self.stats
                },
                ..self
            }
        } else if self.pending_latency.len() == 0 {
            SharedView {
                stats: DecoderStats {
                    render_submissions: (self.stats.render_submissions + 1) as u64,
                    ..self.stats
                },
                ..self
            }
        } else {
            let micros = elapsed(self.pending_latency[0], now);
            SharedView {
                pending_latency: self.pending_latency.skip(1),
                stats: DecoderStats {
                    render_submissions: (self.stats.render_submissions + 1) as u64,
                    render_timed_units: saturated(self.stats.render_timed_units, 1),
                    render_micros_total: saturated(self.stats.render_micros_total, micros),
                    render_micros_peak: larger(self.stats.render_micros_peak, micros),
                    ..self.stats
                },
                ..self
            }
        };
        if eos {
            SharedView {
                closing: true,
                stats: DecoderStats { end_of_stream_output: true, ..counted.stats },
                ..counted
            }
        } else {
            counted
        }
    }

    /// The state with everything queued dropped and `cancelled` units counted as
    /// cancelled.
    pub open spec fn emptied(self, cancelled: int) -> SharedView {
        SharedView {
            packets: Seq::empty(),
            events: Seq::empty(),
            inputs: Seq::empty(),
            input_indices: Set::empty(),
            output_indices: Set::empty(),
            reserved_units: 0,
            reserved_bytes: 0,
            closing: true,
            stats: DecoderStats {
                cancelled_units: (self.stats.cancelled_units + cancelled) as u64,
                ..self.stats
            },
            ..self
        }
    }

    /// The state after the native object could not be destroyed.
    pub open spec fn quarantining(self) -> SharedView {
        let emptied = self.emptied(self.reserved_units as int);
        SharedView { stats: DecoderStats { quarantined: true, ..emptied.stats }, ..emptied }
    }

    /// The state after the worker ended.
    pub open spec fn closing_down(self) -> SharedView {
        let emptied = self.emptied(self.packets.len() as int);
        SharedView { stats: DecoderStats { closed: true, ..emptied.stats }, ..emptied }
    }

    /// Every accepted unit is pushed, cancelled or still reserved.
    pub open spec fn accounted(self) -> bool {
        self.stats.accepted_units == self.stats.pushed_units + self.stats.cancelled_units
            + self.reserved_units
    }
}

fn saturating_sum(a: u64, b: u64) -> (r: u64)
    ensures
        r == saturated(a, b),
{
    if b > u64::MAX - a {
        u64::MAX
    } else {
        a + b
    }
}

fn micros_between(start: u64, end: u64) -> (r: u64)
    ensures
        r == elapsed(start, end),
{
    if end < start {
        0
    } else {
        end - start
    }
}

/// How long a unit that is submitted at `now` has been under way, and how long it
/// waited in the queue, as far as its stamps tell.
pub fn unit_timings(unit: &AccessUnit, now: u64) -> (r: (Option<u64>, Option<u64>))
    ensures
        r.0 == (match unit.accepted_at {
            Some(at) => Some(elapsed(at, now)),
            None => None,
        }),
        r.1 == (match (unit.accepted_at, unit.dequeued_at) {
            (Some(at), Some(left)) => Some(elapsed(at, left)),
            _ => None,
        }),
{
    match unit.accepted_at {
        None => (None, None),
        Some(at) => (
            Some(micros_between(at, now)),
            match unit.dequeued_at {
                Some(left) => Some(micros_between(at, left)),
                None => None,
            },
        ),
    }
}

impl Shared {
    /// The state for a new decoder, where its limits make sense.
    pub fn new(limits: DecoderConfig) -> (r: Result<Shared, DecoderError>)
        ensures
            match r {
                Ok(shared) => valid_limits(limits) && shared@ == SharedView::fresh(limits)
                    && shared@.wf(),
                Err(error) => !valid_limits(limits) && error == DecoderError::InvalidConfig,
            },
    {
        broadcast use vstd::std_specs::hash::group_hash_axioms;

        if limits.width <= 0 || limits.height <= 0 || limits.max_queued_units == 0
            || limits.max_queued_units > MAX_UNITS || limits.max_queued_bytes == 0
            || limits.max_queued_bytes > MAX_BYTES {
            return Err(DecoderError::InvalidConfig);
        }
        Ok(
            Shared {
                packets: VecDeque::with_capacity(limits.max_queued_units),
                events: VecDeque::with_capacity(MAX_CALLBACKS),
                inputs: VecDeque::with_capacity(MAX_CALLBACKS),
                input_indices: HashSet::with_capacity(MAX_CALLBACKS),
                output_indices: HashSet::with_capacity(MAX_CALLBACKS),
                pending_latency: VecDeque::with_capacity(limits.max_queued_units),
                reserved_units: 0,
                reserved_bytes: 0,
                eos_accepted: false,
                closing: false,
                stats: DecoderStats::default(),
                limits,
            },
        )
    }

    /// Queues a unit that arrives at `now`, or hands it back. After a success the
    /// worker is to be woken.
    pub fn submit(&mut self, unit: AccessUnit, now: u64) -> (r: Result<(), RejectedSubmission>)
        requires
            old(self)@.wf(),
            old(self)@.stats.accepted_units < u64::MAX,
        ensures
            final(self)@.wf(),
            ({
                let stamped = AccessUnit { accepted_at: Some(now), dequeued_at: None, ..unit };
                match r {
                    Ok(_) => old(self)@.refusal(unit) is None && final(self)@ == old(
                        self,
                    )@.accepting(stamped),
                    Err(rejected) => Some(rejected.reason) == old(self)@.refusal(unit)
                        && rejected.unit == stamped && final(self)@ == old(self)@,
                }
            }),
    {
        let unit = AccessUnit {
            bytes: unit.bytes,
            pts_us: unit.pts_us,
            kind: unit.kind,
            accepted_at: Some(now),
            dequeued_at: None,
        };
        let size: usize = unit.bytes.len();
        let invalid = match unit.kind {
            AccessUnitKind::EndOfStream => size != 0,
            _ => size == 0 || size > i32::MAX as usize,
        };
        if self.closing || self.stats.closed {
            return Err(RejectedSubmission { reason: DecoderError::Closed, unit });
        }
        if let Some(error) = self.stats.failure {
            return Err(RejectedSubmission { reason: error, unit });
        }
        if self.eos_accepted {
            return Err(
                RejectedSubmission { reason: DecoderError::EndOfStreamAlreadySubmitted, unit },
            );
        }
        if invalid {
            return Err(RejectedSubmission { reason: DecoderError::InvalidAccessUnit, unit });
        }
        if size > self.limits.max_queued_bytes {
            return Err(
                RejectedSubmission {
                    reason: DecoderError::AccessUnitExceedsQueueLimit {
                        size,
                        limit: self.limits.max_queued_bytes,
                    },
                    unit,
                },
            );
        }
        if self.reserved_units >= self.limits.max_queued_units || size
            > self.limits.max_queued_bytes - self.reserved_bytes {
            return Err(RejectedSubmission { reason: DecoderError::Backpressure, unit });
        }
        self.eos_accepted = match unit.kind {
            AccessUnitKind::EndOfStream => true,
            _ => false,
        };
        self.reserved_units = self.reserved_units + 1;
        self.reserved_bytes = self.reserved_bytes + size;
        self.stats.accepted_units = self.stats.accepted_units + 1;
        self.packets.push_back(unit);
        Ok(())
    }

    /// Takes note of a callback. It never waits.
    pub fn post(&mut self, event: Event) -> (r: Wake)
        requires
            old(self)@.wf(),
        ensures
            final(self)@.wf(),
            final(self)@ == old(self)@.posted(event),
            r.worker == !(old(self)@.stopping() || old(self)@.stats.closed),
            r.waiters == (r.worker && final(self)@.stats.failure is Some),
    {
        broadcast use vstd::std_specs::hash::group_hash_axioms;

        if self.closing || self.stats.closed || self.stats.failure.is_some() {
            return Wake { worker: false, waiters: false };
        }
        if self.events.len() >= MAX_CALLBACKS || self.input_indices.len()
            + self.output_indices.len() >= MAX_CALLBACKS {
            self.stats.failure = Some(DecoderError::CallbackOverflow);
        } else {
            let duplicate = match event {
                Event::Input(b) => !self.input_indices.insert(b.index),
                Event::Output(b) => !self.output_indices.insert(b.index),
                Event::StreamChanged => false,
            };
            if duplicate {
                self.stats.failure = Some(DecoderError::DuplicateBufferIndex);
            } else {
                self.events.push_back(event);
            }
        }
        proof {
            assert(self@.input_indices =~= old(self)@.posted(event).input_indices);
            assert(self@.output_indices =~= old(self)@.posted(event).output_indices);
        }
        Wake { worker: true, waiters: self.stats.failure.is_some() }
    }

    /// Takes note of a failure; the first one stands.
    pub fn fail(&mut self, error: DecoderError) -> (r: Wake)
        ensures
            final(self)@ == old(self)@.failing(error),
            r.worker && r.waiters,
    {
        if self.stats.failure.is_none() {
            self.stats.failure = Some(error);
        }
        Wake { worker: true, waiters: true }
    }

    /// What the worker does next at `now`; nothing means that it waits.
    pub fn next(&mut self, now: u64) -> (r: Option<Action>)
        requires
            old(self)@.wf(),
        ensures
            final(self)@.wf(),
            final(self)@ == old(self)@.after_next(),
            match r {
                None => old(self)@.idle(),
                Some(Action::Stop) => old(self)@.stopping(),
                Some(Action::Event(event)) => !old(self)@.stopping() && old(self)@.events.len() > 0
                    && event == old(self)@.events[0],
                Some(Action::Submit(buffer, unit)) => !old(self)@.stopping() && !old(self)@.idle()
                    && old(self)@.events.len() == 0 && buffer == old(self)@.inputs[0] && unit
                    == old(self)@.next_unit(now),
            },
    {
        if self.closing || self.stats.failure.is_some() {
            return Some(Action::Stop);
        }
        if let Some(event) = self.events.pop_front() {
            proof {
                assert(self@.events =~= old(self)@.events.skip(1));
            }
            return Some(Action::Event(event));
        }
        if self.inputs.len() == 0 || self.packets.len() == 0 {
            return None;
        }
        let buffer = self.inputs.pop_front();
        let unit = self.packets.pop_front();
        proof {
            assert(self@.inputs =~= old(self)@.inputs.skip(1));
            assert(self@.packets =~= old(self)@.packets.skip(1));
        }
        match (buffer, unit) {
            (Some(buffer), Some(unit)) => Some(
                Action::Submit(
                    buffer,
                    AccessUnit {
                        bytes: unit.bytes,
                        pts_us: unit.pts_us,
                        kind: unit.kind,
                        accepted_at: unit.accepted_at,
                        dequeued_at: Some(now),
                    },
                ),
            ),
            _ => None,
        }
    }

    /// An input buffer is free to be filled.
    pub fn input_available(&mut self, buffer: Buffer)
        ensures
            final(self)@ == (SharedView { inputs: old(self)@.inputs.push(buffer), ..old(self)@ }),
    {
        self.inputs.push_back(buffer);
    }

    /// An input buffer goes back to the codec, which may report it anew at once.
    pub fn returning_input(&mut self, index: u32)
        requires
            old(self)@.wf(),
        ensures
            final(self)@.wf(),
            final(self)@ == (SharedView {
                input_indices: old(self)@.input_indices.remove(index),
                ..old(self)@
            }),
    {
        broadcast use vstd::std_specs::hash::group_hash_axioms;

        self.input_indices.remove(&index);
        proof {
            assert(self@.input_indices =~= old(self)@.input_indices.remove(index));
        }
    }

    /// An output buffer goes back to the codec, which may report it anew at once.
    pub fn returning_output(&mut self, index: u32)
        requires
            old(self)@.wf(),
        ensures
            final(self)@.wf(),
            final(self)@ == (SharedView {
                output_indices: old(self)@.output_indices.remove(index),
                ..old(self)@
            }),
    {
        broadcast use vstd::std_specs::hash::group_hash_axioms;

        self.output_indices.remove(&index);
        proof {
            assert(self@.output_indices =~= old(self)@.output_indices.remove(index));
        }
    }

    /// A unit was submitted, or failed to be, at `now`; its times are not known.
    pub fn submitted(&mut self, bytes: usize, success: bool, now: u64) -> (r: Wake)
        requires
            old(self)@.wf(),
            old(self)@.reserved_units > 0,
            old(self)@.reserved_bytes >= bytes,
            old(self)@.stats.pushed_units < u64::MAX,
            old(self)@.stats.cancelled_units < u64::MAX,
        ensures
            final(self)@.wf(),
            final(self)@ == old(self)@.after_submission(bytes, success, None, None, now),
            !r.worker && r.waiters,
    {
        self.submitted_at(bytes, success, None, None, now)
    }

    /// A unit was submitted, or failed to be, at `now`, after `spent` microseconds of
    /// which it waited `queued` in the queue.
    pub fn submitted_at(
        &mut self,
        bytes: usize,
        success: bool,
        spent: Option<u64>,
        queued: Option<u64>,
        now: u64,
    ) -> (r: Wake)
        requires
            old(self)@.wf(),
            old(self)@.reserved_units > 0,
            old(self)@.reserved_bytes >= bytes,
            old(self)@.stats.pushed_units < u64::MAX,
            old(self)@.stats.cancelled_units < u64::MAX,
            spent is Some ==> old(self)@.stats.timed_units < u64::MAX,
        ensures
            final(self)@.wf(),
            final(self)@ == old(self)@.after_submission(bytes, success, spent, queued, now),
            !r.worker && r.waiters,
    {
        if success {
            self.pending_latency.push_back(now);
            if let Some(micros) = queued {
                self.stats.queue_timed_units = saturating_sum(self.stats.queue_timed_units, 1);
                self.stats.queue_micros_total =
                saturating_sum(self.stats.queue_micros_total, micros);
            }
        }
        self.reserved_units = self.reserved_units - 1;
        self.reserved_bytes = self.reserved_bytes - bytes;
        if success {
            self.stats.pushed_units = self.stats.pushed_units + 1;
        } else {
            self.stats.cancelled_units = self.stats.cancelled_units + 1;
        }
        if let Some(micros) = spent {
            self.stats.timed_units = self.stats.timed_units + 1;
            self.stats.pipeline_micros_total =
            saturating_sum(self.stats.pipeline_micros_total, micros);
            if micros > self.stats.pipeline_micros_peak {
                self.stats.pipeline_micros_peak = micros;
            }
        }
        Wake { worker: false, waiters: true }
    }

    /// An output came back at `now`: a frame that was rendered or something else,
    /// and perhaps the end of the stream.
    pub fn output(&mut self, frame: bool, eos: bool, now: u64) -> (r: Wake)
        requires
            old(self)@.wf(),
            frame ==> old(self)@.stats.render_submissions < u64::MAX,
            !frame ==> old(self)@.stats.non_frame_outputs < u64::MAX,
        ensures
            final(self)@.wf(),
            final(self)@ == old(self)@.after_output(frame, eos, now),
            !r.worker && r.waiters == eos,
    {
        if frame {
            self.stats.render_submissions = self.stats.render_submissions + 1;
            if let Some(pushed) = self.pending_latency.pop_front() {
                proof {
                    assert(self@.pending_latency =~= old(self)@.pending_latency.skip(1));
                }
                let micros: u64 = micros_between(pushed, now);
                self.stats.render_timed_units = saturating_sum(self.stats.render_timed_units, 1);
                self.stats.render_micros_total =
                saturating_sum(self.stats.render_micros_total, micros);
                if micros > self.stats.render_micros_peak {
                    self.stats.render_micros_peak = micros;
                }
            }
        } else {
            self.stats.non_frame_outputs = self.stats.non_frame_outputs + 1;
        }
        if eos {
            self.stats.end_of_stream_output = true;
            self.closing = true;
        }
        Wake { worker: false, waiters: eos }
    }

    /// The codec reported a change of format.
    pub fn stream_changed(&mut self)
        requires
            old(self)@.stats.format_change_notifications < u64::MAX,
        ensures
            final(self)@ == (SharedView {
                stats: DecoderStats {
                    format_change_notifications: (old(self)@.stats.format_change_notifications
                        + 1) as u64,
                    ..old(self)@.stats
                },
                ..old(self)@
            }),
    {
        self.stats.format_change_notifications = self.stats.format_change_notifications + 1;
    }

    /// The decoder is to close.
    pub fn request_close(&mut self) -> (r: Wake)
        ensures
            final(self)@ == (SharedView { closing: true, ..old(self)@ }),
            r.worker && r.waiters,
    {
        self.closing = true;
        Wake { worker: true, waiters: true }
    }

    /// The native object could not be destroyed. What was queued is dropped.
    pub fn quarantine(&mut self) -> (r: Wake)
        requires
            old(self)@.wf(),
            old(self)@.stats.cancelled_units + old(self)@.reserved_units <= u64::MAX,
        ensures
            final(self)@.wf(),
            final(self)@ == old(self)@.quarantining(),
            r.worker && r.waiters,
    {
        broadcast use vstd::std_specs::hash::group_hash_axioms;

        self.stats.quarantined = true;
        self.closing = true;
        self.stats.cancelled_units = self.stats.cancelled_units + self.reserved_units as u64;
        self.reserved_units = 0;
        self.reserved_bytes = 0;
        self.packets.clear();
        self.events.clear();
        self.inputs.clear();
        self.input_indices.clear();
        self.output_indices.clear();
        Wake { worker: true, waiters: true }
    }

    /// Units waiting for a place in the decoder right now.
    pub fn queued_units(&self) -> (r: usize)
        ensures
            r == self@.packets.len(),
    {
        self.packets.len()
    }

    /// The counters.
    pub fn stats(&self) -> (r: DecoderStats)
        ensures
            r == self@.stats,
    {
        self.stats
    }

    /// The worker has ended.
    pub fn closed(&mut self) -> (r: Wake)
        requires
            old(self)@.wf(),
            old(self)@.stats.cancelled_units + old(self)@.packets.len() <= u64::MAX,
        ensures
            final(self)@.wf(),
            final(self)@ == old(self)@.closing_down(),
            !r.worker && r.waiters,
    {
        broadcast use vstd::std_specs::hash::group_hash_axioms;

        self.closing = true;
        self.stats.cancelled_units = self.stats.cancelled_units + self.packets.len() as u64;
        self.packets.clear();
        self.inputs.clear();
        self.events.clear();
        self.input_indices.clear();
        self.output_indices.clear();
        self.reserved_units = 0;
        self.reserved_bytes = 0;
        self.stats.closed = true;
        Wake { worker: false, waiters: true }
    }
}

/// How many decoders exist.
#[derive(Debug, Clone, Copy, PartialEq, Eq, Structural)]
pub struct OwnerBudget {
    pub live: usize,
    pub quarantined: usize,
}

impl Default for OwnerBudget {
    fn default() -> (r: OwnerBudget)
        ensures
            r == (OwnerBudget { live: 0, quarantined: 0 }),
    {
        OwnerBudget { live: 0, quarantined: 0 }
    }
}

impl OwnerBudget {
    /// Makes room for one more decoder. A quarantined one forbids every other.
    pub fn reserve(&mut self) -> (r: Result<(), DecoderError>)
        ensures
            match r {
                Ok(_) => old(self).quarantined == 0 && old(self).live < MAX_OWNERS && *final(self)
                    == (OwnerBudget { live: (old(self).live + 1) as usize, quarantined: 0 }),
                Err(DecoderError::QuarantinePresent) => old(self).quarantined != 0 && *final(self)
                    == *old(self),
                Err(DecoderError::OwnerLimit) => old(self).quarantined == 0 && old(self).live
                    >= MAX_OWNERS && *final(self) == *old(self),
                Err(_) => false,
            },
    {
        if self.quarantined != 0 {
            return Err(DecoderError::QuarantinePresent);
        }
        if self.live >= MAX_OWNERS {
            return Err(DecoderError::OwnerLimit);
        }
        self.live = self.live + 1;
        Ok(())
    }
}

/// Every accepted unit stays accounted for: whatever happens, it is pushed,
/// cancelled or still reserved. Closing counts on the worker having no unit in hand.
pub proof fn lemma_units_are_accounted(
    state: SharedView,
    unit: AccessUnit,
    event: Event,
    error: DecoderError,
    bytes: usize,
    success: bool,
    spent: Option<u64>,
    queued: Option<u64>,
    frame: bool,
    eos: bool,
    now: u64,
)
    requires
        state.wf(),
        state.accounted(),
    ensures
        state.refusal(unit) is None && state.stats.accepted_units < u64::MAX ==> state.accepting(
            unit,
        ).accounted(),
        state.posted(event).accounted(),
        state.failing(error).accounted(),
        state.after_next().accounted(),
        state.reserved_units > 0 ==> state.after_submission(
            bytes,
            success,
            spent,
            queued,
            now,
        ).accounted(),
        state.after_output(frame, eos, now).accounted(),
        state.quarantining().accounted(),
        state.packets.len() == state.reserved_units ==> state.closing_down().accounted(),
{
}

/// Accepted units reach the codec in the order in which they were accepted.
pub proof fn lemma_units_keep_their_order(state: SharedView, unit: AccessUnit, now: u64)
    requires
        !state.stopping(),
        state.events.len() == 0,
        state.inputs.len() > 0,
        state.packets.len() > 0,
    ensures
        state.accepting(unit).next_unit(now) == state.next_unit(now),
        state.accepting(unit).after_next().packets == state.after_next().packets.push(unit),
{
    assert(state.packets.push(unit).skip(1) =~= state.packets.skip(1).push(unit));
}

/// The first failure stands, and from then on the worker only stops and every unit
/// is refused with that failure, unless the decoder is closed already.
pub proof fn lemma_failure_is_final(
    state: SharedView,
    error: DecoderError,
    later: DecoderError,
    unit: AccessUnit,
    event: Event,
)
    requires
        state.stats.failure is None,
    ensures
        state.failing(error).stats.failure == Some(error),
        state.failing(error).failing(later) == state.failing(error),
        state.failing(error).stopping(),
        state.failing(error).posted(event) == state.failing(error),
        !state.closing && !state.stats.closed ==> state.failing(error).refusal(unit) == Some(error),
{
}

/// A callback about an output is served even while no input buffer is free.
pub proof fn lemma_outputs_are_served_first(state: SharedView, event: Event)
    requires
        !state.stopping(),
        !state.stats.closed,
        state.events.len() == 0,
        !state.posted(event).stopping(),
    ensures
        state.posted(event).events == seq![event],
        !state.posted(event).idle(),
        state.posted(event).after_next().packets == state.packets,
        state.posted(event).after_next().events == state.events,
{
    assert(state.events.push(event) =~= seq![event]);
    assert(seq![event].skip(1) =~= state.events);
}

} // verus!
