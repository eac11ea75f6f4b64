//! What the worker of a hardware decoder decides about the replies of the native
//! codec: how far opening it got, what is written to a buffer, what an output is,
//! and with which result the worker ends.
use vstd::prelude::*;
use crate::platform::ohos_decoder;
use crate::platform::ohos_decoder::{
    AccessUnit, AccessUnitKind, DecoderConfig, DecoderError, DecoderStats, FLAG_CODEC_DATA,
    FLAG_END_OF_STREAM, FLAG_SYNC_FRAME, RejectedSubmission, Shared, VideoCodec, output_flags,
};

verus! {

/// The media type of a codec.
pub open spec fn mime_of(codec: VideoCodec) -> Seq<char> {
    match codec {
        VideoCodec::H264 => "video/avc"@,
        VideoCodec::H265 => "video/hevc"@,
    }
}

/// The media type of a codec.
pub fn mime_type(codec: VideoCodec) -> (r: &'static str)
    ensures
        r@ == mime_of(codec),
{
    match codec {
        VideoCodec::H264 => "video/avc",
        VideoCodec::H265 => "video/hevc",
    }
}

/// A native call that returns zero where it succeeds.
pub open spec fn checked(api: &'static str, code: i32) -> Result<(), DecoderError> {
    if code == 0 {
        Ok(())
    } else {
        Err(DecoderError::Native { api, code })
    }
}

/// The result of a native call that returned `code`.
pub fn check(api: &'static str, code: i32) -> (r: Result<(), DecoderError>)
    ensures
        r == checked(api, code),
{
    if code == 0 {
        Ok(())
    } else {
        Err(DecoderError::Native { api, code })
    }
}

/// The native calls that open a decoder, in their order.
#[derive(Debug, Clone, Copy, PartialEq, Eq, Structural)]
pub enum SetupStage {
    Capability,
    Name,
    Create,
    Window,
    RegisterCallback,
    CreateFormat,
    LowLatency,
    Configure,
    SetSurface,
    Prepare,
    Start,
    Ready,
}

/// What a native call of the opening replied. Parts that a call does not have are
/// left at their neutral values.
#[derive(Debug, Clone, Copy, PartialEq, Eq, Structural)]
pub struct SetupReply {
    /// Zero for success.
    pub code: i32,
    /// Whether the call returned a null handle.
    pub null: bool,
    /// Whether the capability is one of hardware, the name is not empty, or the
    /// value was taken.
    pub accepted: bool,
}

/// A handle that must not be null.
pub open spec fn handle(
    api: &'static str,
    null: bool,
    next: SetupStage,
) -> Result<SetupStage, DecoderError> {
    if null {
        Err(DecoderError::NativeReturnedNull { api })
    } else {
        Ok(next)
    }
}

/// A return code that must be zero.
pub open spec fn passed(
    api: &'static str,
    code: i32,
    next: SetupStage,
) -> Result<SetupStage, DecoderError> {
    if code == 0 {
        Ok(next)
    } else {
        Err(DecoderError::Native { api, code })
    }
}

/// The stage after `stage` for a reply, or why the opening fails there.
pub open spec fn after_stage(stage: SetupStage, reply: SetupReply) -> Result<
    SetupStage,
    DecoderError,
> {
    match stage {
        SetupStage::Capability => if reply.null || !reply.accepted {
            Err(DecoderError::NoHardwareDecoder)
        } else {
            Ok(SetupStage::Name)
        },
        SetupStage::Name => if reply.null {
            Err(DecoderError::NativeReturnedNull { api: "OH_AVCapability_GetName" })
        } else if !reply.accepted {
            Err(DecoderError::NoHardwareDecoder)
        } else {
            Ok(SetupStage::Create)
        },
        SetupStage::Create => handle(
            "OH_VideoDecoder_CreateByName",
            reply.null,
            SetupStage::Window,
        ),
        SetupStage::Window => if reply.code != 0 {
            Err(
                DecoderError::Native {
                    api: "OH_NativeWindow_CreateNativeWindowFromSurfaceId",
                    code: reply.code,
                },
            )
        } else {
            handle(
                "OH_NativeWindow_CreateNativeWindowFromSurfaceId",
                reply.null,
                SetupStage::RegisterCallback,
            )
        },
        SetupStage::RegisterCallback => passed(
            "OH_VideoDecoder_RegisterCallback",
            reply.code,
            SetupStage::CreateFormat,
        ),
        SetupStage::CreateFormat => handle(
            "OH_AVFormat_CreateVideoFormat",
            reply.null,
            SetupStage::LowLatency,
        ),
        SetupStage::LowLatency => if reply.accepted {
            Ok(SetupStage::Configure)
        } else {
            Err(
                DecoderError::Native { api: "OH_AVFormat_SetIntValue(low_latency)", code: (-1) as i32 },
            )
        },
        SetupStage::Configure => passed(
            "OH_VideoDecoder_Configure",
            reply.code,
            SetupStage::SetSurface,
        ),
        SetupStage::SetSurface => passed(
            "OH_VideoDecoder_SetSurface",
            reply.code,
            SetupStage::Prepare,
        ),
        SetupStage::Prepare => passed("OH_VideoDecoder_Prepare", reply.code, SetupStage::Start),
        SetupStage::Start => passed("OH_VideoDecoder_Start", reply.code, SetupStage::Ready),
        SetupStage::Ready => Ok(SetupStage::Ready),
    }
}

fn take_handle(api: &'static str, null: bool, next: SetupStage) -> (r: Result<
    SetupStage,
    DecoderError,
>)
    ensures
        r == handle(api, null, next),
{
    if null {
        Err(DecoderError::NativeReturnedNull { api })
    } else {
        Ok(next)
    }
}

fn pass(api: &'static str, code: i32, next: SetupStage) -> (r: Result<SetupStage, DecoderError>)
    ensures
        r == passed(api, code, next),
{
    match check(api, code) {
        Ok(_) => Ok(next),
        Err(error) => Err(error),
    }
}

/// The next native call of the opening, or why the opening fails. The calls run in
/// their order from the capability until [`SetupStage::Ready`].
pub fn setup(stage: SetupStage, reply: SetupReply) -> (r: Result<SetupStage, DecoderError>)
    ensures
        r == after_stage(stage, reply),
{
    match stage {
        SetupStage::Capability => {
            if reply.null || !reply.accepted {
                Err(DecoderError::NoHardwareDecoder)
            } else {
                Ok(SetupStage::Name)
            }
        },
        SetupStage::Name => {
            if reply.null {
                Err(DecoderError::NativeReturnedNull { api: "OH_AVCapability_GetName" })
            } else if !reply.accepted {
                Err(DecoderError::NoHardwareDecoder)
            } else {
                Ok(SetupStage::Create)
            }
        },
        SetupStage::Create => take_handle(
            "OH_VideoDecoder_CreateByName",
            reply.null,
            SetupStage::Window,
        ),
        SetupStage::Window => {
            match check("OH_NativeWindow_CreateNativeWindowFromSurfaceId", reply.code) {
                Err(error) => Err(error),
                Ok(_) => take_handle(
                    "OH_NativeWindow_CreateNativeWindowFromSurfaceId",
                    reply.null,
                    SetupStage::RegisterCallback,
                ),
            }
        },
        SetupStage::RegisterCallback => pass(
            "OH_VideoDecoder_RegisterCallback",
            reply.code,
            SetupStage::CreateFormat,
        ),
        SetupStage::CreateFormat => take_handle(
            "OH_AVFormat_CreateVideoFormat",
            reply.null,
            SetupStage::LowLatency,
        ),
        SetupStage::LowLatency => {
            if reply.accepted {
                Ok(SetupStage::Configure)
            } else {
                Err(
                    DecoderError::Native { api: "OH_AVFormat_SetIntValue(low_latency)", code: -1 },
                )
            }
        },
        SetupStage::Configure => pass(
            "OH_VideoDecoder_Configure",
            reply.code,
            SetupStage::SetSurface,
        ),
        SetupStage::SetSurface => pass(
            "OH_VideoDecoder_SetSurface",
            reply.code,
            SetupStage::Prepare,
        ),
        SetupStage::Prepare => pass("OH_VideoDecoder_Prepare", reply.code, SetupStage::Start),
        SetupStage::Start => pass("OH_VideoDecoder_Start", reply.code, SetupStage::Ready),
        SetupStage::Ready => Ok(SetupStage::Ready),
    }
}

/// What the last native calls replied when a decoder is taken down.
#[derive(Debug, Clone, Copy, PartialEq, Eq, Structural)]
pub struct TeardownReply {
    /// What stopping the codec returned, where it had been started.
    pub stopped: Option<i32>,
    /// What destroying the codec returned, where one had been created.
    pub destroyed: Option<i32>,
}

impl TeardownReply {
    /// Whether the native object is still there and has to be kept.
    pub open spec fn keeps_native(self) -> bool {
        self.destroyed matches Some(code) && code != 0
    }

    /// The result: a failed destruction counts before a failed stop.
    pub open spec fn outcome(self) -> Result<(), DecoderError> {
        match self.destroyed {
            Some(code) if code != 0 => Err(DecoderError::DestroyFailed { code }),
            _ => match self.stopped {
                Some(code) => checked("OH_VideoDecoder_Stop", code),
                None => Ok(()),
            },
        }
    }
}

/// Whether the native object has to be quarantined, and the result of taking the
/// decoder down.
pub fn shutdown(reply: TeardownReply) -> (r: (bool, Result<(), DecoderError>))
    ensures
        r.0 == reply.keeps_native(),
        r.1 == reply.outcome(),
{
    let stop = match reply.stopped {
        Some(code) => check("OH_VideoDecoder_Stop", code),
        None => Ok(()),
    };
    match reply.destroyed {
        Some(code) => {
            if code != 0 {
                (true, Err(DecoderError::DestroyFailed { code }))
            } else {
                (false, stop)
            }
        },
        None => (false, stop),
    }
}

/// The attributes of a filled input buffer.
#[derive(Debug, Clone, Copy, PartialEq, Eq, Structural)]
pub struct InputAttributes {
    pub pts: i64,
    pub size: i32,
    pub offset: i32,
    pub flags: u32,
}

/// The flags of a unit.
pub open spec fn unit_flags(kind: AccessUnitKind) -> u32 {
    match kind {
        AccessUnitKind::EndOfStream => FLAG_END_OF_STREAM,
        AccessUnitKind::CodecConfig => FLAG_CODEC_DATA,
        AccessUnitKind::Frame { key } => if key {
            FLAG_SYNC_FRAME
        } else {
            0
        },
    }
}

/// The attributes with which `unit` is handed to the input buffer at `address`. The
/// buffer holds `capacity` bytes and its memory is missing where `unmapped` says so;
/// both are asked only for a unit that has bytes.
pub fn input_attributes(
    address: usize,
    capacity: i32,
    unmapped: bool,
    unit: &AccessUnit,
) -> (r: Result<InputAttributes, DecoderError>)
    ensures
        match r {
            Ok(attributes) => {
                &&& address != 0
                &&& unit.bytes@.len() > 0 ==> unit.bytes@.len() <= capacity && !unmapped
                &&& attributes == (InputAttributes {
                    pts: unit.pts_us,
                    size: unit.bytes@.len() as i32,
                    offset: 0,
                    flags: unit_flags(unit.kind),
                })
            },
            Err(DecoderError::InvalidNativeBuffer) => address == 0 || (unit.bytes@.len() > 0
                && unit.bytes@.len() <= capacity && unmapped),
            Err(DecoderError::InputTooLarge { size, capacity: c }) => {
                &&& address != 0
                &&& unit.bytes@.len() > 0
                &&& unit.bytes@.len() > capacity
                &&& size == unit.bytes@.len()
                &&& c == capacity
            },
            Err(_) => false,
        },
{
    if address == 0 {
        return Err(DecoderError::InvalidNativeBuffer);
    }
    let size: usize = unit.bytes.len();
    if size > 0 {
        if capacity < 0 || size > capacity as usize {
            return Err(DecoderError::InputTooLarge { size, capacity });
        }
        if unmapped {
            return Err(DecoderError::InvalidNativeBuffer);
        }
    }
    let flags: u32 = match unit.kind {
        AccessUnitKind::EndOfStream => FLAG_END_OF_STREAM,
        AccessUnitKind::CodecConfig => FLAG_CODEC_DATA,
        AccessUnitKind::Frame { key } => {
            if key {
                FLAG_SYNC_FRAME
            } else {
                0
            }
        },
    };
    Ok(InputAttributes { pts: unit.pts_us, size: size as i32, offset: 0, flags })
}

/// Whether an output is a frame and whether the stream ends with it, from what the
/// native codec says of the buffer at `address`.
pub fn output_kind(address: usize, code: i32, size: i32, offset: i32, flags: u32) -> (r: Result<
    (bool, bool),
    DecoderError,
>)
    ensures
        match r {
            Ok(kind) => {
                &&& address != 0 && code == 0 && size >= 0 && offset >= 0
                &&& kind.0 == (flags % 2 == 0 && flags / 8 % 2 == 0 && flags / 16 % 2 == 0)
                &&& kind.1 == (flags % 2 == 1)
            },
            Err(error) => if address != 0 && code != 0 {
                error == (DecoderError::Native { api: "OH_AVBuffer_GetBufferAttr", code })
            } else {
                (address == 0 || size < 0 || offset < 0) && error
                    == DecoderError::InvalidNativeBuffer
            },
        },
{
    if address == 0 {
        return Err(DecoderError::InvalidNativeBuffer);
    }
    match check("OH_AVBuffer_GetBufferAttr", code) {
        Err(error) => {
            return Err(error);
        },
        Ok(_) => {},
    }
    if size < 0 || offset < 0 {
        return Err(DecoderError::InvalidNativeBuffer);
    }
    Ok(output_flags(flags))
}

/// Seconds and nanoseconds as nanoseconds, where they fit.
pub open spec fn nanoseconds(seconds: i64, nanos: i64) -> Option<int> {
    let whole = seconds * 1_000_000_000;
    if whole < i64::MIN || whole > i64::MAX || whole + nanos < i64::MIN || whole + nanos
        > i64::MAX {
        None
    } else {
        Some(whole + nanos)
    }
}

/// The reading of the monotonic clock in nanoseconds.
pub fn monotonic_time_ns(code: i32, seconds: i64, nanos: i64) -> (r: Result<i64, DecoderError>)
    ensures
        match r {
            Ok(time) => code == 0 && nanoseconds(seconds, nanos) == Some(time as int),
            Err(error) => {
                &&& code != 0 || nanoseconds(seconds, nanos) is None
                &&& error == (DecoderError::Native {
                    api: "clock_gettime(CLOCK_MONOTONIC)",
                    code: if code != 0 {
                        code
                    } else {
                        (-1) as i32
                    },
                })
            },
        },
{
    match check("clock_gettime(CLOCK_MONOTONIC)", code) {
        Err(error) => {
            return Err(error);
        },
        Ok(_) => {},
    }
    if let Some(whole) = seconds.checked_mul(1_000_000_000) {
        if let Some(time) = whole.checked_add(nanos) {
            return Ok(time);
        }
    }
    Err(DecoderError::Native { api: "clock_gettime(CLOCK_MONOTONIC)", code: -1 })
}

/// Whether a decoder can be opened for a Surface and limits at all.
pub open spec fn openable(surface: u64, config: DecoderConfig) -> bool {
    surface != 0 && ohos_decoder::valid_limits(config)
}

/// What the worker reported when its opening was over.
/// A worker that vanished without a report counts as one that panicked.
pub fn opening_report(report: Option<Result<(), DecoderError>>) -> (r: Result<(), DecoderError>)
    ensures
        r == (match report {
            Some(reported) => reported,
            None => Err(DecoderError::WorkerPanicked),
        }),
{
    match report {
        Some(reported) => reported,
        None => Err(DecoderError::WorkerPanicked),
    }
}

/// A decoder as those see it that watch it: its state, or none on a platform
/// without a native codec.
pub struct DecoderObserver {
    pub shared: Option<Shared>,
}

impl DecoderObserver {
    /// Why the decoder has stopped, if it has.
    pub open spec fn stop_reason(self) -> Option<DecoderError> {
        match self.shared {
            Some(shared) => shared@.stats.stop_reason(),
            None => Some(DecoderError::UnsupportedPlatform),
        }
    }

    /// Why the decoder has stopped; nothing means that it has not, and that the
    /// caller waits for the next change.
    pub fn wait_stopped(&self) -> (r: Option<DecoderError>)
        ensures
            r == self.stop_reason(),
    {
        match &self.shared {
            Some(shared) => shared.stats().stopped(),
            None => Some(DecoderError::UnsupportedPlatform),
        }
    }

    /// The counters.
    pub fn stats(&self) -> (r: Result<DecoderStats, DecoderError>)
        ensures
            r == (match self.shared {
                Some(shared) => Ok(shared@.stats),
                None => Err(DecoderError::UnsupportedPlatform),
            }),
    {
        match &self.shared {
            Some(shared) => Ok(shared.stats()),
            None => Err(DecoderError::UnsupportedPlatform),
        }
    }

    /// Units waiting for a place in the decoder right now.
    pub fn queued_units(&self) -> (r: usize)
        ensures
            r == (match self.shared {
                Some(shared) => shared@.packets.len(),
                None => 0,
            }),
    {
        match &self.shared {
            Some(shared) => shared.queued_units(),
            None => 0,
        }
    }

    /// The decoder is to close.
    pub fn request_close(&mut self)
        ensures
            match (old(self).shared, final(self).shared) {
                (Some(before), Some(after)) => after@ == (ohos_decoder::SharedView { closing: true, ..before@ }),
                (before, after) => before is None && after is None,
            },
    {
        match &mut self.shared {
            Some(shared) => {
                let _ = shared.request_close();
            },
            None => {},
        }
    }
}

/// How a submission that may wait for room went.
#[derive(Debug)]
pub enum Submission {
    Accepted,
    /// There is no room: the unit is tried again after the next change.
    Waiting(AccessUnit),
    Rejected(RejectedSubmission),
}

/// An open decoder.
pub struct SurfaceDecoder {
    pub observer: DecoderObserver,
    pub codec_name: String,
}

impl SurfaceDecoder {
    /// A decoder for a Surface, before its native codec is opened. Without a native
    /// codec on this platform there is none.
    pub fn open(native: bool, config: DecoderConfig, surface: u64) -> (r: Result<
        SurfaceDecoder,
        DecoderError,
    >)
        ensures
            match r {
                Ok(decoder) => {
                    &&& native && openable(surface, config)
                    &&& decoder.observer.shared matches Some(shared)
                    &&& shared@ == ohos_decoder::SharedView::fresh(config) && shared@.wf()
                    &&& decoder.codec_name@ == Seq::<char>::empty()
                },
                Err(error) => if native {
                    !openable(surface, config) && error == DecoderError::InvalidConfig
                } else {
                    error == DecoderError::UnsupportedPlatform
                },
            },
    {
        if !native {
            return Err(DecoderError::UnsupportedPlatform);
        }
        if surface == 0 {
            return Err(DecoderError::InvalidConfig);
        }
        match Shared::new(config) {
            Err(error) => Err(error),
            Ok(shared) => Ok(
                SurfaceDecoder {
                    observer: DecoderObserver { shared: Some(shared) },
                    codec_name: String::new(),
                },
            ),
        }
    }

    /// What those see that watch this decoder.
    pub fn observer(&self) -> (r: &DecoderObserver)
        ensures
            *r == self.observer,
    {
        &self.observer
    }

    /// Hands a unit that arrives at `now` to the decoder, or back to the caller.
    pub fn try_submit(&mut self, unit: AccessUnit, now: u64) -> (r: Result<(), RejectedSubmission>)
        requires
            old(self).observer.shared matches Some(shared) ==> shared@.wf()
                && shared@.stats.accepted_units < u64::MAX,
        ensures
            final(self).codec_name == old(self).codec_name,
            match (old(self).observer.shared, final(self).observer.shared) {
                (Some(before), Some(after)) => {
                    let stamped = AccessUnit { accepted_at: Some(now), dequeued_at: None, ..unit };
                    &&& after@.wf()
                    &&& match r {
                        Ok(_) => before@.refusal(unit) is None && after@ == before@.accepting(
                            stamped,
                        ),
                        Err(rejected) => Some(rejected.reason) == before@.refusal(unit)
                            && rejected.unit == stamped && after@ == before@,
                    }
                },
                (before, after) => before is None && after is None && r == Err::<
                    (),
                    RejectedSubmission,
                >(RejectedSubmission { reason: DecoderError::UnsupportedPlatform, unit }),
            },
    {
        match &mut self.observer.shared {
            Some(shared) => shared.submit(unit, now),
            None => Err(RejectedSubmission { reason: DecoderError::UnsupportedPlatform, unit }),
        }
    }

    /// Hands a unit to the decoder, and waits where only room is missing. Once the
    /// wait is cancelled the unit is refused as if the decoder were closed.
    pub fn submit_cancellable(&mut self, unit: AccessUnit, cancelled: bool, now: u64) -> (r:
        Submission)
        requires
            old(self).observer.shared matches Some(shared) ==> shared@.wf()
                && shared@.stats.accepted_units < u64::MAX,
        ensures
            final(self).codec_name == old(self).codec_name,
            match (old(self).observer.shared, final(self).observer.shared) {
                (Some(before), Some(after)) => {
                    let stamped = AccessUnit { accepted_at: Some(now), dequeued_at: None, ..unit };
                    &&& after@.wf()
                    &&& match r {
                        Submission::Accepted => !cancelled && before@.refusal(unit) is None
                            && after@ == before@.accepting(stamped),
                        Submission::Waiting(kept) => !cancelled && before@.refusal(unit) == Some(
                            DecoderError::Backpressure,
                        ) && kept == stamped && after@ == before@,
                        Submission::Rejected(rejected) => {
                            &&& after@ == before@
                            &&& if cancelled {
                                rejected == (RejectedSubmission {
                                    reason: DecoderError::Closed,
                                    unit,
                                })
                            } else {
                                &&& rejected.reason != DecoderError::Backpressure
                                &&& Some(rejected.reason) == before@.refusal(unit)
                                &&& rejected.unit == stamped
                            }
                        },
                    }
                },
                (before, after) => before is None && after is None && r == Submission::Rejected(
                    RejectedSubmission { reason: DecoderError::UnsupportedPlatform, unit },
                ),
            },
    {
        if self.observer.shared.is_none() {
            return Submission::Rejected(
                RejectedSubmission { reason: DecoderError::UnsupportedPlatform, unit },
            );
        }
        if cancelled {
            return Submission::Rejected(
                RejectedSubmission { reason: DecoderError::Closed, unit },
            );
        }
        match self.try_submit(unit, now) {
            Ok(_) => Submission::Accepted,
            Err(rejected) => match rejected.reason {
                DecoderError::Backpressure => Submission::Waiting(rejected.unit),
                _ => Submission::Rejected(rejected),
            },
        }
    }

    /// The name of the native codec.
    pub fn codec_name(&self) -> (r: Result<&str, DecoderError>)
        ensures
            match r {
                Ok(name) => self.observer.shared is Some && name@ == self.codec_name@,
                Err(error) => self.observer.shared is None && error
                    == DecoderError::UnsupportedPlatform,
            },
    {
        match &self.observer.shared {
            Some(_) => Ok(self.codec_name.as_str()),
            None => Err(DecoderError::UnsupportedPlatform),
        }
    }

    /// The counters.
    pub fn stats(&self) -> (r: Result<DecoderStats, DecoderError>)
        ensures
            r == (match self.observer.shared {
                Some(shared) => Ok(shared@.stats),
                None => Err(DecoderError::UnsupportedPlatform),
            }),
    {
        self.observer.stats()
    }

    /// The decoder is to close.
    pub fn request_close(&mut self)
        ensures
            final(self).codec_name == old(self).codec_name,
            match (old(self).observer.shared, final(self).observer.shared) {
                (Some(before), Some(after)) => after@ == (ohos_decoder::SharedView { closing: true, ..before@ }),
                (before, after) => before is None && after is None,
            },
    {
        self.observer.request_close();
    }

    /// The result of a closed decoder: that of its worker, a panic where the worker
    /// ended without one, or its counters where it had been joined before.
    pub fn close(
        &self,
        joined: bool,
        worker: Option<Result<DecoderStats, DecoderError>>,
    ) -> (r: Result<DecoderStats, DecoderError>)
        ensures
            r == (match self.observer.shared {
                None => Err(DecoderError::UnsupportedPlatform),
                Some(shared) => if joined {
                    Ok(shared@.stats)
                } else {
                    match worker {
                        Some(result) => result,
                        None => Err(DecoderError::WorkerPanicked),
                    }
                },
            }),
    {
        match &self.observer.shared {
            None => Err(DecoderError::UnsupportedPlatform),
            Some(shared) => {
                if joined {
                    Ok(shared.stats())
                } else {
                    match worker {
                        Some(result) => result,
                        None => Err(DecoderError::WorkerPanicked),
                    }
                }
            },
        }
    }
}

/// The result of the opening: a failure that callbacks reported meanwhile counts,
/// even where every native call succeeded.
pub fn initialized(opened: Result<(), DecoderError>, stats: &DecoderStats) -> (r: Result<
    (),
    DecoderError,
>)
    ensures
        r == (match opened {
            Err(error) => Err(error),
            Ok(_) => match stats.failure {
                Some(error) => Err(error),
                None => Ok(()),
            },
        }),
{
    match opened {
        Err(error) => Err(error),
        Ok(_) => match stats.failure {
            Some(error) => Err(error),
            None => Ok(()),
        },
    }
}

/// The error of a worker that could not open its decoder: that of taking it down
/// again, or else the one that stopped the opening.
pub fn opening_error(error: DecoderError, teardown: Result<(), DecoderError>) -> (r: DecoderError)
    ensures
        r == (match teardown {
            Err(later) => later,
            Ok(_) => error,
        }),
{
    match teardown {
        Err(later) => later,
        Ok(_) => error,
    }
}

/// The result of a worker that ran: the error of taking the decoder down, or else
/// the failure that stopped it, or else its counters.
pub fn worker_result(teardown: Result<(), DecoderError>, stats: DecoderStats) -> (r: Result<
    DecoderStats,
    DecoderError,
>)
    ensures
        r == (match teardown {
            Err(error) => Err(error),
            Ok(_) => match stats.failure {
                Some(error) => Err(error),
                None => Ok(stats),
            },
        }),
        r is Ok <==> teardown is Ok && stats.failure is None,
        r matches Ok(kept) ==> kept == stats,
{
    match teardown {
        Err(error) => Err(error),
        Ok(_) => match stats.failure {
            Some(error) => Err(error),
            None => Ok(stats),
        },
    }
}

/// The stage after all of `replies`, or why the opening failed.
pub open spec fn after_replies(replies: Seq<SetupReply>) -> Result<SetupStage, DecoderError>
    decreases replies.len(),
{
    if replies.len() == 0 {
        Ok(SetupStage::Capability)
    } else {
        match after_replies(replies.drop_last()) {
            Ok(stage) => after_stage(stage, replies.last()),
            Err(error) => Err(error),
        }
    }
}

/// How many calls the opening has behind it at a stage.
pub open spec fn rank(stage: SetupStage) -> nat {
    match stage {
        SetupStage::Capability => 0,
        SetupStage::Name => 1,
        SetupStage::Create => 2,
        SetupStage::Window => 3,
        SetupStage::RegisterCallback => 4,
        SetupStage::CreateFormat => 5,
        SetupStage::LowLatency => 6,
        SetupStage::Configure => 7,
        SetupStage::SetSurface => 8,
        SetupStage::Prepare => 9,
        SetupStage::Start => 10,
        SetupStage::Ready => 11,
    }
}

/// A decoder is ready only after every call of the opening, one reply each, and no
/// call is skipped or repeated on the way.
pub proof fn lemma_opening_skips_nothing(replies: Seq<SetupReply>)
    requires
        replies.len() <= 11,
        after_replies(replies) is Ok,
    ensures
        rank(after_replies(replies)->Ok_0) == replies.len(),
        after_replies(replies)->Ok_0 is Ready <==> replies.len() == 11,
    decreases replies.len(),
{
    if replies.len() > 0 {
        lemma_opening_skips_nothing(replies.drop_last());
    }
}

} // verus!
