//! The way of the picture into the decoder, and the end of a session.
use vstd::prelude::*;
use crate::message::EncodedFrame;
use crate::platform::ohos_decoder;
use crate::platform::ohos_decoder::{
    AccessUnit, AccessUnitKind, DecoderConfig, DecoderError, DecoderStats, VideoCodec,
};
use crate::platform::ohos_worker;
use crate::platform::ohos_worker::{Submission, SurfaceDecoder};
use crate::viewer;
use crate::viewer::receive::{VIDEO_BYTES, VideoRecord};
use crate::viewer::{Geometry, Viewer, ViewerError};

verus! {

/// What a decoder was opened for. A record of another codec or display needs another
/// decoder.
#[derive(Debug, Clone, Copy, PartialEq, Eq, Structural)]
pub struct Contract {
    pub codec: VideoCodec,
    pub geometry: Geometry,
}

/// What feeding does next.
#[derive(Debug)]
pub enum FeedStep {
    /// Waits for a record.
    WaitRecord,
    /// Closes the decoder that is there, if one is.
    Close,
    /// Opens a decoder.
    Open(DecoderConfig),
    /// Goes on with the next frame.
    Next,
    /// Waits until the decoder has room.
    WaitRoom,
    /// Is over.
    Done(Result<(), ViewerError>),
}

/// The record that is being fed, the frame that comes next, and the unit that waits
/// for room.
pub struct Feeder {
    pub contract: Option<Contract>,
    pub record: Option<VideoRecord>,
    pub at: usize,
    pub waiting: Option<AccessUnit>,
}

/// Whether native resources may still be held after an attempt to open a decoder
/// that failed with `error`.
pub open spec fn leaves_native(error: DecoderError) -> bool {
    error is DestroyFailed || error is WorkerPanicked
}

/// The counters of a decoder that is being closed, where it has any.
pub open spec fn closed_stats(v: viewer::ViewerView) -> Option<DecoderStats> {
    match v.decoder {
        Some(observer) => match observer.shared {
            Some(shared) => Some(shared@.stats),
            None => None,
        },
        None => None,
    }
}

/// The viewer without its decoder: what that counted is kept, and where its worker
/// ended cleanly its resources are known to be free.
pub open spec fn without_decoder(v: viewer::ViewerView) -> viewer::ViewerView {
    match closed_stats(v) {
        None => viewer::ViewerView { decoder: None, codec_name: None, ..v },
        Some(stats) => viewer::ViewerView {
            decoder: None,
            codec_name: None,
            resources_unconfirmed: v.resources_unconfirmed && !(stats.closed
                && !stats.quarantined),
            snapshot: viewer::ViewerSnapshotView {
                pushed_units: ohos_decoder::saturated(v.snapshot.pushed_units, stats.pushed_units),
                render_submissions: ohos_decoder::saturated(
                    v.snapshot.render_submissions,
                    stats.render_submissions,
                ),
                ..v.snapshot
            },
            ..v
        },
    }
}

/// The result of closing a decoder; nothing stands for a task that panicked.
pub open spec fn close_result(
    closed: Option<Result<DecoderStats, DecoderError>>,
) -> Result<(), ViewerError> {
    match closed {
        None => Err(ViewerError::TaskFailed),
        Some(Ok(_)) => Ok(()),
        Some(Err(error)) => Err(ViewerError::Decoder(error)),
    }
}

/// Takes the decoder of a viewer away, once it was closed with the result `closed`.
pub fn close_decoder(
    viewer: &mut Viewer,
    closed: Option<Result<DecoderStats, DecoderError>>,
) -> (r: Result<(), ViewerError>)
    ensures
        final(viewer)@ == (if old(viewer)@.decoder is Some {
            without_decoder(old(viewer)@)
        } else {
            old(viewer)@
        }),
        r == (if old(viewer)@.decoder is Some {
            close_result(closed)
        } else {
            Ok(())
        }),
{
    let taken = viewer.decoder.take();
    match taken {
        None => Ok(()),
        Some(decoder) => {
            if let Some(shared) = &decoder.observer.shared {
                let stats = shared.stats();
                viewer.count_closed(stats);
            }
            match closed {
                None => Err(ViewerError::TaskFailed),
                Some(Ok(_)) => Ok(()),
                Some(Err(error)) => Err(ViewerError::Decoder(error)),
            }
        },
    }
}

/// Whether `unit` is the access unit of a frame.
pub open spec fn unit_of(unit: AccessUnit, frame: EncodedFrame) -> bool {
    &&& unit.bytes@ == frame.data@
    &&& unit.pts_us == frame.pts * 1000
    &&& unit.kind == (AccessUnitKind::Frame { key: frame.key })
}

/// Whether the time of a frame can be told in microseconds.
pub open spec fn time_fits(frame: EncodedFrame) -> bool {
    i64::MIN <= frame.pts * 1000 <= i64::MAX
}

fn access_unit(frame: &EncodedFrame) -> (r: Result<AccessUnit, ViewerError>)
    ensures
        match r {
            Ok(unit) => time_fits(*frame) && unit_of(unit, *frame),
            Err(error) => !time_fits(*frame) && error == ViewerError::TimestampOverflow,
        },
{
    match frame.pts.checked_mul(1000) {
        None => Err(ViewerError::TimestampOverflow),
        Some(pts_us) => Ok(
            AccessUnit {
                bytes: vstd::slice::slice_to_vec(frame.data.as_slice()),
                pts_us,
                kind: AccessUnitKind::Frame { key: frame.key },
                accepted_at: None,
                dequeued_at: None,
            },
        ),
    }
}

/// The frame whose turn it is, while a record is being fed.
pub open spec fn turn(f: Feeder) -> Option<EncodedFrame> {
    match f.record {
        Some(record) => if f.at < record.frames@.len() {
            Some(record.frames@[f.at as int])
        } else {
            None
        },
        None => None,
    }
}

/// The decoder is ready to be handed units.
pub open spec fn decoder_ready(v: viewer::ViewerView) -> bool {
    v.decoder matches Some(observer) ==> (observer.shared matches Some(shared) ==> shared@.wf()
        && shared@.stats.accepted_units < u64::MAX)
}

/// What happens to the decoder of a viewer when a unit for `frame` is handed to it:
/// it is accepted as the last of the queue, or it is not and nothing changes.
pub open spec fn handed(
    before: ohos_worker::DecoderObserver,
    after: ohos_worker::DecoderObserver,
    frame: EncodedFrame,
    accepted: bool,
) -> bool {
    match (before.shared, after.shared) {
        (Some(old_shared), Some(new_shared)) => if accepted {
            &&& new_shared@.packets.len() == old_shared@.packets.len() + 1
            &&& unit_of(new_shared@.packets.last(), frame)
            &&& old_shared@.refusal(new_shared@.packets.last()) is None
            &&& new_shared@ == old_shared@.accepting(new_shared@.packets.last())
        } else {
            new_shared@ == old_shared@
        },
        (old_shared, new_shared) => old_shared is None && new_shared is None && !accepted,
    }
}

impl Feeder {
    /// Nothing fed yet.
    pub fn new() -> (r: Feeder)
        ensures
            r == (Feeder { contract: None, record: None, at: 0, waiting: None }),
    {
        Feeder { contract: None, record: None, at: 0, waiting: None }
    }

    /// Whether a unit that waits is the one of the frame whose turn it is.
    pub open spec fn wf(self) -> bool {
        self.waiting matches Some(unit) ==> (turn(self) matches Some(frame) && unit_of(
            unit,
            frame,
        ))
    }

    /// What a stopped decoder means for a session that is not being cancelled.
    pub fn on_stopped(&self, reason: DecoderError) -> (r: FeedStep)
        ensures
            r == FeedStep::Done(Err::<(), ViewerError>(ViewerError::Decoder(reason))),
    {
        FeedStep::Done(Err(ViewerError::Decoder(reason)))
    }

    /// A record came in. One of another codec or display than the decoder was opened
    /// for needs a new decoder.
    pub fn on_record(&mut self, record: VideoRecord) -> (r: FeedStep)
        ensures
            ({
                let next = Contract { codec: record.codec, geometry: record.geometry };
                &&& *final(self) == (Feeder {
                    contract: old(self).contract,
                    record: Some(record),
                    at: 0,
                    waiting: None,
                })
                &&& r == (if old(self).contract == Some(next) {
                    FeedStep::Next
                } else {
                    FeedStep::Close
                })
            }),
    {
        let next = Contract { codec: record.codec, geometry: record.geometry };
        self.record = Some(record);
        self.at = 0;
        self.waiting = None;
        match self.contract {
            Some(contract) => {
                if contract == next {
                    FeedStep::Next
                } else {
                    FeedStep::Close
                }
            },
            None => FeedStep::Close,
        }
    }

    /// The decoder that was there is closed with the result `closed`. A new one is
    /// opened for the record, unless closing failed or the session is to end.
    pub fn on_closed(
        &mut self,
        viewer: &mut Viewer,
        closed: Option<Result<DecoderStats, DecoderError>>,
    ) -> (r: FeedStep)
        requires
            old(self).record is Some,
        ensures
            ({
                let before = old(viewer)@;
                let bare = if before.decoder is Some {
                    without_decoder(before)
                } else {
                    before
                };
                let result = if before.decoder is Some {
                    close_result(closed)
                } else {
                    Ok(())
                };
                let record = old(self).record->0;
                &&& *final(self) == *old(self)
                &&& if result is Err || before.cancelled {
                    &&& final(viewer)@ == bare
                    &&& r == FeedStep::Done(result)
                } else {
                    &&& final(viewer)@ == (viewer::ViewerView {
                        resources_unconfirmed: true,
                        ..bare.in_phase("opening_decoder"@)
                    })
                    &&& r == FeedStep::Open(
                        DecoderConfig {
                            codec: record.codec,
                            width: record.geometry.width,
                            height: record.geometry.height,
                            frame_rate: before.requested_fps,
                            max_queued_units: 2,
                            max_queued_bytes: VIDEO_BYTES,
                        },
                    )
                }
            }),
    {
        match close_decoder(viewer, closed) {
            Err(error) => {
                return FeedStep::Done(Err(error));
            },
            Ok(_) => {},
        }
        if viewer.cancelled {
            return FeedStep::Done(Ok(()));
        }
        viewer.phase("opening_decoder");
        viewer.holds_native(true);
        match &self.record {
            None => FeedStep::WaitRecord,
            Some(record) => FeedStep::Open(
                DecoderConfig {
                    codec: record.codec,
                    width: record.geometry.width,
                    height: record.geometry.height,
                    frame_rate: viewer.requested_fps,
                    max_queued_units: 2,
                    max_queued_bytes: VIDEO_BYTES,
                },
            ),
        }
    }

    /// A decoder was opened for the record, or could not be; nothing stands for a
    /// task that panicked. Only a failed destruction or a panic leaves it open
    /// whether native resources are held.
    pub fn on_opened(
        &mut self,
        viewer: &mut Viewer,
        opened: Option<Result<SurfaceDecoder, DecoderError>>,
    ) -> (r: FeedStep)
        requires
            old(self).record is Some,
        ensures
            ({
                let record = old(self).record->0;
                match opened {
                    None => {
                        &&& r == FeedStep::Done(Err::<(), ViewerError>(ViewerError::TaskFailed))
                        &&& final(viewer)@ == old(viewer)@
                        &&& *final(self) == *old(self)
                    },
                    Some(Err(error)) => {
                        &&& r == FeedStep::Done(
                            Err::<(), ViewerError>(ViewerError::Decoder(error)),
                        )
                        &&& final(viewer)@ == (viewer::ViewerView {
                            resources_unconfirmed: old(viewer)@.resources_unconfirmed
                                && leaves_native(error),
                            ..old(viewer)@
                        })
                        &&& *final(self) == *old(self)
                    },
                    Some(Ok(decoder)) => {
                        &&& r == FeedStep::Next
                        &&& final(viewer)@ == old(viewer)@.decoding(
                            decoder,
                            record.geometry,
                            record.codec,
                        )
                        &&& *final(self) == (Feeder {
                            contract: Some(
                                Contract { codec: record.codec, geometry: record.geometry },
                            ),
                            ..*old(self)
                        })
                    },
                }
            }),
    {
        match opened {
            None => FeedStep::Done(Err(ViewerError::TaskFailed)),
            Some(Err(error)) => {
                match error {
                    DecoderError::DestroyFailed { .. } => {},
                    DecoderError::WorkerPanicked => {},
                    _ => {
                        viewer.holds_native(false);
                    },
                }
                FeedStep::Done(Err(ViewerError::Decoder(error)))
            },
            Some(Ok(decoder)) => {
                match &self.record {
                    None => {},
                    Some(record) => {
                        let contract = Contract { codec: record.codec, geometry: record.geometry };
                        viewer.start_decoding(decoder, contract.geometry, contract.codec);
                        self.contract = Some(contract);
                    },
                }
                FeedStep::Next
            },
        }
    }

    /// Hands the frame whose turn it is to the decoder at `now`. Where there is no
    /// room, the same unit is tried again after the next change.
    pub fn feed(&mut self, viewer: &mut Viewer, now: u64) -> (r: FeedStep)
        requires
            old(self).wf(),
            decoder_ready(old(viewer)@),
        ensures
            final(self).wf(),
            final(self).contract == old(self).contract,
            match turn(*old(self)) {
                None => {
                    &&& r is WaitRecord
                    &&& final(viewer)@ == old(viewer)@
                    &&& final(self).record is None
                },
                Some(frame) => if old(viewer).cancelled {
                    &&& r == FeedStep::Done(Ok::<(), ViewerError>(()))
                    &&& final(viewer)@ == old(viewer)@
                } else if old(viewer)@.decoder is None {
                    &&& r == FeedStep::Done(Err::<(), ViewerError>(ViewerError::Closed))
                    &&& final(viewer)@ == old(viewer)@
                } else if !time_fits(frame) {
                    &&& r == FeedStep::Done(Err::<(), ViewerError>(ViewerError::TimestampOverflow))
                    &&& final(viewer)@ == old(viewer)@
                } else {
                    let before = old(viewer)@.decoder->0;
                    let after = final(viewer)@.decoder->0;
                    &&& final(viewer)@.decoder is Some
                    &&& final(viewer)@ == (viewer::ViewerView {
                        decoder: Some(after),
                        ..old(viewer)@
                    })
                    &&& handed(before, after, frame, r is Next)
                    &&& match r {
                        FeedStep::Next => final(self).at == old(self).at + 1
                            && final(self).waiting is None && final(self).record
                            == old(self).record,
                        FeedStep::WaitRoom => before.shared is Some && final(self).waiting is Some
                            && final(self).at == old(self).at && final(self).record
                            == old(self).record && before.shared->0@.refusal(
                            final(self).waiting->0,
                        ) == Some(DecoderError::Backpressure),
                        FeedStep::Done(Err(ViewerError::Decoder(reason))) => reason
                            != DecoderError::Backpressure && if before.shared is None {
                            reason == DecoderError::UnsupportedPlatform
                        } else {
                            forall|unit: AccessUnit| #[trigger]
                                unit_of(unit, frame) ==> before.shared->0@.refusal(unit) == Some(
                                    reason,
                                )
                        },
                        _ => false,
                    }
                },
            },
    {
        let more = match &self.record {
            Some(record) => self.at < record.frames.len(),
            None => false,
        };
        if !more {
            self.record = None;
            self.waiting = None;
            return FeedStep::WaitRecord;
        }
        if viewer.cancelled {
            return FeedStep::Done(Ok(()));
        }
        if viewer.decoder.is_none() {
            return FeedStep::Done(Err(ViewerError::Closed));
        }
        let ghost frame = turn(*self)->0;
        let waiting = self.waiting.take();
        let unit = match waiting {
            Some(unit) => unit,
            None => {
                let made = match &self.record {
                    Some(record) => access_unit(&record.frames[self.at]),
                    None => Err(ViewerError::Closed),
                };
                match made {
                    Ok(unit) => unit,
                    Err(error) => {
                        return FeedStep::Done(Err(error));
                    },
                }
            },
        };
        assert(unit_of(unit, frame));
        match viewer.submit(unit, now) {
            Submission::Accepted => {
                self.at = self.at + 1;
                FeedStep::Next
            },
            Submission::Waiting(unit) => {
                self.waiting = Some(unit);
                FeedStep::WaitRoom
            },
            Submission::Rejected(rejected) => FeedStep::Done(
                Err(ViewerError::Decoder(rejected.reason)),
            ),
        }
    }
}

/// The result of a session after one more of its tasks ended; nothing stands for a
/// task that panicked. The first error stands, but a decoder that could not be
/// destroyed counts before every other.
pub open spec fn merged(
    result: Result<(), ViewerError>,
    joined: Option<Result<(), ViewerError>>,
) -> Result<(), ViewerError> {
    let next = match joined {
        Some(next) => next,
        None => Err(ViewerError::TaskFailed),
    };
    match next {
        Ok(_) => result,
        Err(error) => if result is Ok || (error matches ViewerError::Decoder(reason) && reason
            is DestroyFailed) {
            Err(error)
        } else {
            result
        },
    }
}

/// The result of a session after one more of its tasks ended.
pub fn merge_result(
    result: Result<(), ViewerError>,
    joined: Option<Result<(), ViewerError>>,
) -> (r: Result<(), ViewerError>)
    ensures
        r == merged(result, joined),
{
    let next = match joined {
        Some(next) => next,
        None => Err(ViewerError::TaskFailed),
    };
    match next {
        Ok(_) => result,
        Err(error) => {
            let destroy = match &error {
                ViewerError::Decoder(reason) => match reason {
                    DecoderError::DestroyFailed { .. } => true,
                    _ => false,
                },
                _ => false,
            };
            if result.is_ok() || destroy {
                Err(error)
            } else {
                result
            }
        },
    }
}

/// The first result of a session: that of the task that ended first, unless the
/// session was cancelled before any did.
pub fn first_result(
    cancelled: bool,
    joined: Option<Result<(), ViewerError>>,
) -> (r: Result<(), ViewerError>)
    ensures
        r == (if cancelled {
            Ok(())
        } else {
            match joined {
                Some(result) => result,
                None => Err(ViewerError::TaskFailed),
            }
        }),
{
    if cancelled {
        return Ok(());
    }
    match joined {
        Some(result) => result,
        None => Err(ViewerError::TaskFailed),
    }
}

/// The result of feeding: that of closing the decoder where it failed, else its own.
/// An error of feeding asks the viewer to close before the decoder is waited for.
pub fn feed_result(teardown: Result<(), ViewerError>, result: Result<(), ViewerError>) -> (r:
    Result<(), ViewerError>)
    ensures
        r == (if teardown is Err {
            teardown
        } else {
            result
        }),
        r is Ok <==> teardown is Ok && result is Ok,
{
    if teardown.is_err() {
        teardown
    } else {
        result
    }
}

/// The result of a session whose hold on the Surface was released, or whose release
/// panicked: then nothing says that its resources are free.
pub fn surface_released(viewer: &mut Viewer, panicked: bool, result: Result<(), ViewerError>) -> (r:
    Result<(), ViewerError>)
    ensures
        final(viewer)@ == (viewer::ViewerView {
            resources_unconfirmed: old(viewer)@.resources_unconfirmed || panicked,
            ..old(viewer)@
        }),
        r == (if panicked && result is Ok {
            Err(ViewerError::TaskFailed)
        } else {
            result
        }),
{
    if panicked {
        viewer.holds_native(true);
        if result.is_ok() {
            return Err(ViewerError::TaskFailed);
        }
    }
    result
}

/// The results of tasks that ended one after the other.
pub open spec fn merged_all(
    first: Result<(), ViewerError>,
    joined: Seq<Option<Result<(), ViewerError>>>,
) -> Result<(), ViewerError>
    decreases joined.len(),
{
    if joined.len() == 0 {
        first
    } else {
        merged(merged_all(first, joined.drop_last()), joined.last())
    }
}

/// An error that any task ended with is not lost: the session fails too.
pub proof fn lemma_errors_are_not_lost(
    first: Result<(), ViewerError>,
    joined: Seq<Option<Result<(), ViewerError>>>,
    i: int,
)
    requires
        first is Err || (0 <= i < joined.len() && (joined[i] is None || joined[i]->0 is Err)),
    ensures
        merged_all(first, joined) is Err,
    decreases joined.len(),
{
    if joined.len() > 0 {
        let rest = joined.drop_last();
        if first is Err {
            lemma_errors_are_not_lost(first, rest, i);
        } else if i < rest.len() {
            assert(rest[i] == joined[i]);
            lemma_errors_are_not_lost(first, rest, i);
        }
    }
}

/// A decoder that could not be destroyed is what the session fails with, whatever
/// else went wrong before or after, unless another one could not be destroyed later.
pub proof fn lemma_destroy_failure_wins(
    first: Result<(), ViewerError>,
    joined: Seq<Option<Result<(), ViewerError>>>,
    i: int,
    code: i32,
)
    requires
        0 <= i < joined.len(),
        joined[i] == Some(
            Err::<(), ViewerError>(ViewerError::Decoder(DecoderError::DestroyFailed { code })),
        ),
    ensures
        merged_all(first, joined) matches Err(ViewerError::Decoder(reason)) && reason
            is DestroyFailed,
    decreases joined.len(),
{
    let rest = joined.drop_last();
    if i < rest.len() {
        assert(rest[i] == joined[i]);
        lemma_destroy_failure_wins(first, rest, i, code);
    }
}

} // verus!
