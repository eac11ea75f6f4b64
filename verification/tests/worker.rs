//! The worker of a decoder, and how a viewer feeds it.
use rd_engine::host::Address;
use rd_engine::message::EncodedFrame;
use rd_engine::platform::ohos_decoder::{
    AccessUnit, AccessUnitKind, DecoderError, DecoderStats, VideoCodec,
};
use rd_engine::platform::ohos_worker::{
    initialized, input_attributes, mime_type, monotonic_time_ns, opening_error, opening_report,
    output_kind, setup, shutdown, worker_result, SetupReply, SetupStage, SurfaceDecoder,
    TeardownReply,
};
use rd_engine::viewer::feed::{close_decoder, first_result, surface_released, FeedStep, Feeder};
use rd_engine::viewer::receive::VideoRecord;
use rd_engine::viewer::{Geometry, Viewer, ViewerError, ViewerImageQuality, ViewerOptions};

const FINE: SetupReply = SetupReply {
    code: 0,
    null: false,
    accepted: true,
};

#[test]
fn opening_makes_every_call_in_its_order() {
    let mut stage = SetupStage::Capability;
    let mut calls = 0;
    while stage != SetupStage::Ready {
        stage = setup(stage, FINE).unwrap();
        calls += 1;
    }
    assert_eq!(calls, 11);
    let refused = SetupReply {
        accepted: false,
        ..FINE
    };
    assert_eq!(
        setup(SetupStage::Capability, refused),
        Err(DecoderError::NoHardwareDecoder)
    );
    let null = SetupReply { null: true, ..FINE };
    assert_eq!(
        setup(SetupStage::Create, null),
        Err(DecoderError::NativeReturnedNull {
            api: "OH_VideoDecoder_CreateByName"
        })
    );
    let failed = SetupReply { code: 7, ..FINE };
    assert_eq!(
        setup(SetupStage::Start, failed),
        Err(DecoderError::Native {
            api: "OH_VideoDecoder_Start",
            code: 7
        })
    );
    assert_eq!(mime_type(VideoCodec::H264), "video/avc");
}

#[test]
fn a_codec_that_is_not_destroyed_is_kept() {
    let gone = TeardownReply {
        stopped: Some(0),
        destroyed: Some(0),
    };
    assert_eq!(shutdown(gone), (false, Ok(())));
    let stuck = TeardownReply {
        stopped: Some(5),
        destroyed: Some(9),
    };
    assert_eq!(
        shutdown(stuck),
        (true, Err(DecoderError::DestroyFailed { code: 9 }))
    );
    let stopped = TeardownReply {
        stopped: Some(5),
        destroyed: Some(0),
    };
    assert_eq!(
        shutdown(stopped),
        (
            false,
            Err(DecoderError::Native {
                api: "OH_VideoDecoder_Stop",
                code: 5
            })
        )
    );
}

fn unit(bytes: usize, kind: AccessUnitKind) -> AccessUnit {
    AccessUnit {
        bytes: vec![0; bytes],
        pts_us: 9,
        kind,
        accepted_at: None,
        dequeued_at: None,
    }
}

#[test]
fn a_unit_has_to_fit_its_buffer() {
    let key = unit(4, AccessUnitKind::Frame { key: true });
    let attributes = input_attributes(1, 4, false, &key).unwrap();
    assert_eq!((attributes.pts, attributes.size, attributes.flags), (9, 4, 2));
    assert_eq!(
        input_attributes(1, 3, false, &key),
        Err(DecoderError::InputTooLarge {
            size: 4,
            capacity: 3
        })
    );
    assert_eq!(
        input_attributes(0, 4, false, &key),
        Err(DecoderError::InvalidNativeBuffer)
    );
    assert_eq!(
        input_attributes(1, 4, true, &key),
        Err(DecoderError::InvalidNativeBuffer)
    );
    let end = unit(0, AccessUnitKind::EndOfStream);
    assert_eq!(input_attributes(1, 0, true, &end).unwrap().flags, 1);
}

#[test]
fn an_output_is_told_by_its_flags() {
    assert_eq!(output_kind(1, 0, 0, 0, 0), Ok((true, false)));
    assert_eq!(output_kind(1, 0, 0, 0, 1), Ok((false, true)));
    assert_eq!(
        output_kind(0, 0, 0, 0, 0),
        Err(DecoderError::InvalidNativeBuffer)
    );
    assert_eq!(
        output_kind(1, 3, 0, 0, 0),
        Err(DecoderError::Native {
            api: "OH_AVBuffer_GetBufferAttr",
            code: 3
        })
    );
    assert_eq!(
        output_kind(1, 0, -1, 0, 0),
        Err(DecoderError::InvalidNativeBuffer)
    );
}

#[test]
fn the_clock_does_not_overflow() {
    assert_eq!(monotonic_time_ns(0, 2, 5), Ok(2_000_000_005));
    assert!(monotonic_time_ns(0, i64::MAX, 0).is_err());
    assert!(monotonic_time_ns(-1, 2, 5).is_err());
}

#[test]
fn the_error_that_counts_is_the_one_of_the_teardown() {
    let stats = DecoderStats::default();
    let closed = DecoderError::Closed;
    let destroy = DecoderError::DestroyFailed { code: 1 };
    assert_eq!(opening_error(closed, Err(destroy)), destroy);
    assert_eq!(opening_error(closed, Ok(())), closed);
    assert_eq!(opening_report(None), Err(DecoderError::WorkerPanicked));
    assert_eq!(initialized(Err(closed), &stats), Err(closed));
    assert_eq!(worker_result(Err(destroy), stats), Err(destroy));
    assert!(worker_result(Ok(()), stats).is_ok());
    let failed = DecoderStats {
        failure: Some(closed),
        ..stats
    };
    assert_eq!(initialized(Ok(()), &failed), Err(closed));
    assert_eq!(worker_result(Ok(()), failed).err(), Some(closed));
}

fn viewer() -> Viewer {
    let options = ViewerOptions {
        address: Some(Address {
            ip: "10.0.0.2".to_owned(),
            text: "10.0.0.2:21118".to_owned(),
            port: 21118,
        }),
        username: "10.0.0.2".to_owned(),
        local_id: "123".to_owned(),
        local_name: "me".to_owned(),
        password: String::new(),
        requested_fps: 60,
        clipboard_enabled: true,
        image_quality: ViewerImageQuality::default(),
    };
    Viewer::start(&options).ok().unwrap()
}

fn record(codec: VideoCodec) -> VideoRecord {
    VideoRecord {
        codec,
        geometry: Geometry {
            display: 0,
            x: 0,
            y: 0,
            width: 640,
            height: 480,
        },
        frames: vec![EncodedFrame {
            data: vec![1, 2, 3],
            key: true,
            pts: 5,
        }],
        bytes: 3,
    }
}

#[test]
fn a_record_of_another_codec_needs_another_decoder() {
    let mut viewer = viewer();
    let mut feeder = Feeder::new();
    assert!(matches!(feeder.on_record(record(VideoCodec::H265)), FeedStep::Close));
    let config = match feeder.on_closed(&mut viewer, None) {
        FeedStep::Open(config) => config,
        other => panic!("unexpected {other:?}"),
    };
    assert_eq!((config.width, config.height), (640, 480));
    assert_eq!(viewer.snapshot().phase, "opening_decoder");
    let decoder = SurfaceDecoder::open(true, config, 5).ok();
    assert!(matches!(
        feeder.on_opened(&mut viewer, decoder.map(Ok)),
        FeedStep::Next
    ));
    assert_eq!(viewer.snapshot().phase, "decoding");
    assert!(matches!(feeder.feed(&mut viewer, 10), FeedStep::Next));
    assert!(matches!(feeder.feed(&mut viewer, 11), FeedStep::WaitRecord));
    // The same codec and display go to the decoder that is there.
    assert!(matches!(feeder.on_record(record(VideoCodec::H265)), FeedStep::Next));
    assert!(matches!(feeder.on_record(record(VideoCodec::H264)), FeedStep::Close));
    let stopped = feeder.on_stopped(DecoderError::Closed);
    assert!(matches!(
        stopped,
        FeedStep::Done(Err(ViewerError::Decoder(DecoderError::Closed)))
    ));
    assert!(close_decoder(&mut viewer, Some(Err(DecoderError::Closed))).is_err());
    assert!(close_decoder(&mut viewer, None).is_ok(), "there is none any more");
}

#[test]
fn a_surface_that_is_not_released_leaves_it_open_what_is_held() {
    let mut viewer = viewer();
    assert!(surface_released(&mut viewer, false, Ok(())).is_ok());
    assert!(matches!(
        surface_released(&mut viewer, true, Ok(())),
        Err(ViewerError::TaskFailed)
    ));
    viewer.finish(&Ok(()));
    assert_eq!(
        viewer.snapshot().error,
        Some("ReclamationUnconfirmed".to_owned())
    );
    assert!(matches!(
        viewer.close(),
        Some(Err(ViewerError::ReclamationUnconfirmed))
    ));
    assert!(first_result(true, None).is_ok());
    assert!(first_result(false, None).is_err());
}
