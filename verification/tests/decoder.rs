//! The decoder of OpenHarmony: its queue, its callbacks and its owners.
use rd_engine::platform::ohos_decoder::{
    output_flags, AccessUnit, AccessUnitKind, Action, Buffer, DecoderConfig, DecoderError, Event,
    OwnerBudget, Shared, VideoCodec, MAX_CALLBACKS, MAX_OWNERS,
};

fn config() -> DecoderConfig {
    DecoderConfig {
        codec: VideoCodec::H265,
        width: 3840,
        height: 2160,
        // The variable refresh rate hint reads this, so the test config
        // carries a real rate rather than a zero.
        frame_rate: 60,
        max_queued_units: 1,
        max_queued_bytes: 16,
    }
}

fn packet() -> AccessUnit {
    AccessUnit {
        bytes: vec![1, 2, 3],
        pts_us: 1,
        kind: AccessUnitKind::Frame { key: false },
        // Unstamped: `submit` is what stamps a unit, exactly as on the real
        // path.
        accepted_at: None,
        dequeued_at: None,
    }
}

#[test]
fn output_event_is_serviced_without_an_input_buffer() {
    let mut shared = Shared::new(config()).unwrap();
    shared.submit(packet(), 0).unwrap();
    shared.post(Event::Output(Buffer {
        index: 7,
        address: 1,
    }));
    assert!(matches!(
        shared.next(0),
        Some(Action::Event(Event::Output(Buffer {
            index: 7,
            address: 1
        })))
    ));
    shared.returning_output(7);
    shared.output(true, false, 0);
    shared.request_close();
    assert!(matches!(shared.next(0), Some(Action::Stop)));
    shared.closed();
    assert_eq!(shared.stats().cancelled_units, 1);
    assert_eq!(shared.stats().render_submissions, 1);
}

#[test]
fn in_progress_quota_and_synchronous_index_recycling_are_safe() {
    let mut shared = Shared::new(config()).unwrap();
    shared.submit(packet(), 0).unwrap();
    shared.post(Event::Input(Buffer {
        index: 2,
        address: 1,
    }));
    if let Some(Action::Event(Event::Input(buffer))) = shared.next(0) {
        shared.input_available(buffer);
    } else {
        panic!();
    }
    let (buffer, unit) = match shared.next(0) {
        Some(Action::Submit(b, u)) => (b, u),
        _ => panic!(),
    };
    assert_eq!(
        shared.submit(packet(), 0).unwrap_err().reason,
        DecoderError::Backpressure
    );
    shared.returning_input(buffer.index);
    // Simulates metadata delivery while the SDK Push call is on the stack.
    shared.post(Event::Input(Buffer {
        index: 2,
        address: 1,
    }));
    assert!(shared.stats().failure.is_none());
    shared.submitted(unit.bytes.len(), true, 0);
    shared.submit(packet(), 0).unwrap();
}

#[test]
fn callback_overflow_and_quarantine_are_bounded_and_fail_closed() {
    let mut shared = Shared::new(config()).unwrap();
    shared.stream_changed();
    for _ in 0..=MAX_CALLBACKS {
        shared.post(Event::StreamChanged);
    }
    assert_eq!(shared.stats().failure, Some(DecoderError::CallbackOverflow));
    assert!(matches!(shared.next(0), Some(Action::Stop)));
    shared.fail(DecoderError::Closed);
    assert_eq!(shared.stats().failure, Some(DecoderError::CallbackOverflow));
    shared.quarantine();
    assert!(shared.stats().quarantined);
    let mut budget = OwnerBudget::default();
    for _ in 0..MAX_OWNERS {
        budget.reserve().unwrap();
    }
    assert_eq!(budget.reserve(), Err(DecoderError::OwnerLimit));
    budget.quarantined = 1;
    budget.live -= 1;
    assert_eq!(budget.reserve(), Err(DecoderError::QuarantinePresent));
}

#[test]
fn eos_config_are_not_frames_and_eos_closes_submission_order() {
    assert_eq!(output_flags(0), (true, false));
    assert_eq!(output_flags(2 | 32), (true, false));
    assert_eq!(output_flags(8), (false, false));
    assert_eq!(output_flags(16), (false, false));
    assert_eq!(output_flags(1), (false, true));
    let mut shared = Shared::new(config()).unwrap();
    shared
        .submit(
            AccessUnit {
                bytes: Vec::new(),
                pts_us: 2,
                kind: AccessUnitKind::EndOfStream,
                accepted_at: None,
                dequeued_at: None,
            },
            0,
        )
        .unwrap();
    let rejected = shared.submit(packet(), 0).unwrap_err();
    assert_eq!(rejected.reason, DecoderError::EndOfStreamAlreadySubmitted);
    assert_eq!(rejected.unit.bytes, vec![1, 2, 3]);
}

#[test]
fn the_time_of_a_unit_is_counted_from_its_arrival() {
    let mut shared = Shared::new(config()).unwrap();
    shared.submit(packet(), 100).unwrap();
    let buffer = Buffer {
        index: 2,
        address: 1,
    };
    shared.post(Event::Input(buffer));
    shared.next(110);
    shared.input_available(buffer);
    let unit = match shared.next(130) {
        Some(Action::Submit(_, unit)) => unit,
        _ => panic!(),
    };
    assert_eq!(unit.accepted_at, Some(100));
    assert_eq!(unit.dequeued_at, Some(130));
    assert!(shared.next(140).is_none(), "there is nothing to do");
}

#[test]
fn a_configuration_that_is_none_opens_nothing() {
    let mut wrong = config();
    wrong.max_queued_units = 0;
    assert_eq!(Shared::new(wrong).err(), Some(DecoderError::InvalidConfig));
    let mut shared = Shared::new(config()).unwrap();
    let mut large = packet();
    large.bytes = vec![0; 17];
    assert_eq!(
        shared.submit(large, 0).unwrap_err().reason,
        DecoderError::AccessUnitExceedsQueueLimit { size: 17, limit: 16 }
    );
}
