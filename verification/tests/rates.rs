//! Rates of bits: the one that a session starts with, and how it adapts.
use rd_engine::bitrate::{auto_bitrate_bps, BitrateCodec, MAX_AUTO_BITRATE, MIN_AUTO_BITRATE};
use rd_engine::platform::windows_bitrate::{
    BitrateController, Decision, StreamShape, LOWER_AFTER_FRAMES, MAX_BITRATE, MIN_BITRATE,
    RAISE_AFTER_FRAMES,
};

/// The coefficients are not measured, so the test pins the property that
/// matters instead of an exact number: each familiar shape has to land
/// inside the band that shape is normally encoded at.
#[test]
fn known_shapes_land_inside_their_usable_band() {
    let cases = [
        (1920, 1080, 60, BitrateCodec::H264, 6_000_000, 20_000_000),
        (2560, 1440, 60, BitrateCodec::H265, 8_000_000, 25_000_000),
        (2560, 1440, 120, BitrateCodec::H265, 16_000_000, 50_000_000),
        (
            3840,
            2160,
            60,
            BitrateCodec::H265,
            20_000_000,
            MAX_AUTO_BITRATE,
        ),
    ];
    for (width, height, fps, codec, low, high) in cases {
        let actual = auto_bitrate_bps(width, height, fps, codec).unwrap();
        assert!(
            (low..=high).contains(&actual),
            "{width}x{height}@{fps} {codec:?} produced {actual}, outside {low}..={high}"
        );
    }
}

#[test]
fn a_malformed_shape_is_refused_rather_than_guessed() {
    assert_eq!(auto_bitrate_bps(0, 1080, 60, BitrateCodec::H264), None);
    assert_eq!(auto_bitrate_bps(1920, -1, 60, BitrateCodec::H264), None);
    assert_eq!(auto_bitrate_bps(1920, 1080, 0, BitrateCodec::H264), None);
}

#[test]
fn the_ceiling_and_floor_hold() {
    assert_eq!(
        auto_bitrate_bps(16_384, 16_384, 240, BitrateCodec::H265),
        Some(MAX_AUTO_BITRATE)
    );
    assert_eq!(
        auto_bitrate_bps(16, 16, 1, BitrateCodec::H265),
        Some(MIN_AUTO_BITRATE)
    );
}

#[test]
fn h265_spends_less_than_h264_for_the_same_shape() {
    let h264 = auto_bitrate_bps(2560, 1440, 60, BitrateCodec::H264).unwrap();
    let h265 = auto_bitrate_bps(2560, 1440, 60, BitrateCodec::H265).unwrap();
    assert!(h265 < h264);
}

#[test]
fn the_rate_scales_with_the_shape() {
    let base = auto_bitrate_bps(2560, 1440, 60, BitrateCodec::H265).unwrap();
    assert_eq!(
        auto_bitrate_bps(2560, 1440, 120, BitrateCodec::H265),
        Some(base * 2)
    );
    assert!(auto_bitrate_bps(2560, 1440, 30, BitrateCodec::H265).unwrap() < base);
}

fn controller(initial: i64) -> BitrateController {
    BitrateController::new(StreamShape { fps: 60 }, initial)
}

/// Bytes per frame that spend `ratio` of the budget at `bitrate`.
fn frame_bytes(bitrate: i64, ratio: f64, fps: u32) -> u64 {
    ((bitrate as f64 / f64::from(fps)) / 8.0 * ratio) as u64
}

#[test]
fn a_busy_scene_raises_the_rate() {
    let mut control = controller(20_000_000);
    let busy = frame_bytes(20_000_000, 0.95, 60);
    let mut decision = Decision::Hold;
    for _ in 0..RAISE_AFTER_FRAMES {
        decision = control.observe(busy);
    }
    match decision {
        Decision::Change(rate) => {
            assert!(rate > 20_000_000, "rate should rise, got {rate}");
            // One step, not a jump to the ceiling.
            assert!(
                rate < 30_000_000,
                "rate should move by one step, got {rate}"
            );
        }
        Decision::Hold => panic!("a busy scene must raise the rate"),
    }
}

#[test]
fn a_short_lull_does_not_lower_the_rate() {
    let mut control = controller(20_000_000);
    let quiet = frame_bytes(20_000_000, 0.2, 60);
    // Fewer frames than the lowering window: nothing should happen even
    // though every frame spent well under budget.
    for _ in 0..(LOWER_AFTER_FRAMES - 1) {
        assert_eq!(control.observe(quiet), Decision::Hold);
    }
    assert_eq!(control.current(), 20_000_000);
}

#[test]
fn a_long_lull_lowers_the_rate_once() {
    let mut control = controller(20_000_000);
    let quiet = frame_bytes(20_000_000, 0.2, 60);
    let mut changes = 0;
    let mut last = 20_000_000;
    for _ in 0..(LOWER_AFTER_FRAMES * 2) {
        if let Decision::Change(rate) = control.observe(quiet) {
            changes += 1;
            assert!(rate < last, "lowering must go down, got {rate}");
            last = rate;
        }
    }
    // Two windows, so at most two steps; not a collapse to the floor.
    assert_eq!(changes, 2, "expected one step per window");
    assert!(control.current() > MIN_BITRATE);
}

#[test]
fn spending_exactly_the_budget_holds_steady() {
    let mut control = controller(20_000_000);
    // A ratio of 1.0 is above the high water mark, so this raises; a ratio
    // just under it must hold instead.
    let steady = frame_bytes(20_000_000, 0.7, 60);
    for _ in 0..(LOWER_AFTER_FRAMES * 2) {
        assert_eq!(control.observe(steady), Decision::Hold);
    }
    assert_eq!(control.current(), 20_000_000);
}

#[test]
fn the_rate_never_leaves_the_allowed_range() {
    let mut control = controller(MAX_BITRATE);
    let saturated = frame_bytes(MAX_BITRATE, 2.0, 60);
    for _ in 0..(RAISE_AFTER_FRAMES * 10) {
        let _ = control.observe(saturated);
        assert!(control.current() <= MAX_BITRATE);
    }
    assert_eq!(control.current(), MAX_BITRATE);

    let mut floor_control = controller(MIN_BITRATE);
    let empty = 0u64;
    for _ in 0..(LOWER_AFTER_FRAMES * 10) {
        let _ = floor_control.observe(empty);
        assert!(floor_control.current() >= MIN_BITRATE);
    }
    assert_eq!(floor_control.current(), MIN_BITRATE);
}

#[test]
fn an_initial_rate_outside_the_range_is_clamped_on_construction() {
    assert_eq!(controller(i64::MAX).current(), MAX_BITRATE);
    assert_eq!(controller(1).current(), MIN_BITRATE);
    assert_eq!(controller(0).current(), MIN_BITRATE);
}

#[test]
fn raising_is_faster_than_lowering_so_the_rate_does_not_pulse() {
    // The asymmetry is what keeps a scene that alternates between busy and
    // quiet from oscillating: it climbs quickly and comes down slowly.
    let mut control = controller(20_000_000);
    let busy = frame_bytes(20_000_000, 0.95, 60);
    for _ in 0..RAISE_AFTER_FRAMES {
        control.observe(busy);
    }
    let after_raise = control.current();
    let quiet = frame_bytes(after_raise, 0.2, 60);
    for _ in 0..(LOWER_AFTER_FRAMES - 1) {
        control.observe(quiet);
    }
    // After a raise, the same number of frames that caused it has not yet
    // been enough to undo it.
    assert_eq!(control.current(), after_raise);
}

#[test]
fn the_window_resets_after_a_decision() {
    let mut control = controller(20_000_000);
    let busy = frame_bytes(20_000_000, 0.95, 60);
    for _ in 0..RAISE_AFTER_FRAMES {
        control.observe(busy);
    }
    let raised = control.current();
    assert!(raised > 20_000_000);
    // The next observation window starts empty, so a single frame cannot
    // trigger another change.
    assert_eq!(control.observe(busy), Decision::Hold);
}

#[test]
fn a_shape_has_one_rate() {
    assert_eq!(auto_bitrate_bps(1920, 1080, 60, BitrateCodec::H264), Some(12_441_600));
    assert_eq!(auto_bitrate_bps(2560, 1440, 60, BitrateCodec::H265), Some(14_819_328));
}

#[test]
fn a_change_needs_a_full_window_of_evidence() {
    let mut control = controller(20_000_000);
    let busy = frame_bytes(20_000_000, 0.95, 60);
    for _ in 0..(RAISE_AFTER_FRAMES - 1) {
        assert_eq!(control.observe(busy), Decision::Hold);
    }
    let raised = match control.observe(busy) {
        Decision::Change(rate) => rate,
        Decision::Hold => panic!("a busy scene must raise the rate"),
    };
    assert_eq!(raised, control.current());
    assert!(raised <= MAX_BITRATE);
}
