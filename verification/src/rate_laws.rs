//! What holds of the rate of bits as a whole: how it follows from the picture, and how it
//! adapts.
use vstd::prelude::*;
use crate::bitrate;
use crate::bitrate::BitrateCodec;
use crate::platform::windows_bitrate;
use crate::platform::windows_bitrate::{BitrateController, Window};

verus! {

/// Within its bounds the rate is a tenth of a bit for each pixel in H.264, and sixty-seven
/// thousandths in H.265, to the nearest bit.
pub proof fn lemma_rate_of_a_shape(width: int, height: int, fps: int, codec: BitrateCodec)
    requires
        width > 0,
        height > 0,
        fps > 0,
    ensures
        ({
            let pixels = width * height * fps;
            let rate = bitrate::auto_rate(width, height, fps, codec);
            let cost = if codec is H264 {
                100int
            } else {
                67
            };
            &&& 1_000_000 <= rate <= 100_000_000
            &&& 1_000_000 < rate < 100_000_000 ==> 1000 * rate - 500 <= pixels * cost < 1000 * rate
                + 500
            &&& rate == 1_000_000 ==> pixels * cost < 1_000_000_500
            &&& rate == 100_000_000 ==> pixels * cost >= 99_999_999_500
        }),
{
}

/// Twice the frames take twice the bits, as long as no bound is met.
pub proof fn lemma_rate_doubles(width: int, height: int, fps: int, codec: BitrateCodec)
    requires
        width > 0,
        height > 0,
        fps > 0,
        1_000_000 < bitrate::auto_rate(width, height, fps, codec),
        bitrate::auto_rate(width, height, 2 * fps, codec) < 100_000_000,
    ensures
        -1 <= bitrate::auto_rate(width, height, 2 * fps, codec) - 2 * bitrate::auto_rate(
            width,
            height,
            fps,
            codec,
        ) <= 1,
{
    let cost = codec.millibits();
    assert(width * height * (2 * fps) * cost == 2 * (width * height * fps * cost))
        by (nonlinear_arith);
    let one = width * height * fps * cost;
    assert(one > 0) by (nonlinear_arith)
        requires
            one == width * height * fps * cost,
            width > 0,
            height > 0,
            fps > 0,
            cost > 0,
    ;
}

/// The percentage of the budget that `frames` frames of `bytes` bytes in all take at `fps`
/// frames a second is at least `percent`.
pub open spec fn takes_at_least(
    percent: int,
    bytes: int,
    frames: int,
    rate: int,
    fps: int,
) -> bool {
    8 * bytes * fps * 100 >= percent * rate * frames
}

proof fn lemma_spent(window: Window, percent: int, rate: i64, fps: u32)
    requires
        fps > 0,
    ensures
        window.spends_at_least(percent, rate, fps) <==> takes_at_least(
            percent,
            window.bytes as int,
            window.frames as int,
            rate as int,
            fps as int,
        ),
        window.spends_at_most(percent, rate, fps) <==> 8 * window.bytes * fps * 100 <= percent
            * rate * window.frames,
{
    assert(window.bytes * 8 * fps * 100 == 8 * window.bytes * fps * 100) by (nonlinear_arith);
    assert(percent * (rate * window.frames) == percent * rate * window.frames)
        by (nonlinear_arith);
}

/// The rate goes up by a quarter after twenty-four frames or more that take at least
/// eighty-five hundredths of the budget, down by twelve hundredths after two hundred and
/// forty that take at most fifty-five, and stays otherwise.
pub proof fn lemma_rate_follows_the_picture(control: BitrateController, bytes: u64)
    requires
        control.wf(),
        control.shape.fps > 0,
        control.short.bytes + bytes <= i64::MAX,
        control.long.bytes + bytes <= i64::MAX,
        control.short.frames < u32::MAX,
        control.long.frames < u32::MAX,
    ensures
        ({
            let after = control.observed(bytes);
            let rate = control.current as int;
            let fps = control.shape.fps as int;
            let (sf, sb) = (control.short.frames + 1, control.short.bytes + bytes);
            let (lf, lb) = (control.long.frames + 1, control.long.bytes + bytes);
            let busy = sf >= 24 && takes_at_least(85, sb, sf, rate, fps);
            let slack = lf >= 240 && 8 * lb * fps * 100 <= 55 * rate * lf;
            let up = rate * 125 / 100;
            let down = rate * 88 / 100;
            &&& busy ==> after.current == if up > 120_000_000 {
                120_000_000
            } else {
                up
            }
            &&& !busy && slack ==> after.current == if down < 2_000_000 {
                2_000_000
            } else {
                down
            }
            &&& !busy && !slack ==> after.current == control.current && after.short.frames == sf
                && after.short.bytes == sb
            &&& busy || slack ==> after.short.frames == 0 && after.short.bytes == 0
                && after.long.frames == 0 && after.long.bytes == 0
            &&& !busy && !slack && lf >= 240 ==> after.long.frames == 0 && after.long.bytes == 0
            &&& !busy && !slack && lf < 240 ==> after.long.frames == lf && after.long.bytes == lb
            &&& after.shape == control.shape
        }),
{
    let short = control.short.with(bytes);
    let long = control.long.with(bytes);
    lemma_spent(short, 85, control.current, control.shape.fps);
    lemma_spent(long, 55, control.current, control.shape.fps);
    assert(control.current * 5 / 4 == control.current * 125 / 100);
}

/// Whatever it is asked for, a rate is kept between two and a hundred and twenty million.
pub proof fn lemma_bounds_of_the_rate(rate: int)
    ensures
        2_000_000 <= windows_bitrate::bounded(rate) <= 120_000_000,
        2_000_000 <= rate <= 120_000_000 ==> windows_bitrate::bounded(rate) == rate,
        rate < 2_000_000 ==> windows_bitrate::bounded(rate) == 2_000_000,
        rate > 120_000_000 ==> windows_bitrate::bounded(rate) == 120_000_000,
{
}

} // verus!
