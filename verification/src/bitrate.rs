//! Automatic encoder bitrate selection.
//!
//! Turns the shape of a session (resolution, capture rate and codec) into a
//! bitrate ceiling. This is not congestion control: nothing here measures a link.
use vstd::prelude::*;
use crate::input;

verus! {

/// Ceiling on any automatic choice.
pub const MAX_AUTO_BITRATE: i64 = 100_000_000;

/// Floor, so that a tiny display still gets a usable picture.
pub const MIN_AUTO_BITRATE: i64 = 1_000_000;

/// Which encoder the rate is chosen for.
#[derive(Debug, Clone, Copy, PartialEq, Eq, Structural)]
pub enum BitrateCodec {
    H264,
    H265,
}

impl BitrateCodec {
    /// Thousandths of a bit per pixel and frame.
    pub open spec fn millibits(self) -> int {
        match self {
            BitrateCodec::H264 => 100,
            BitrateCodec::H265 => 67,
        }
    }

    fn bits_per_pixel(self) -> (r: u128)
        ensures
            r == self.millibits(),
    {
        match self {
            BitrateCodec::H264 => 100,
            BitrateCodec::H265 => 67,
        }
    }
}

/// Thousandths of a bit, rounded to the nearest whole bit, halves upwards.
pub open spec fn whole_bits(millibits: int) -> int {
    (millibits + 500) / 1000
}

/// The rate of a shape with positive sides and rate: its pixels per second at the
/// codec's cost, rounded to whole bits and kept between the floor and the ceiling.
pub open spec fn auto_rate(width: int, height: int, fps: int, codec: BitrateCodec) -> int {
    input::clamped(
        whole_bits(width * height * fps * codec.millibits()),
        MIN_AUTO_BITRATE as int,
        MAX_AUTO_BITRATE as int,
    )
}

/// A bitrate ceiling for one session shape, or nothing where the shape cannot
/// describe any real encoder budget.
pub fn auto_bitrate_bps(width: i32, height: i32, fps: u32, codec: BitrateCodec) -> (r: Option<i64>)
    ensures
        width <= 0 || height <= 0 || fps == 0 ==> r is None,
        width > 0 && height > 0 && fps > 0 ==> (r matches Some(rate) && rate == auto_rate(
            width as int,
            height as int,
            fps as int,
            codec,
        )),
{
    if width <= 0 || height <= 0 || fps == 0 {
        return None;
    }
    let w: u128 = width as u128;
    let h: u128 = height as u128;
    let f: u128 = fps as u128;
    let cost: u128 = codec.bits_per_pixel();
    proof {
        assert(0 <= w * h <= 0x7fff_ffff * 0x7fff_ffff) by (nonlinear_arith)
            requires
                0 <= w <= 0x7fff_ffff,
                0 <= h <= 0x7fff_ffff,
        ;
        assert(0 <= w * h * f <= 0x7fff_ffff * 0x7fff_ffff * 0xffff_ffff) by (nonlinear_arith)
            requires
                0 <= w * h <= 0x7fff_ffff * 0x7fff_ffff,
                0 <= f <= 0xffff_ffff,
        ;
    }
    let pixels: u128 = w * h;
    let throughput: u128 = pixels * f;
    proof {
        assert(0 <= throughput * cost <= 0x7fff_ffff * 0x7fff_ffff * 0xffff_ffff * 100)
            by (nonlinear_arith)
            requires
                0 <= throughput <= 0x7fff_ffff * 0x7fff_ffff * 0xffff_ffff,
                0 <= cost <= 100,
        ;
    }
    let raw: u128 = (throughput * cost + 500) / 1000;
    if raw > MAX_AUTO_BITRATE as u128 {
        Some(MAX_AUTO_BITRATE)
    } else if raw < MIN_AUTO_BITRATE as u128 {
        Some(MIN_AUTO_BITRATE)
    } else {
        Some(raw as i64)
    }
}

/// The ceiling and the floor hold for every shape.
pub proof fn lemma_rate_is_bounded(width: int, height: int, fps: int, codec: BitrateCodec)
    ensures
        MIN_AUTO_BITRATE <= auto_rate(width, height, fps, codec) <= MAX_AUTO_BITRATE,
{
}

/// The rate never falls when a side or the capture rate grows.
pub proof fn lemma_rate_scales_with_shape(
    width: int,
    height: int,
    fps: int,
    wider: int,
    higher: int,
    faster: int,
    codec: BitrateCodec,
)
    requires
        0 < width <= wider,
        0 < height <= higher,
        0 < fps <= faster,
    ensures
        auto_rate(width, height, fps, codec) <= auto_rate(wider, higher, faster, codec),
{
    lemma_product_grows(width, wider, height, higher);
    assert(width * height > 0) by (nonlinear_arith)
        requires
            width > 0,
            height > 0,
    ;
    lemma_product_grows(width * height, wider * higher, fps, faster);
    vstd::arithmetic::mul::lemma_mul_inequality(width * height * fps, wider * higher * faster, codec.millibits());
    vstd::arithmetic::div_mod::lemma_div_is_ordered(
        width * height * fps * codec.millibits() + 500,
        wider * higher * faster * codec.millibits() + 500,
        1000,
    );
}

proof fn lemma_product_grows(a: int, b: int, c: int, d: int)
    by (nonlinear_arith)
    requires
        0 < a <= b,
        0 < c <= d,
    ensures
        a * c <= b * d,
{
}

/// H.265 never spends more than H.264 on the same shape, and spends less wherever
/// the floor and the ceiling do not decide.
pub proof fn lemma_h265_spends_less(width: int, height: int, fps: int)
    requires
        width > 0,
        height > 0,
        fps > 0,
    ensures
        auto_rate(width, height, fps, BitrateCodec::H265) <= auto_rate(
            width,
            height,
            fps,
            BitrateCodec::H264,
        ),
        MIN_AUTO_BITRATE < auto_rate(width, height, fps, BitrateCodec::H264) && auto_rate(
            width,
            height,
            fps,
            BitrateCodec::H265,
        ) < MAX_AUTO_BITRATE ==> auto_rate(width, height, fps, BitrateCodec::H265) < auto_rate(
            width,
            height,
            fps,
            BitrateCodec::H264,
        ),
{
    let p = width * height * fps;
    assert(p > 0) by {
        assert(width * height > 0) by (nonlinear_arith)
            requires
                width > 0,
                height > 0,
        ;
        assert(width * height * fps > 0) by (nonlinear_arith)
            requires
                width * height > 0,
                fps > 0,
        ;
    }
}

} // verus!
