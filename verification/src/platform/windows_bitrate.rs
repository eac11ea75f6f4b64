//! Content-adaptive bitrate control for the controlled host.
//!
//! The controller adjusts the budget from what the encoder actually produces. An
//! encoder that spends its budget on every frame is limited by it; one that spends
//! far less has slack. Raising is quick, because an under-encoded picture is
//! visible at once. Lowering is slow and needs a longer window, because a
//! momentary lull is no evidence that the budget is too large.
use vstd::prelude::*;
use crate::input;

verus! {

/// Smallest automatic choice.
pub const MIN_BITRATE: i64 = 2_000_000;

/// Largest automatic choice.
pub const MAX_BITRATE: i64 = 120_000_000;

/// Percentage of the per-frame budget from which the budget counts as the limit.
pub const HIGH_WATER: u8 = 85;

/// Percentage up to which the budget counts as slack.
pub const LOW_WATER: u8 = 55;

/// Frames of evidence needed before raising.
pub const RAISE_AFTER_FRAMES: u32 = 24;

/// Frames of evidence needed before lowering.
pub const LOWER_AFTER_FRAMES: u32 = 240;

/// What the controller needs to know about the stream.
#[derive(Debug, Clone, Copy, PartialEq, Eq, Structural)]
pub struct StreamShape {
    /// Capture rate the encoder is configured for.
    pub fps: u32,
}

/// The controller's decision for one observation.
#[derive(Debug, Clone, Copy, PartialEq, Eq, Structural)]
pub enum Decision {
    /// Keep the current rate.
    Hold,
    /// Move to this rate.
    Change(i64),
}

/// Frames and bytes seen since the last decision.
#[derive(Debug, Clone, Copy, PartialEq, Eq, Structural)]
pub struct Window {
    pub frames: u32,
    pub bytes: i64,
}

impl Window {
    /// Nothing seen.
    pub open spec fn empty() -> Window {
        Window { frames: 0, bytes: 0 }
    }

    /// One more frame of `bytes` bytes; both counts stop at their largest value.
    pub open spec fn with(self, bytes: u64) -> Window {
        Window {
            frames: if self.frames == u32::MAX {
                u32::MAX
            } else {
                (self.frames + 1) as u32
            },
            bytes: if self.bytes + bytes > i64::MAX {
                i64::MAX
            } else {
                (self.bytes + bytes) as i64
            },
        }
    }

    /// The bits per second that the frames of this window would take at `fps`
    /// frames per second, times the number of frames.
    pub open spec fn spent(self, fps: u32) -> int {
        self.bytes * 8 * (if fps == 0 {
            1
        } else {
            fps as int
        })
    }

    /// Whether the frames spend at least `percent` of `rate`.
    pub open spec fn spends_at_least(self, percent: int, rate: i64, fps: u32) -> bool {
        self.spent(fps) * 100 >= percent * (rate * self.frames)
    }

    /// Whether the frames spend at most `percent` of `rate`.
    pub open spec fn spends_at_most(self, percent: int, rate: i64, fps: u32) -> bool {
        self.spent(fps) * 100 <= percent * (rate * self.frames)
    }

    fn new() -> (r: Window)
        ensures
            r == Window::empty(),
    {
        Window { frames: 0, bytes: 0 }
    }

    fn add(&mut self, bytes: u64)
        requires
            old(self).bytes >= 0,
        ensures
            *final(self) == old(self).with(bytes),
    {
        if self.frames < u32::MAX {
            self.frames = self.frames + 1;
        }
        let room: u64 = (i64::MAX - self.bytes) as u64;
        if bytes > room {
            self.bytes = i64::MAX;
        } else {
            self.bytes = self.bytes + bytes as i64;
        }
    }

    fn reset(&mut self)
        ensures
            *final(self) == Window::empty(),
    {
        self.frames = 0;
        self.bytes = 0;
    }

    /// How what the frames spend relates to `percent` of `rate`: whether it is at
    /// least that, and whether it is at most that.
    fn ratio(&self, percent: u8, rate: i64, fps: u32) -> (r: (bool, bool))
        requires
            self.bytes >= 0,
            rate >= 0,
        ensures
            r.0 == self.spends_at_least(percent as int, rate, fps),
            r.1 == self.spends_at_most(percent as int, rate, fps),
    {
        let rate_of: u128 = if fps == 0 {
            1
        } else {
            fps as u128
        };
        let bytes: u128 = self.bytes as u128;
        let frames: u128 = self.frames as u128;
        let budget: u128 = rate as u128;
        let share: u128 = percent as u128;
        proof {
            assert(0 <= bytes * 8 * rate_of <= 0x7fff_ffff_ffff_ffff * 8 * 0xffff_ffff)
                by (nonlinear_arith)
                requires
                    0 <= bytes <= 0x7fff_ffff_ffff_ffff,
                    0 <= rate_of <= 0xffff_ffff,
            ;
            assert(0 <= budget * frames <= 0x7fff_ffff_ffff_ffff * 0xffff_ffff) by (nonlinear_arith)
                requires
                    0 <= budget <= 0x7fff_ffff_ffff_ffff,
                    0 <= frames <= 0xffff_ffff,
            ;
            assert(0 <= share * (budget * frames) <= 255 * (0x7fff_ffff_ffff_ffff * 0xffff_ffff))
                by (nonlinear_arith)
                requires
                    0 <= budget * frames <= 0x7fff_ffff_ffff_ffff * 0xffff_ffff,
                    0 <= share <= 255,
            ;
        }
        let spent: u128 = bytes * 8 * rate_of * 100;
        let allowed: u128 = share * (budget * frames);
        (spent >= allowed, spent <= allowed)
    }
}

/// Tracks how much of the budget the encoder spends.
///
/// Two windows run at once. The short one tells whether the budget is the limit
/// now, and raises the rate. The long one tells whether the budget is too large,
/// and lowers it.
#[derive(Debug)]
pub struct BitrateController {
    pub shape: StreamShape,
    pub current: i64,
    pub short: Window,
    pub long: Window,
}

/// `rate` kept between the smallest and the largest choice.
pub open spec fn bounded(rate: int) -> int {
    input::clamped(rate, MIN_BITRATE as int, MAX_BITRATE as int)
}

fn clamp_rate(rate: i64) -> (r: i64)
    ensures
        r == bounded(rate as int),
{
    if rate < MIN_BITRATE {
        MIN_BITRATE
    } else if rate > MAX_BITRATE {
        MAX_BITRATE
    } else {
        rate
    }
}

impl BitrateController {
    /// The rate is within the allowed range, and no window counts below zero.
    pub open spec fn wf(self) -> bool {
        &&& MIN_BITRATE <= self.current <= MAX_BITRATE
        &&& self.short.bytes >= 0
        &&& self.long.bytes >= 0
    }

    /// The controller after it moved to `rate` with both windows empty.
    pub open spec fn moved(self, rate: int) -> BitrateController {
        BitrateController {
            shape: self.shape,
            current: bounded(rate) as i64,
            short: Window::empty(),
            long: Window::empty(),
        }
    }

    /// Whether a frame of `bytes` bytes shows that the budget is the limit.
    pub open spec fn raises(self, bytes: u64) -> bool {
        let short = self.short.with(bytes);
        short.frames >= RAISE_AFTER_FRAMES && short.spends_at_least(
            HIGH_WATER as int,
            self.current,
            self.shape.fps,
        )
    }

    /// Whether a frame of `bytes` bytes completes the long window.
    pub open spec fn completes(self, bytes: u64) -> bool {
        self.long.with(bytes).frames >= LOWER_AFTER_FRAMES
    }

    /// Whether it shows that the budget is slack.
    pub open spec fn lowers(self, bytes: u64) -> bool {
        self.completes(bytes) && self.long.with(bytes).spends_at_most(
            LOW_WATER as int,
            self.current,
            self.shape.fps,
        )
    }

    /// The controller after a frame of `bytes` bytes: a quarter more where the
    /// short window raises; else twelve hundredths less where the long window
    /// lowers; else both windows go on, the long one from the start once complete.
    pub open spec fn observed(self, bytes: u64) -> BitrateController {
        if self.raises(bytes) {
            self.moved(self.current * 5 / 4)
        } else if self.lowers(bytes) {
            self.moved(self.current * 88 / 100)
        } else {
            BitrateController {
                short: self.short.with(bytes),
                long: if self.completes(bytes) {
                    Window::empty()
                } else {
                    self.long.with(bytes)
                },
                ..self
            }
        }
    }

    /// Starts from `initial`, kept within the allowed range.
    pub fn new(shape: StreamShape, initial: i64) -> (r: BitrateController)
        ensures
            r.wf(),
            r == (BitrateController {
                shape,
                current: bounded(initial as int) as i64,
                short: Window::empty(),
                long: Window::empty(),
            }),
    {
        BitrateController {
            shape,
            current: clamp_rate(initial),
            short: Window::new(),
            long: Window::new(),
        }
    }

    /// The rate in force.
    pub fn current(&self) -> (r: i64)
        ensures
            r == self.current,
    {
        self.current
    }

    /// Records one encoded frame and returns what to do about it.
    pub fn observe(&mut self, bytes: u64) -> (r: Decision)
        requires
            old(self).wf(),
        ensures
            final(self).wf(),
            *final(self) == old(self).observed(bytes),
            r == (if final(self).current == old(self).current {
                Decision::Hold
            } else {
                Decision::Change(final(self).current)
            }),
    {
        self.short.add(bytes);
        self.long.add(bytes);
        let busy = self.short.ratio(HIGH_WATER, self.current, self.shape.fps).0;
        let slack = self.long.ratio(LOW_WATER, self.current, self.shape.fps).1;
        if self.short.frames >= RAISE_AFTER_FRAMES && busy {
            self.short.reset();
            self.long.reset();
            let target: i64 = self.current * 5 / 4;
            return self.apply(target);
        }
        if self.long.frames >= LOWER_AFTER_FRAMES {
            if slack {
                self.short.reset();
                self.long.reset();
                let target: i64 = self.current * 88 / 100;
                return self.apply(target);
            }
            self.long.reset();
        }
        Decision::Hold
    }

    fn apply(&mut self, target: i64) -> (r: Decision)
        ensures
            *final(self) == (BitrateController {
                current: bounded(target as int) as i64,
                ..*old(self)
            }),
            r == (if final(self).current == old(self).current {
                Decision::Hold
            } else {
                Decision::Change(final(self).current)
            }),
    {
        let clamped: i64 = clamp_rate(target);
        if clamped == self.current {
            return Decision::Hold;
        }
        self.current = clamped;
        Decision::Change(clamped)
    }
}

/// The controller after all of `frames`.
pub open spec fn observed_all(control: BitrateController, frames: Seq<u64>) -> BitrateController
    decreases frames.len(),
{
    if frames.len() == 0 {
        control
    } else {
        observed_all(control, frames.drop_last()).observed(frames.last())
    }
}

/// The rate never leaves the allowed range, whatever the encoder produces.
pub proof fn lemma_rate_stays_in_range(control: BitrateController, frames: Seq<u64>)
    requires
        control.wf(),
    ensures
        observed_all(control, frames).wf(),
    decreases frames.len(),
{
    if frames.len() > 0 {
        lemma_rate_stays_in_range(control, frames.drop_last());
    }
}

/// A raise is one step: never down, and by no more than a quarter. Lowering goes
/// down by at most twelve hundredths, rounded down, and never up.
pub proof fn lemma_one_step(control: BitrateController, bytes: u64)
    requires
        control.wf(),
    ensures
        control.raises(bytes) ==> control.current <= control.observed(bytes).current
            <= control.current * 5 / 4,
        !control.raises(bytes) && control.lowers(bytes) ==> control.current * 88 / 100
            <= control.observed(bytes).current <= control.current,
        !control.raises(bytes) && !control.lowers(bytes) ==> control.observed(bytes).current
            == control.current,
{
}

/// An observation is never counted towards two decisions: after a change of the
/// rate both windows are empty.
pub proof fn lemma_windows_restart(control: BitrateController, bytes: u64)
    requires
        control.wf(),
        control.observed(bytes).current != control.current,
    ensures
        control.observed(bytes).short == Window::empty(),
        control.observed(bytes).long == Window::empty(),
{
}

/// From empty windows no shorter run of frames than the raising window changes the
/// rate, and none shorter than the lowering window lowers it.
pub proof fn lemma_evidence_is_needed(control: BitrateController, frames: Seq<u64>)
    requires
        control.wf(),
        control.short == Window::empty(),
        control.long == Window::empty(),
    ensures
        frames.len() < RAISE_AFTER_FRAMES ==> {
            &&& observed_all(control, frames).current == control.current
            &&& observed_all(control, frames).short.frames == frames.len()
            &&& observed_all(control, frames).long.frames == frames.len()
        },
        frames.len() < LOWER_AFTER_FRAMES ==> {
            &&& observed_all(control, frames).current >= control.current
            &&& observed_all(control, frames).long.frames <= frames.len()
        },
    decreases frames.len(),
{
    if frames.len() > 0 {
        lemma_evidence_is_needed(control, frames.drop_last());
        lemma_rate_stays_in_range(control, frames.drop_last());
    }
}

} // verus!
