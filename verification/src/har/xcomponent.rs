//! The rate at which the remote picture is shown.
//!
//! A surface that draws on its own tells the platform which rate it needs, through the
//! component that the application hands over when the surface is loaded.
use vstd::prelude::*;

verus! {

/// Whether a range of rates can be asked for: the expected rate lies in it and is a
/// rate that the platform has.
pub open spec fn valid_range(expected: i32, min: i32, max: i32) -> bool {
    1 <= expected <= 240 && 0 <= min <= expected && expected <= max <= 240
}

/// A range of rates that the platform is asked for.
#[derive(Debug, Clone, Copy, PartialEq, Eq, Structural)]
pub struct ExpectedRateRange {
    /// Lowest rate that the platform may fall back to; zero lets it save power.
    pub min: i32,
    /// Highest rate that the content can use.
    pub max: i32,
    /// The rate that the platform should aim for.
    pub expected: i32,
}

/// The range of rates that the platform is asked for, or the code of the refusal: `-1`
/// for a range that cannot be asked for, `-3` where no component was handed over yet.
pub fn xcomponent_set_frame_rate_range_native(
    attached: bool,
    expected: i32,
    min: i32,
    max: i32,
) -> (r: Result<ExpectedRateRange, i32>)
    ensures
        r == (if !valid_range(expected, min, max) {
            Err(-1i32)
        } else if !attached {
            Err(-3i32)
        } else {
            Ok(ExpectedRateRange { min, max, expected })
        }),
{
    if expected < 1 || expected > 240 || min < 0 || min > expected || max < expected || max > 240 {
        return Err(-1);
    }
    if !attached {
        return Err(-3);
    }
    Ok(ExpectedRateRange { min, max, expected })
}

/// The code of one step of taking the component over: zero where it gave something,
/// `-1` where it gave nothing, and else the code of the platform.
pub open spec fn step_code(status: i32, found: bool) -> int {
    if status != 0 {
        status as int
    } else if found {
        0
    } else {
        -1
    }
}

fn attach_status(status: i32, found: bool) -> (r: i32)
    ensures
        r == step_code(status, found),
{
    if status != 0 {
        status
    } else if found {
        0
    } else {
        -1
    }
}

/// The code of taking the component over: that of the first step that failed, or zero.
/// Only then is the component held. Each step gave a code of the platform, and
/// something or nothing.
pub fn xcomponent_attach(property: (i32, bool), unwrapped: (i32, bool)) -> (r: i32)
    ensures
        r == (if step_code(property.0, property.1) != 0 {
            step_code(property.0, property.1)
        } else {
            step_code(unwrapped.0, unwrapped.1)
        }),
        r == 0 <==> property == (0i32, true) && unwrapped == (0i32, true),
{
    let first: i32 = attach_status(property.0, property.1);
    if first != 0 {
        return first;
    }
    attach_status(unwrapped.0, unwrapped.1)
}

} // verus!
