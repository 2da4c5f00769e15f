use vstd::prelude::*;

verus! {

/// Upper bound of a frame's time step: 100 ms, in microseconds.
pub const MAX_TIME_DELTA: i64 = 100_000;

/// Time step of the context built at creation: 1 ms, in microseconds.
pub const CREATE_TIME_DELTA: i64 = 1_000;

/// A raw time step bounded above by `MAX_TIME_DELTA`; no lower bound applies.
pub open spec fn clamped(raw: int) -> int {
    if raw <= MAX_TIME_DELTA {
        raw
    } else {
        MAX_TIME_DELTA as int
    }
}

/// Per-frame timing. Times are host times in microseconds.
#[derive(Clone, Copy, Debug, PartialEq, Eq, Structural)]
pub struct CanvasContext {
    pub width: u32,
    pub height: u32,
    pub time: i64,
    pub time_delta: i64,
}

/// Bounds a single abnormally long frame: `min(raw, MAX_TIME_DELTA)`.
pub fn clamp_delta(raw: i64) -> (r: i64)
    ensures
        r == clamped(raw as int),
{
    if raw <= MAX_TIME_DELTA {
        raw
    } else {
        MAX_TIME_DELTA
    }
}

impl CanvasContext {
    /// The context handed to `create`: no earlier frame exists, so the time
    /// step is fixed at `CREATE_TIME_DELTA`.
    pub fn at_create(width: u32, height: u32, time: i64) -> (r: CanvasContext)
        ensures
            r == (CanvasContext { width, height, time, time_delta: CREATE_TIME_DELTA }),
    {
        CanvasContext { width, height, time, time_delta: CREATE_TIME_DELTA }
    }

    /// The context of one frame, with the host's time step clamped.
    pub fn for_frame(width: u32, height: u32, time: i64, raw_delta: i64) -> (r: CanvasContext)
        ensures
            r.width == width,
            r.height == height,
            r.time == time,
            r.time_delta == clamped(raw_delta as int),
            r.time_delta <= MAX_TIME_DELTA,
    {
        CanvasContext { width, height, time, time_delta: clamp_delta(raw_delta) }
    }
}

} // verus!
