//! Host time, and its conversion to absolute microseconds.
//!
//! Hosts name a point in time by a frame number, by milliseconds, by
//! microseconds, or by a frame number with a microsecond hint. Before a time
//! reaches a keyframe table it is turned into microseconds since the start
//! of the clip.

use crate::fixed::{mul_div, ratio, saturate, saturate32, Fixed};
use vstd::prelude::*;

verus! {

/// A point in time, as a host gives it.
#[derive(Debug, Clone, Copy, PartialEq, Eq)]
pub enum TimeType {
    /// A frame number, possibly fractional.
    Frame(Fixed),
    /// Milliseconds, possibly fractional.
    Milliseconds(Fixed),
    /// Whole microseconds.
    Microseconds(i64),
    /// A frame number, a microsecond count, or both.
    FrameOrMicrosecond((Option<Fixed>, Option<i64>)),
}

/// The microseconds at which frame `frame` starts at `fps` frames per second.
pub open spec fn frame_micros(frame: Fixed, fps: Fixed) -> i64 {
    saturate(ratio(frame.micros as int * 1_000_000, fps.micros as int))
}

/// The number of the whole frame nearest to `timestamp_us` at `fps` frames
/// per second.
pub open spec fn nearest_frame(timestamp_us: i64, fps: Fixed) -> i64 {
    saturate(ratio(timestamp_us as int * fps.micros as int, 1_000_000_000_000))
}

impl TimeType {
    /// Whether the time names a point at all: a frame or a microsecond count
    /// is given.
    pub open spec fn is_definite(self) -> bool {
        !(self matches TimeType::FrameOrMicrosecond((None, None)))
    }

    /// Whether the time carries a frame number.
    pub open spec fn has_frame(self) -> bool {
        self is Frame || self matches TimeType::FrameOrMicrosecond((Some(_), _))
    }

    /// The frame number the time carries.
    pub open spec fn spec_frame(self) -> Fixed {
        match self {
            TimeType::Frame(f) => f,
            TimeType::FrameOrMicrosecond((Some(f), _)) => f,
            _ => Fixed { micros: 0 },
        }
    }

    /// The time in microseconds since the start of the clip, at `fps` frames
    /// per second. A microsecond count wins over a frame number.
    pub open spec fn spec_micros(self, fps: Fixed) -> i64 {
        match self {
            TimeType::Frame(f) => frame_micros(f, fps),
            TimeType::Milliseconds(ms) => saturate(ratio(ms.micros as int, 1000)),
            TimeType::Microseconds(us) => us,
            TimeType::FrameOrMicrosecond((_, Some(us))) => us,
            TimeType::FrameOrMicrosecond((Some(f), None)) => frame_micros(f, fps),
            TimeType::FrameOrMicrosecond((None, None)) => 0,
        }
    }

    /// The time in microseconds since the start of the clip.
    pub fn to_micros(&self, fps: Fixed) -> (us: i64)
        requires
            self.is_definite(),
        ensures
            us == self.spec_micros(fps),
    {
        match self {
            TimeType::Frame(f) => frame_timestamp_us(*f, fps),
            TimeType::Milliseconds(ms) => {
                assert(ms.micros as int * 1 == ms.micros as int);
                mul_div(ms.micros, 1, 1000)
            },
            TimeType::Microseconds(us) => *us,
            TimeType::FrameOrMicrosecond((_, Some(us))) => *us,
            TimeType::FrameOrMicrosecond((Some(f), None)) => frame_timestamp_us(*f, fps),
            TimeType::FrameOrMicrosecond((None, None)) => 0,
        }
    }
}

/// The microseconds at which frame `frame` starts at `fps` frames per second.
pub fn frame_timestamp_us(frame: Fixed, fps: Fixed) -> (us: i64)
    ensures
        us == frame_micros(frame, fps),
{
    mul_div(frame.micros, 1_000_000, fps.micros)
}

/// The number of the whole frame nearest to `timestamp_us`.
pub fn frame_at_timestamp(timestamp_us: i64, fps: Fixed) -> (frame: i64)
    ensures
        frame == nearest_frame(timestamp_us, fps),
{
    mul_div(timestamp_us, fps.micros, 1_000_000_000_000)
}

/// The frame number that `time` carries.
pub fn frame_from_timetype(time: TimeType) -> (frame: Fixed)
    requires
        time.has_frame(),
    ensures
        frame == time.spec_frame(),
{
    match time {
        TimeType::Frame(f) => f,
        TimeType::FrameOrMicrosecond((Some(f), _)) => f,
        _ => Fixed { micros: 0 },
    }
}

/// The frame of `time` in ticks, at `ticks_per_frame` ticks a frame.
pub fn ticks_from_timetype(time: TimeType, ticks_per_frame: i64) -> (ticks: i64)
    requires
        time.has_frame(),
    ensures
        ticks == saturate(
            ratio(time.spec_frame().micros as int * ticks_per_frame as int, 1_000_000),
        ),
{
    let frame = frame_from_timetype(time);
    mul_div(frame.micros, ticks_per_frame, 1_000_000)
}

/// The frame of `time` in host time units, at `time_step` units a frame.
pub fn ae_time_from_timetype(time: TimeType, time_step: i32, _time_scale: u32) -> (units: i32)
    requires
        time.has_frame(),
    ensures
        units == saturate32(
            ratio(time.spec_frame().micros as int * time_step as int, 1_000_000),
        ),
{
    let frame = frame_from_timetype(time);
    let wide: i64 = mul_div(frame.micros, time_step as i64, 1_000_000);
    if wide > 0x7fff_ffff {
        0x7fff_ffff
    } else if wide < -0x8000_0000 {
        -0x8000_0000
    } else {
        wide as i32
    }
}

} // verus!
