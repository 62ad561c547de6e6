//! The time of a frame to render, and the speed of a clip frame by frame.

use crate::fixed::{div_round, lemma_round_step, ratio, saturate, signed_saturated, Fixed};
use vstd::prelude::*;

verus! {

/// The number of the frame that `timestamp_us` falls into at `fps` frames
/// per second, for a positive `fps`: the frame that has begun, or the next
/// one when less than a thousandth of a frame is missing to it.
pub open spec fn snapped_frame(timestamp_us: int, fps: Fixed) -> int {
    let n = timestamp_us * fps.micros;
    let d = 1_000_000_000_000int;
    if n >= 0 && (n % d) * 1000 > 999 * d {
        n / d + 1
    } else {
        n / d
    }
}

/// The timestamp `timestamp_us` moved to the start of the frame it falls
/// into, so that it never lies between two frames.
pub open spec fn snapped_micros(timestamp_us: int, fps: Fixed) -> i64 {
    saturate(ratio(snapped_frame(timestamp_us, fps) * 1_000_000_000_000, fps.micros as int))
}

/// The timestamp `timestamp_us` moved to the start of the frame it falls
/// into at `fps` frames per second.
pub fn snap_to_frame(timestamp_us: i64, fps: Fixed) -> (snapped: i64)
    requires
        fps.micros > 0,
    ensures
        snapped == snapped_micros(timestamp_us as int, fps),
{
    let negative: bool = timestamp_us < 0;
    let mt: u128 = if negative {
        (-(timestamp_us as i128)) as u128
    } else {
        timestamp_us as u128
    };
    let f: u128 = fps.micros as u128;
    let d: u128 = 1_000_000_000_000;
    let ghost n: int = timestamp_us as int * fps.micros as int;
    proof {
        let mti: int = mt as int;
        let fi: int = f as int;
        assert(0 <= mti * fi <= 0x8000_0000_0000_0000 * 0x8000_0000_0000_0000) by (nonlinear_arith)
            requires
                0 <= mti <= 0x8000_0000_0000_0000,
                0 <= fi <= 0x8000_0000_0000_0000,
        ;
        let ti: int = timestamp_us as int;
        assert(n == if negative {
            -(mti * fi)
        } else {
            mti * fi
        }) by (nonlinear_arith)
            requires
                n == ti * fi,
                mti == if negative {
                    -ti
                } else {
                    ti
                },
        ;
    }
    let m: u128 = mt * f;
    let q: u128 = m / d;
    let r: u128 = m % d;
    proof {
        vstd::arithmetic::div_mod::lemma_fundamental_div_mod(m as int, d as int);
    }
    // The frame number: the floor of the exact quotient.
    let frame_negative: bool = negative && m > 0;
    let frame: u128 = if !negative {
        if r * 1000 > 999 * d {
            q + 1
        } else {
            q
        }
    } else if r == 0 {
        q
    } else {
        q + 1
    };
    proof {
        let mi: int = m as int;
        let qi: int = q as int;
        let ri: int = r as int;
        let di: int = d as int;
        assert(mi == qi * di + ri) by (nonlinear_arith)
            requires
                mi == di * qi + ri,
        ;
        if negative {
            if ri == 0 {
                assert(n == (-qi) * di) by (nonlinear_arith)
                    requires
                        n == -mi,
                        mi == qi * di + ri,
                        ri == 0,
                ;
                vstd::arithmetic::div_mod::lemma_fundamental_div_mod_converse(n, di, -qi, 0);
            } else {
                assert(n == (-qi - 1) * di + (di - ri)) by (nonlinear_arith)
                    requires
                        n == -mi,
                        mi == qi * di + ri,
                ;
                vstd::arithmetic::div_mod::lemma_fundamental_div_mod_converse(
                    n,
                    di,
                    -qi - 1,
                    di - ri,
                );
            }
            assert(snapped_frame(timestamp_us as int, fps) == -(frame as int));
        } else {
            assert(snapped_frame(timestamp_us as int, fps) == frame as int);
        }
    }
    // The start of that frame, in microseconds.
    proof {
        let fr: int = frame as int;
        let mi: int = m as int;
        let qi: int = q as int;
        let ri: int = r as int;
        let di: int = d as int;
        assert(0 <= fr * di <= mi + di) by (nonlinear_arith)
            requires
                mi == di * qi + ri,
                0 <= ri,
                0 <= qi <= fr <= qi + 1,
                di > 0,
        ;
    }
    let p: u128 = frame * d;
    let back: u128 = div_round(p, f);
    proof {
        if p == 0 {
            lemma_round_step(0, f as int, 0, 0);
        }
    }
    signed_saturated(frame_negative, back)
}

/// What the status line says of a clip that is rendered.
#[derive(Debug, Copy, Clone, PartialEq, Eq, Structural)]
pub enum RenderStatus {
    /// The frame rate of the timeline is not that of the clip.
    FpsMismatch,
    /// The motion data is not synchronized with the video.
    NotSynced,
    /// All is well.
    Ready,
}

/// What the status line says of a clip that is rendered: a frame rate of
/// the timeline that is more than a hundredth off the rate of the clip is
/// named first; then motion data that has neither exact timestamps nor
/// offsets; else all is well.
pub fn render_status(src_fps: Fixed, fps: Fixed, has_accurate_timestamps: bool, has_offsets: bool) -> (status:
    RenderStatus)
    ensures
        status == if src_fps.micros - fps.micros > 10_000 || fps.micros - src_fps.micros > 10_000 {
            RenderStatus::FpsMismatch
        } else if !has_accurate_timestamps && !has_offsets {
            RenderStatus::NotSynced
        } else {
            RenderStatus::Ready
        },
{
    let gap: i128 = (src_fps.micros as i128) - (fps.micros as i128);
    if gap > 10_000 || gap < -10_000 {
        RenderStatus::FpsMismatch
    } else if !has_accurate_timestamps && !has_offsets {
        RenderStatus::NotSynced
    } else {
        RenderStatus::Ready
    }
}

impl RenderStatus {
    /// The text of the status, and its hint.
    pub fn texts(self) -> (texts: (&'static str, &'static str))
        ensures
            self is FpsMismatch ==> texts.0@ == "Timeline fps mismatch!"@ && texts.1@
                == "Timeline frame rate doesn't match the clip frame rate!"@,
            self is NotSynced ==> texts.0@ == "Not synced. Open in Gyroflow"@ && texts.1@
                == "Gyro data is not synced with the video, open the video in Gyroflow and add sync points (eg. by doing autosync)"@,
            self is Ready ==> texts.0@ == "OK"@ && texts.1@ == "OK"@,
    {
        match self {
            RenderStatus::FpsMismatch => (
                "Timeline fps mismatch!",
                "Timeline frame rate doesn't match the clip frame rate!",
            ),
            RenderStatus::NotSynced => (
                "Not synced. Open in Gyroflow",
                "Gyro data is not synced with the video, open the video in Gyroflow and add sync points (eg. by doing autosync)",
            ),
            RenderStatus::Ready => ("OK", "OK"),
        }
    }

    /// Whether the status counts as good.
    pub fn is_ok(self) -> (ok: bool)
        ensures
            ok == (self is Ready),
    {
        matches!(self, RenderStatus::Ready)
    }
}

/// The speed of the clip between two samples of its time remapping, in
/// percent: how far the remapped time moved for the move of the source
/// time, times a hundred.
pub open spec fn speed_percent(source_diff: int, new_diff: int) -> Fixed {
    Fixed { micros: saturate(ratio(new_diff * 100_000_000, source_diff)) }
}

/// Whether a speed is too close to zero to go on: a thousandth of a percent
/// or less, either way.
pub open spec fn stands_still(speed: Fixed) -> bool {
    -1000 <= speed.micros <= 1000
}

/// The scan of the speed of a clip, frame by frame.
///
/// The caller samples the time remapping of the clip at the start of each
/// frame and hands each sample to `step`. The first sample gives the speed
/// of a hundred percent; each later one gives the speed since the sample
/// before. The scan is over as soon as the clip stands still.
pub struct SpeedScan {
    pub speeds: Vec<Fixed>,
    pub previous: Option<(i64, i64)>,
    pub done: bool,
}

impl SpeedScan {
    /// A scan that has seen no sample yet.
    pub fn new() -> (scan: Self)
        ensures
            scan.speeds@.len() == 0,
            scan.previous is None,
            !scan.done,
    {
        SpeedScan { speeds: Vec::new(), previous: None, done: false }
    }

    /// The speeds after a sample: the first sample adds a hundred percent;
    /// a later one adds the speed since the sample before, unless the clip
    /// stands still.
    pub open spec fn speeds_after(
        speeds: Seq<Fixed>,
        previous: Option<(i64, i64)>,
        source: i64,
        remapped: i64,
    ) -> Seq<Fixed> {
        match previous {
            None => speeds.push(Fixed { micros: 100_000_000 }),
            Some(p) => {
                let speed = speed_percent(source - p.0, remapped - p.1);
                if stands_still(speed) {
                    speeds
                } else {
                    speeds.push(speed)
                }
            },
        }
    }

    /// Takes the sample of the next frame: the source time of the frame
    /// and the time it is remapped to, or nothing if the host could not
    /// tell. Returns whether the scan goes on. A sample that is missing
    /// changes nothing; a scan that is over stays over.
    pub fn step(&mut self, source: i64, remapped: Option<i64>) -> (go_on: bool)
        ensures
            go_on == !final(self).done,
            old(self).done || remapped is None ==> *final(self) == *old(self),
            !old(self).done && remapped is Some ==> {
                &&& final(self).speeds@ == Self::speeds_after(
                    old(self).speeds@,
                    old(self).previous,
                    source,
                    remapped->0,
                )
                &&& final(self).done == (old(self).previous matches Some(p) && stands_still(
                    speed_percent(source - p.0, remapped->0 - p.1),
                ))
                &&& final(self).previous == if final(self).done {
                    old(self).previous
                } else {
                    Some((source, remapped->0))
                }
            },
    {
        if self.done {
            return false;
        }
        match remapped {
            None => true,
            Some(now) => {
                match self.previous {
                    None => {
                        self.speeds.push(Fixed { micros: 100_000_000 });
                        self.previous = Some((source, now));
                        true
                    },
                    Some(p) => {
                        let speed = speed_between(source, p.0, now, p.1);
                        if speed.micros >= -1000 && speed.micros <= 1000 {
                            self.done = true;
                            false
                        } else {
                            self.speeds.push(speed);
                            self.previous = Some((source, now));
                            true
                        }
                    },
                }
            },
        }
    }
}

/// The speed of the clip between the samples `(source_before,
/// remapped_before)` and `(source, remapped)`, in percent.
pub fn speed_between(source: i64, source_before: i64, remapped: i64, remapped_before: i64) -> (speed:
    Fixed)
    ensures
        speed == speed_percent(source - source_before, remapped - remapped_before),
{
    let od: i128 = (source as i128) - (source_before as i128);
    let nd: i128 = (remapped as i128) - (remapped_before as i128);
    let mo: u128 = if od < 0 {
        (-od) as u128
    } else {
        od as u128
    };
    let mn: u128 = if nd < 0 {
        (-nd) as u128
    } else {
        nd as u128
    };
    let p: u128 = mn * 100_000_000;
    let product_negative: bool = nd < 0;
    if mo == 0 {
        if p == 0 {
            Fixed { micros: 0 }
        } else if product_negative {
            Fixed { micros: i64::MIN }
        } else {
            Fixed { micros: i64::MAX }
        }
    } else {
        let q: u128 = div_round(p, mo);
        proof {
            if p == 0 {
                lemma_round_step(0, mo as int, 0, 0);
            }
        }
        Fixed { micros: signed_saturated(product_negative != (od < 0), q) }
    }
}

} // verus!
