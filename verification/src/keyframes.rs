//! The keyframe table: one time series of values per parameter tag.
//!
//! A series maps timestamps, in microseconds since the start of the clip, to
//! values. Between two keyframes a value is interpolated linearly, to the
//! nearest millionth; before the first keyframe the series holds its first
//! value, after the last its last. A series with a single keyframe is a
//! constant.

use crate::fixed::{
    div_round, lemma_round_div_monotonic, lemma_round_div_multiple, lemma_round_step, ratio, Fixed,
};
use crate::params::Params;
use vstd::prelude::*;

verus! {

/// The tag of a series: a quantity of the engine that can vary over time.
#[derive(Debug, Copy, Clone, Hash, PartialEq, Eq, Structural)]
pub enum KeyframeType {
    Fov,
    MaxZoom,
    SmoothingParamSmoothness,
    LensCorrectionStrength,
    LockHorizonAmount,
    LockHorizonRoll,
    VideoSpeed,
    VideoRotation,
    AdditionalRotationX,
    AdditionalRotationY,
}

/// How many tags there are.
pub const TAG_COUNT: usize = 10;

impl KeyframeType {
    /// The position of the tag in the list of all tags.
    pub open spec fn spec_index(self) -> int {
        match self {
            KeyframeType::Fov => 0,
            KeyframeType::MaxZoom => 1,
            KeyframeType::SmoothingParamSmoothness => 2,
            KeyframeType::LensCorrectionStrength => 3,
            KeyframeType::LockHorizonAmount => 4,
            KeyframeType::LockHorizonRoll => 5,
            KeyframeType::VideoSpeed => 6,
            KeyframeType::VideoRotation => 7,
            KeyframeType::AdditionalRotationX => 8,
            KeyframeType::AdditionalRotationY => 9,
        }
    }

    /// The host parameter that feeds the tag.
    pub open spec fn spec_param(self) -> Params {
        match self {
            KeyframeType::Fov => Params::Fov,
            KeyframeType::MaxZoom => Params::ZoomLimit,
            KeyframeType::SmoothingParamSmoothness => Params::Smoothness,
            KeyframeType::LensCorrectionStrength => Params::LensCorrectionStrength,
            KeyframeType::LockHorizonAmount => Params::HorizonLockAmount,
            KeyframeType::LockHorizonRoll => Params::HorizonLockRoll,
            KeyframeType::VideoSpeed => Params::VideoSpeed,
            KeyframeType::VideoRotation => Params::Rotation,
            KeyframeType::AdditionalRotationX => Params::AdditionalYaw,
            KeyframeType::AdditionalRotationY => Params::AdditionalPitch,
        }
    }

    /// The factor between the host's value and the engine's: the host shows
    /// percentages for some tags, the engine wants fractions.
    pub open spec fn spec_scale(self) -> int {
        match self {
            KeyframeType::SmoothingParamSmoothness => 100,
            KeyframeType::LensCorrectionStrength => 100,
            KeyframeType::VideoSpeed => 100,
            _ => 1,
        }
    }

    /// The position of the tag in the list of all tags.
    pub fn index(self) -> (i: usize)
        ensures
            i == self.spec_index(),
            i < TAG_COUNT,
    {
        match self {
            KeyframeType::Fov => 0,
            KeyframeType::MaxZoom => 1,
            KeyframeType::SmoothingParamSmoothness => 2,
            KeyframeType::LensCorrectionStrength => 3,
            KeyframeType::LockHorizonAmount => 4,
            KeyframeType::LockHorizonRoll => 5,
            KeyframeType::VideoSpeed => 6,
            KeyframeType::VideoRotation => 7,
            KeyframeType::AdditionalRotationX => 8,
            KeyframeType::AdditionalRotationY => 9,
        }
    }

    /// The tag at position `i` of the list of all tags.
    pub fn from_index(i: usize) -> (tag: Option<KeyframeType>)
        ensures
            tag is Some <==> i < TAG_COUNT,
            tag is Some ==> tag->0.spec_index() == i,
    {
        match i {
            0 => Some(KeyframeType::Fov),
            1 => Some(KeyframeType::MaxZoom),
            2 => Some(KeyframeType::SmoothingParamSmoothness),
            3 => Some(KeyframeType::LensCorrectionStrength),
            4 => Some(KeyframeType::LockHorizonAmount),
            5 => Some(KeyframeType::LockHorizonRoll),
            6 => Some(KeyframeType::VideoSpeed),
            7 => Some(KeyframeType::VideoRotation),
            8 => Some(KeyframeType::AdditionalRotationX),
            9 => Some(KeyframeType::AdditionalRotationY),
            _ => None,
        }
    }

    /// The host parameter that feeds the tag.
    pub fn param(self) -> (param: Params)
        ensures
            param == self.spec_param(),
    {
        match self {
            KeyframeType::Fov => Params::Fov,
            KeyframeType::MaxZoom => Params::ZoomLimit,
            KeyframeType::SmoothingParamSmoothness => Params::Smoothness,
            KeyframeType::LensCorrectionStrength => Params::LensCorrectionStrength,
            KeyframeType::LockHorizonAmount => Params::HorizonLockAmount,
            KeyframeType::LockHorizonRoll => Params::HorizonLockRoll,
            KeyframeType::VideoSpeed => Params::VideoSpeed,
            KeyframeType::VideoRotation => Params::Rotation,
            KeyframeType::AdditionalRotationX => Params::AdditionalYaw,
            KeyframeType::AdditionalRotationY => Params::AdditionalPitch,
        }
    }

    /// The factor between the host's value and the engine's.
    pub fn scale(self) -> (scale: i64)
        ensures
            scale == self.spec_scale(),
    {
        match self {
            KeyframeType::SmoothingParamSmoothness => 100,
            KeyframeType::LensCorrectionStrength => 100,
            KeyframeType::VideoSpeed => 100,
            _ => 1,
        }
    }

    /// The tag that the host parameter `param` feeds, if it feeds one.
    pub fn of_param(param: Params) -> (tag: Option<KeyframeType>)
        ensures
            tag is Some ==> tag->0.spec_param() == param,
            tag is None ==> forall|t: KeyframeType| t.spec_param() != param,
    {
        match param {
            Params::Fov => Some(KeyframeType::Fov),
            Params::ZoomLimit => Some(KeyframeType::MaxZoom),
            Params::Smoothness => Some(KeyframeType::SmoothingParamSmoothness),
            Params::LensCorrectionStrength => Some(KeyframeType::LensCorrectionStrength),
            Params::HorizonLockAmount => Some(KeyframeType::LockHorizonAmount),
            Params::HorizonLockRoll => Some(KeyframeType::LockHorizonRoll),
            Params::VideoSpeed => Some(KeyframeType::VideoSpeed),
            Params::Rotation => Some(KeyframeType::VideoRotation),
            Params::AdditionalYaw => Some(KeyframeType::AdditionalRotationX),
            Params::AdditionalPitch => Some(KeyframeType::AdditionalRotationY),
            _ => None,
        }
    }
}

/// One keyframe: a value at a time.
#[derive(Debug, Copy, Clone, PartialEq, Eq, Structural)]
pub struct Keyframe {
    pub timestamp_us: i64,
    pub value: Fixed,
}

/// The keyframes are in ascending order of time, and no time occurs twice.
pub open spec fn ascending(s: Seq<Keyframe>) -> bool {
    forall|i: int, j: int|
        0 <= i < j < s.len() ==> (#[trigger] s[i]).timestamp_us < (#[trigger] s[j]).timestamp_us
}

/// Whether a keyframe of `s` lies at time `t`.
pub open spec fn has_time(s: Seq<Keyframe>, t: int) -> bool {
    exists|i: int| 0 <= i < s.len() && (#[trigger] s[i]).timestamp_us == t
}

/// The position of the keyframe of `s` at time `t`.
pub open spec fn time_index(s: Seq<Keyframe>, t: int) -> int {
    choose|i: int| 0 <= i < s.len() && (#[trigger] s[i]).timestamp_us == t
}

/// The series that a list of keyframes stands for: the map from each
/// keyframe's time to its value.
pub open spec fn series_of(s: Seq<Keyframe>) -> Map<int, Fixed> {
    Map::new(|t: int| has_time(s, t), |t: int| s[time_index(s, t)].value)
}

/// Whether the series has a keyframe at `t` or earlier.
pub open spec fn reaches_back(m: Map<int, Fixed>, t: int) -> bool {
    exists|k: int| #[trigger] m.dom().contains(k) && k <= t
}

/// Whether the series has a keyframe at `t` or later.
pub open spec fn reaches_ahead(m: Map<int, Fixed>, t: int) -> bool {
    exists|k: int| #[trigger] m.dom().contains(k) && k >= t
}

/// Whether `k` is the time of the last keyframe at `t` or earlier.
pub open spec fn is_floor(m: Map<int, Fixed>, t: int, k: int) -> bool {
    &&& m.dom().contains(k)
    &&& k <= t
    &&& forall|j: int| #[trigger] m.dom().contains(j) && j <= t ==> j <= k
}

/// Whether `k` is the time of the first keyframe at `t` or later.
pub open spec fn is_ceiling(m: Map<int, Fixed>, t: int, k: int) -> bool {
    &&& m.dom().contains(k)
    &&& k >= t
    &&& forall|j: int| #[trigger] m.dom().contains(j) && j >= t ==> j >= k
}

/// The time of the last keyframe at `t` or earlier.
pub open spec fn floor_key(m: Map<int, Fixed>, t: int) -> int {
    choose|k: int| is_floor(m, t, k)
}

/// The time of the first keyframe at `t` or later.
pub open spec fn ceiling_key(m: Map<int, Fixed>, t: int) -> int {
    choose|k: int| is_ceiling(m, t, k)
}

/// The value at `t` on the straight line from `v0` at `t0` to `v1` at `t1`,
/// to the nearest millionth.
pub open spec fn lerp(t0: int, v0: Fixed, t1: int, v1: Fixed, t: int) -> Fixed {
    Fixed { micros: (v0.micros + ratio((v1.micros - v0.micros) * (t - t0), t1 - t0)) as i64 }
}

/// The value of the series `m` at time `t`: nothing for an empty series;
/// the value of the keyframe at `t` if there is one; the first value before
/// the first keyframe and the last value after the last; and between two
/// keyframes the point on the line through them.
pub open spec fn interpolate(m: Map<int, Fixed>, t: int) -> Option<Fixed> {
    if !reaches_back(m, t) && !reaches_ahead(m, t) {
        None
    } else if !reaches_back(m, t) {
        Some(m[ceiling_key(m, t)])
    } else if !reaches_ahead(m, t) {
        Some(m[floor_key(m, t)])
    } else if floor_key(m, t) == ceiling_key(m, t) {
        Some(m[floor_key(m, t)])
    } else {
        Some(
            lerp(
                floor_key(m, t),
                m[floor_key(m, t)],
                ceiling_key(m, t),
                m[ceiling_key(m, t)],
                t,
            ),
        )
    }
}

/// Each keyframe of an ascending list is in the list's series, with its value.
pub proof fn lemma_series_entry(s: Seq<Keyframe>, i: int)
    requires
        ascending(s),
        0 <= i < s.len(),
    ensures
        series_of(s).dom().contains(s[i].timestamp_us as int),
        series_of(s)[s[i].timestamp_us as int] == s[i].value,
{
    let t = s[i].timestamp_us as int;
    assert(has_time(s, t));
    let j = time_index(s, t);
    if j < i {
        assert(s[j].timestamp_us < s[i].timestamp_us);
    } else if i < j {
        assert(s[i].timestamp_us < s[j].timestamp_us);
    }
}

/// A floor is unique, so the one at hand is the one `floor_key` names.
pub proof fn lemma_floor(m: Map<int, Fixed>, t: int, k: int)
    requires
        is_floor(m, t, k),
    ensures
        reaches_back(m, t),
        floor_key(m, t) == k,
{
    let c = floor_key(m, t);
    assert(is_floor(m, t, c));
    assert(m.dom().contains(k) && k <= t);
    assert(m.dom().contains(c) && c <= t);
}

/// A ceiling is unique, so the one at hand is the one `ceiling_key` names.
pub proof fn lemma_ceiling(m: Map<int, Fixed>, t: int, k: int)
    requires
        is_ceiling(m, t, k),
    ensures
        reaches_ahead(m, t),
        ceiling_key(m, t) == k,
{
    let c = ceiling_key(m, t);
    assert(is_ceiling(m, t, c));
    assert(m.dom().contains(k) && k >= t);
    assert(m.dom().contains(c) && c >= t);
}

/// Putting a keyframe with a new time into its place keeps the list
/// ascending and adds one entry to the series.
pub proof fn lemma_series_insert(s: Seq<Keyframe>, pos: int, kf: Keyframe)
    requires
        ascending(s),
        0 <= pos <= s.len(),
        forall|i: int| 0 <= i < pos ==> (#[trigger] s[i]).timestamp_us < kf.timestamp_us,
        forall|i: int| pos <= i < s.len() ==> (#[trigger] s[i]).timestamp_us > kf.timestamp_us,
    ensures
        ascending(s.insert(pos, kf)),
        series_of(s.insert(pos, kf)) == series_of(s).insert(kf.timestamp_us as int, kf.value),
{
    let after = s.insert(pos, kf);
    assert forall|i: int| 0 <= i < after.len() implies #[trigger] after[i] == (if i < pos {
        s[i]
    } else if i == pos {
        kf
    } else {
        s[i - 1]
    }) by {}
    assert(ascending(after)) by {
        assert forall|i: int, j: int| 0 <= i < j < after.len() implies (
        #[trigger] after[i]).timestamp_us < (#[trigger] after[j]).timestamp_us by {
            let si = if i < pos {
                i
            } else {
                i - 1
            };
            let sj = if j < pos {
                j
            } else {
                j - 1
            };
            if i != pos && j != pos {
                assert(s[si].timestamp_us < s[sj].timestamp_us);
            } else if i == pos {
                assert(s[sj].timestamp_us > kf.timestamp_us);
            } else {
                assert(s[si].timestamp_us < kf.timestamp_us);
            }
        }
    }
    let m = series_of(s).insert(kf.timestamp_us as int, kf.value);
    assert forall|t: int| series_of(after).dom().contains(t) == m.dom().contains(t) by {
        if has_time(after, t) {
            let i = time_index(after, t);
            if i < pos {
                assert(s[i].timestamp_us == t);
            } else if i > pos {
                assert(s[i - 1].timestamp_us == t);
            }
        }
        if has_time(s, t) {
            let i = time_index(s, t);
            let k = if i < pos {
                i
            } else {
                i + 1
            };
            assert(after[k].timestamp_us == t);
        }
        if t == kf.timestamp_us {
            assert(after[pos].timestamp_us == t);
        }
    }
    assert forall|t: int| series_of(after).dom().contains(t) implies series_of(after)[t]
        == m[t] by {
        let i = time_index(after, t);
        lemma_series_entry(after, i);
        if i < pos {
            lemma_series_entry(s, i);
        } else if i > pos {
            lemma_series_entry(s, i - 1);
        }
    }
    assert(series_of(after) =~= m);
}

/// Replacing the value of a keyframe keeps the list ascending and changes
/// one entry of the series.
pub proof fn lemma_series_update(s: Seq<Keyframe>, pos: int, kf: Keyframe)
    requires
        ascending(s),
        0 <= pos < s.len(),
        s[pos].timestamp_us == kf.timestamp_us,
    ensures
        ascending(s.update(pos, kf)),
        series_of(s.update(pos, kf)) == series_of(s).insert(kf.timestamp_us as int, kf.value),
{
    let after = s.update(pos, kf);
    assert(ascending(after)) by {
        assert forall|i: int, j: int| 0 <= i < j < after.len() implies (
        #[trigger] after[i]).timestamp_us < (#[trigger] after[j]).timestamp_us by {
            assert(s[i].timestamp_us < s[j].timestamp_us);
        }
    }
    let m = series_of(s).insert(kf.timestamp_us as int, kf.value);
    assert forall|t: int| series_of(after).dom().contains(t) == m.dom().contains(t) by {
        if has_time(after, t) {
            let i = time_index(after, t);
            assert(s[i].timestamp_us == t);
        }
        if has_time(s, t) {
            let i = time_index(s, t);
            assert(after[i].timestamp_us == t);
        }
        if t == kf.timestamp_us {
            assert(after[pos].timestamp_us == t);
        }
    }
    assert forall|t: int| series_of(after).dom().contains(t) implies series_of(after)[t]
        == m[t] by {
        let i = time_index(after, t);
        lemma_series_entry(after, i);
        if i != pos {
            lemma_series_entry(s, i);
        }
    }
    assert(series_of(after) =~= m);
}

/// The value at `t` on the line from `(t0, v0)` to `(t1, v1)`.
pub fn interpolate_between(t0: i64, v0: Fixed, t1: i64, v1: Fixed, t: i64) -> (v: Fixed)
    requires
        t0 <= t <= t1,
        t0 < t1,
    ensures
        v == lerp(t0 as int, v0, t1 as int, v1, t as int),
        v0.micros <= v1.micros ==> v0.micros <= v.micros <= v1.micros,
        v0.micros >= v1.micros ==> v0.micros >= v.micros >= v1.micros,
{
    let rising: bool = v1.micros >= v0.micros;
    let dv: u128 = if rising {
        ((v1.micros as i128) - (v0.micros as i128)) as u128
    } else {
        ((v0.micros as i128) - (v1.micros as i128)) as u128
    };
    let dt: u128 = ((t as i128) - (t0 as i128)) as u128;
    let d: u128 = ((t1 as i128) - (t0 as i128)) as u128;
    proof {
        assert(dv as int * dt as int <= 0xffff_ffff_ffff_ffff * 0xffff_ffff_ffff_ffff)
            by (nonlinear_arith)
            requires
                0 <= dv as int <= 0xffff_ffff_ffff_ffff,
                0 <= dt as int <= 0xffff_ffff_ffff_ffff,
        ;
    }
    let p: u128 = dv * dt;
    let q: u128 = div_round(p, d);
    proof {
        let dvi: int = dv as int;
        let dti: int = dt as int;
        let di: int = d as int;
        assert(0 <= dvi * dti <= dvi * di) by (nonlinear_arith)
            requires
                0 <= dvi,
                0 <= dti <= di,
        ;
        lemma_round_div_monotonic(dvi * dti, dvi * di, di);
        lemma_round_div_multiple(dvi, di);
        assert(q <= dv);
        let n: int = (v1.micros - v0.micros) * (t - t0);
        if rising {
            assert(n == dvi * dti);
        } else {
            assert(n == -(dvi * dti)) by (nonlinear_arith)
                requires
                    n == (v1.micros - v0.micros) * (t - t0),
                    dvi == v0.micros - v1.micros,
                    dti == t - t0,
            ;
            if dvi * dti == 0 {
                lemma_round_step(0, di, 0, 0);
            }
        }
    }
    if rising {
        Fixed { micros: ((v0.micros as i128) + (q as i128)) as i64 }
    } else {
        Fixed { micros: ((v0.micros as i128) - (q as i128)) as i64 }
    }
}

/// The number of leading keyframes of `row` whose time is below `t`, or at
/// most `t` when `inclusive` is set.
fn rank(row: &Vec<Keyframe>, t: i64, inclusive: bool) -> (n: usize)
    requires
        ascending(row@),
    ensures
        n <= row@.len(),
        forall|i: int|
            0 <= i < n ==> (#[trigger] row@[i]).timestamp_us < t || (inclusive
                && row@[i].timestamp_us == t),
        forall|i: int|
            n <= i < row@.len() ==> (#[trigger] row@[i]).timestamp_us > t || (!inclusive
                && row@[i].timestamp_us == t),
{
    let mut lo: usize = 0;
    let mut hi: usize = row.len();
    while lo < hi
        invariant
            ascending(row@),
            lo <= hi <= row@.len(),
            forall|i: int|
                0 <= i < lo ==> (#[trigger] row@[i]).timestamp_us < t || (inclusive
                    && row@[i].timestamp_us == t),
            forall|i: int|
                hi <= i < row@.len() ==> (#[trigger] row@[i]).timestamp_us > t || (!inclusive
                    && row@[i].timestamp_us == t),
        decreases hi - lo,
    {
        let mid: usize = lo + (hi - lo) / 2;
        let at: i64 = row[mid].timestamp_us;
        if at < t || (inclusive && at == t) {
            assert forall|i: int| 0 <= i < mid + 1 implies (#[trigger] row@[i]).timestamp_us < t
                || (inclusive && row@[i].timestamp_us == t) by {
                if i < mid {
                    assert(row@[i].timestamp_us < row@[mid as int].timestamp_us);
                }
            }
            lo = mid + 1;
        } else {
            assert forall|i: int| mid <= i < row@.len() implies (#[trigger] row@[i]).timestamp_us
                > t || (!inclusive && row@[i].timestamp_us == t) by {
                if i > mid {
                    assert(row@[mid as int].timestamp_us < row@[i].timestamp_us);
                }
            }
            hi = mid;
        }
    }
    lo
}

/// The value at `t` of the series that the ascending list `row` stands for.
pub fn value_in(row: &Vec<Keyframe>, t: i64) -> (v: Option<Fixed>)
    requires
        ascending(row@),
    ensures
        v == interpolate(series_of(row@), t as int),
{
    let ghost m = series_of(row@);
    let n: usize = row.len();
    let i: usize = rank(row, t, true);
    proof {
        assert forall|k: int| #[trigger] m.dom().contains(k) implies has_time(row@, k) by {}
    }
    if n == 0 {
        proof {
            if reaches_back(m, t as int) || reaches_ahead(m, t as int) {
                let k = choose|k: int| #[trigger] m.dom().contains(k);
                assert(has_time(row@, k));
            }
        }
        None
    } else if i == 0 {
        proof {
            if reaches_back(m, t as int) {
                let k = choose|k: int| #[trigger] m.dom().contains(k) && k <= t;
                let j = time_index(row@, k);
                assert(row@[j].timestamp_us > t);
            }
            lemma_series_entry(row@, 0);
            assert(is_ceiling(m, t as int, row@[0].timestamp_us as int)) by {
                assert forall|j: int| #[trigger] m.dom().contains(j) && j >= t implies j
                    >= row@[0].timestamp_us by {
                    let x = time_index(row@, j);
                    if x > 0 {
                        assert(row@[0].timestamp_us < row@[x].timestamp_us);
                    }
                }
            }
            lemma_ceiling(m, t as int, row@[0].timestamp_us as int);
        }
        Some(row[0].value)
    } else {
        let before: Keyframe = row[i - 1];
        proof {
            lemma_series_entry(row@, i - 1);
            assert(is_floor(m, t as int, before.timestamp_us as int)) by {
                assert forall|j: int| #[trigger] m.dom().contains(j) && j <= t implies j
                    <= before.timestamp_us by {
                    let x = time_index(row@, j);
                    if x < i - 1 {
                        assert(row@[x].timestamp_us < row@[i - 1].timestamp_us);
                    }
                }
            }
            lemma_floor(m, t as int, before.timestamp_us as int);
        }
        if before.timestamp_us == t {
            proof {
                assert(is_ceiling(m, t as int, t as int));
                lemma_ceiling(m, t as int, t as int);
            }
            Some(before.value)
        } else if i == n {
            proof {
                if reaches_ahead(m, t as int) {
                    let k = choose|k: int| #[trigger] m.dom().contains(k) && k >= t;
                    let j = time_index(row@, k);
                    assert(row@[j].timestamp_us <= t);
                    if j < i - 1 {
                        assert(row@[j].timestamp_us < row@[i - 1].timestamp_us);
                    }
                }
            }
            Some(before.value)
        } else {
            let after: Keyframe = row[i];
            proof {
                lemma_series_entry(row@, i as int);
                assert(row@[i - 1].timestamp_us < row@[i as int].timestamp_us);
                assert(is_ceiling(m, t as int, after.timestamp_us as int)) by {
                    assert forall|j: int| #[trigger] m.dom().contains(j) && j >= t implies j
                        >= after.timestamp_us by {
                        let x = time_index(row@, j);
                        if x > i {
                            assert(row@[i as int].timestamp_us < row@[x].timestamp_us);
                        } else if x < i {
                            if x < i - 1 {
                                assert(row@[x].timestamp_us < row@[i - 1].timestamp_us);
                            }
                        }
                    }
                }
                lemma_ceiling(m, t as int, after.timestamp_us as int);
            }
            Some(interpolate_between(before.timestamp_us, before.value, after.timestamp_us, after.value, t))
        }
    }
}

/// Sets the value at `kf.timestamp_us` in the ascending list `row`.
pub fn set_in(row: &mut Vec<Keyframe>, kf: Keyframe)
    requires
        ascending(old(row)@),
    ensures
        ascending(final(row)@),
        series_of(final(row)@) == series_of(old(row)@).insert(kf.timestamp_us as int, kf.value),
{
    let pos: usize = rank(row, kf.timestamp_us, false);
    if pos < row.len() && row[pos].timestamp_us == kf.timestamp_us {
        proof {
            lemma_series_update(row@, pos as int, kf);
        }
        row.set(pos, kf);
    } else {
        proof {
            lemma_series_insert(row@, pos as int, kf);
        }
        row.insert(pos, kf);
    }
}

} // verus!
