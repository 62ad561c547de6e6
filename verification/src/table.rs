//! The keyframe table of one plugin instance, and how it is baked.
//!
//! Baking turns what the host knows of each parameter into one series per
//! tag. A parameter that the host does not animate gives a single keyframe
//! at time zero. An animated one is either sampled at the start of every
//! frame, or taken over keyframe by keyframe with each host time turned
//! into microseconds. Every value is divided by the scale of its tag.

use crate::fixed::{div_round, lemma_round_step, ratio, saturate, signed_saturated, Fixed};
use crate::keyframes::{
    ascending, interpolate, series_of, set_in, value_in, Keyframe, KeyframeType, TAG_COUNT,
};
use crate::time::TimeType;
use vstd::prelude::*;

verus! {

/// One series of keyframes per tag.
pub struct KeyframeTable {
    rows: Vec<Vec<Keyframe>>,
}

impl KeyframeTable {
    /// There is one row per tag, and every row is in ascending order of time.
    pub closed spec fn wf(&self) -> bool {
        &&& self.rows@.len() == TAG_COUNT
        &&& forall|r: int| 0 <= r < TAG_COUNT ==> ascending(#[trigger] self.rows@[r]@)
    }

    /// The series of `tag`: the map from keyframe times to values.
    pub closed spec fn series(&self, tag: KeyframeType) -> Map<int, Fixed> {
        series_of(self.rows@[tag.spec_index()]@)
    }

    /// The keyframes of `tag` in ascending order of time.
    pub closed spec fn row(&self, tag: KeyframeType) -> Seq<Keyframe> {
        self.rows@[tag.spec_index()]@
    }

    /// A table without keyframes.
    pub fn new() -> (table: Self)
        ensures
            table.wf(),
            forall|tag: KeyframeType| #[trigger] table.series(tag) == Map::<int, Fixed>::empty(),
            forall|tag: KeyframeType| #[trigger] table.row(tag).len() == 0,
    {
        let mut rows: Vec<Vec<Keyframe>> = Vec::new();
        let mut r: usize = 0;
        while r < TAG_COUNT
            invariant
                r <= TAG_COUNT,
                rows@.len() == r,
                forall|k: int| 0 <= k < r ==> (#[trigger] rows@[k])@.len() == 0,
            decreases TAG_COUNT - r,
        {
            rows.push(Vec::new());
            r = r + 1;
        }
        let table = KeyframeTable { rows };
        assert forall|tag: KeyframeType| #[trigger]
            table.series(tag) == Map::<int, Fixed>::empty() by {
            assert(table.rows@[tag.spec_index()]@.len() == 0);
            assert(table.series(tag) =~= Map::<int, Fixed>::empty());
        }
        assert forall|tag: KeyframeType| #[trigger] table.row(tag).len() == 0 by {
            assert(table.rows@[tag.spec_index()]@.len() == 0);
        }
        table
    }

    /// Sets the value of `tag` at `timestamp_us`. A keyframe at that time is
    /// replaced; every other keyframe, of this tag and of the others, stays.
    pub fn set(&mut self, tag: KeyframeType, timestamp_us: i64, value: Fixed)
        requires
            old(self).wf(),
        ensures
            final(self).wf(),
            final(self).series(tag) == old(self).series(tag).insert(timestamp_us as int, value),
            forall|other: KeyframeType|
                other != tag ==> #[trigger] final(self).series(other) == old(self).series(other),
    {
        let r: usize = tag.index();
        let ghost before = self.rows@;
        let mut row: Vec<Keyframe> = Vec::new();
        std::mem::swap(&mut row, &mut self.rows[r]);
        set_in(&mut row, Keyframe { timestamp_us, value });
        std::mem::swap(&mut row, &mut self.rows[r]);
        proof {
            assert forall|k: int| 0 <= k < TAG_COUNT && k != r implies #[trigger] self.rows@[k]
                == before[k] by {}
            assert forall|other: KeyframeType| other != tag implies #[trigger] self.series(other)
                == old(self).series(other) by {
                assert(other.spec_index() != r);
            }
        }
    }

    /// The value of `tag` at `timestamp_us`, interpolated between keyframes.
    pub fn value_at(&self, tag: KeyframeType, timestamp_us: i64) -> (value: Option<Fixed>)
        requires
            self.wf(),
        ensures
            value == interpolate(self.series(tag), timestamp_us as int),
    {
        value_in(&self.rows[tag.index()], timestamp_us)
    }

    /// The keyframes of `tag`, in ascending order of time.
    pub fn keyframes(&self, tag: KeyframeType) -> (keys: Vec<Keyframe>)
        requires
            self.wf(),
        ensures
            keys@ == self.row(tag),
            ascending(keys@),
            series_of(keys@) == self.series(tag),
    {
        self.rows[tag.index()].clone()
    }

    /// The number of keyframes of `tag`.
    pub fn len(&self, tag: KeyframeType) -> (n: usize)
        requires
            self.wf(),
        ensures
            n == self.row(tag).len(),
    {
        self.rows[tag.index()].len()
    }
}

/// What the host knows of one parameter when a table is baked.
pub enum TagSource {
    /// The parameter is not animated. The value, if it could be read.
    Constant(Option<Fixed>),
    /// The parameter is animated and was sampled at the start of every frame,
    /// from frame zero on. A frame whose value could not be read holds
    /// nothing.
    Dense(Vec<Option<Fixed>>),
    /// The parameter is animated and the host's own keyframes are taken over.
    Sparse(Vec<(TimeType, Fixed)>),
}

/// The host's value `v` in the engine's unit.
pub open spec fn scaled(v: Fixed, scale: int) -> Fixed {
    Fixed { micros: saturate(ratio(v.micros as int, scale)) }
}

/// The microseconds at which frame number `frame` starts.
pub open spec fn frame_start(frame: int, fps: Fixed) -> i64 {
    saturate(ratio(frame * 1_000_000_000_000, fps.micros as int))
}

/// The series of a parameter that is not animated: its value at time zero.
pub open spec fn baked_constant(value: Option<Fixed>, scale: int) -> Map<int, Fixed> {
    match value {
        Some(v) => Map::<int, Fixed>::empty().insert(0, scaled(v, scale)),
        None => Map::<int, Fixed>::empty(),
    }
}

/// The series of a parameter sampled at every frame: frame after frame, the
/// value that was read is set at the start of its frame.
pub open spec fn baked_dense(samples: Seq<Option<Fixed>>, fps: Fixed, scale: int) -> Map<
    int,
    Fixed,
>
    decreases samples.len(),
{
    if samples.len() == 0 {
        Map::<int, Fixed>::empty()
    } else {
        let earlier = baked_dense(samples.drop_last(), fps, scale);
        match samples.last() {
            Some(v) => earlier.insert(
                frame_start(samples.len() - 1, fps) as int,
                scaled(v, scale),
            ),
            None => earlier,
        }
    }
}

/// The series of a parameter taken over from the host's keyframes: keyframe
/// after keyframe, the value is set at the keyframe's time in microseconds.
pub open spec fn baked_sparse(keys: Seq<(TimeType, Fixed)>, fps: Fixed, scale: int) -> Map<
    int,
    Fixed,
>
    decreases keys.len(),
{
    if keys.len() == 0 {
        Map::<int, Fixed>::empty()
    } else {
        baked_sparse(keys.drop_last(), fps, scale).insert(
            keys.last().0.spec_micros(fps) as int,
            scaled(keys.last().1, scale),
        )
    }
}

impl TagSource {
    /// Every host keyframe names a point in time.
    pub open spec fn is_definite(&self) -> bool {
        match self {
            TagSource::Sparse(keys) => forall|i: int|
                0 <= i < keys@.len() ==> (#[trigger] keys@[i]).0.is_definite(),
            _ => true,
        }
    }

    /// The series that baking makes of this source.
    pub open spec fn baked(&self, fps: Fixed, scale: int) -> Map<int, Fixed> {
        match self {
            TagSource::Constant(value) => baked_constant(*value, scale),
            TagSource::Dense(samples) => baked_dense(samples@, fps, scale),
            TagSource::Sparse(keys) => baked_sparse(keys@, fps, scale),
        }
    }
}

/// The microseconds at which frame number `frame` starts at `fps` frames per
/// second.
pub fn frame_start_us(frame: usize, fps: Fixed) -> (us: i64)
    ensures
        us == frame_start(frame as int, fps),
{
    let p: u128 = (frame as u128) * 1_000_000_000_000;
    if fps.micros == 0 {
        if p == 0 {
            0
        } else {
            i64::MAX
        }
    } else {
        let negative: bool = fps.micros < 0;
        let d: u128 = if negative {
            (-(fps.micros as i128)) as u128
        } else {
            fps.micros as u128
        };
        let q: u128 = div_round(p, d);
        proof {
            if p == 0 {
                lemma_round_step(0, d as int, 0, 0);
            }
        }
        signed_saturated(negative, q)
    }
}

/// Bakes `source` into the series of `tag`, which must be empty.
pub fn bake_tag(table: &mut KeyframeTable, tag: KeyframeType, source: &TagSource, fps: Fixed)
    requires
        old(table).wf(),
        old(table).series(tag) == Map::<int, Fixed>::empty(),
        source.is_definite(),
    ensures
        final(table).wf(),
        final(table).series(tag) == source.baked(fps, tag.spec_scale()),
        forall|other: KeyframeType|
            other != tag ==> #[trigger] final(table).series(other) == old(table).series(other),
{
    let scale: i64 = tag.scale();
    match source {
        TagSource::Constant(value) => {
            match value {
                Some(v) => {
                    table.set(tag, 0, v.divided_by(scale));
                },
                None => {},
            }
        },
        TagSource::Dense(samples) => {
            let n: usize = samples.len();
            let mut t: usize = 0;
            while t < n
                invariant
                    table.wf(),
                    n == samples@.len(),
                    t <= n,
                    scale == tag.spec_scale(),
                    table.series(tag) == baked_dense(samples@.take(t as int), fps, scale as int),
                    forall|other: KeyframeType|
                        other != tag ==> #[trigger] table.series(other) == old(table).series(
                            other,
                        ),
                decreases n - t,
            {
                proof {
                    assert(samples@.take(t + 1).drop_last() =~= samples@.take(t as int));
                    assert(samples@.take(t + 1).last() == samples@[t as int]);
                }
                match samples[t] {
                    Some(v) => {
                        let us: i64 = frame_start_us(t, fps);
                        table.set(tag, us, v.divided_by(scale));
                    },
                    None => {},
                }
                t = t + 1;
            }
            assert(samples@.take(n as int) =~= samples@);
        },
        TagSource::Sparse(keys) => {
            let n: usize = keys.len();
            let mut k: usize = 0;
            while k < n
                invariant
                    table.wf(),
                    n == keys@.len(),
                    k <= n,
                    scale == tag.spec_scale(),
                    forall|i: int| 0 <= i < keys@.len() ==> (#[trigger] keys@[i]).0.is_definite(),
                    table.series(tag) == baked_sparse(keys@.take(k as int), fps, scale as int),
                    forall|other: KeyframeType|
                        other != tag ==> #[trigger] table.series(other) == old(table).series(
                            other,
                        ),
                decreases n - k,
            {
                proof {
                    assert(keys@.take(k + 1).drop_last() =~= keys@.take(k as int));
                    assert(keys@.take(k + 1).last() == keys@[k as int]);
                }
                let us: i64 = keys[k].0.to_micros(fps);
                table.set(tag, us, keys[k].1.divided_by(scale));
                k = k + 1;
            }
            assert(keys@.take(n as int) =~= keys@);
        },
    }
}

/// The sources are one per tag, in the order of the tags, and every host
/// keyframe in them names a point in time.
pub open spec fn sources_ok(sources: Seq<TagSource>) -> bool {
    &&& sources.len() == TAG_COUNT
    &&& forall|i: int| 0 <= i < sources.len() ==> (#[trigger] sources[i]).is_definite()
}

/// Whether `table` is what baking makes of `sources`.
pub open spec fn is_baked(table: &KeyframeTable, sources: Seq<TagSource>, fps: Fixed) -> bool {
    &&& table.wf()
    &&& forall|tag: KeyframeType| #[trigger]
        table.series(tag) == sources[tag.spec_index()].baked(fps, tag.spec_scale())
}

/// Bakes a table from one source per tag.
pub fn bake(sources: &Vec<TagSource>, fps: Fixed) -> (table: KeyframeTable)
    requires
        sources_ok(sources@),
    ensures
        is_baked(&table, sources@, fps),
{
    let mut table = KeyframeTable::new();
    let mut i: usize = 0;
    while i < TAG_COUNT
        invariant
            i <= TAG_COUNT,
            table.wf(),
            sources_ok(sources@),
            forall|tag: KeyframeType|
                tag.spec_index() < i ==> #[trigger] table.series(tag) == sources@[tag.spec_index()].baked(
                    fps,
                    tag.spec_scale(),
                ),
            forall|tag: KeyframeType|
                tag.spec_index() >= i ==> #[trigger] table.series(tag) == Map::<
                    int,
                    Fixed,
                >::empty(),
        decreases TAG_COUNT - i,
    {
        match KeyframeType::from_index(i) {
            Some(tag) => {
                let ghost before = table;
                bake_tag(&mut table, tag, &sources[i], fps);
                proof {
                    assert forall|other: KeyframeType|
                        other.spec_index() < i + 1 implies #[trigger] table.series(other)
                        == sources@[other.spec_index()].baked(fps, other.spec_scale()) by {
                        if other.spec_index() == i {
                            assert(other == tag);
                        } else {
                            assert(other != tag);
                            assert(table.series(other) == before.series(other));
                        }
                    }
                    assert forall|other: KeyframeType|
                        other.spec_index() >= i + 1 implies #[trigger] table.series(other)
                        == Map::<int, Fixed>::empty() by {
                        assert(other != tag);
                        assert(table.series(other) == before.series(other));
                    }
                }
            },
            None => {},
        }
        i = i + 1;
    }
    table
}

/// The keyframe state that an instance shares with its engine objects.
pub struct KeyframableParams {
    /// Whether the engine's own keyframes win over the host's.
    pub use_gyroflows_keyframes: bool,
    /// The table baked from the host's parameters.
    pub cached_keyframes: KeyframeTable,
}

impl KeyframableParams {
    /// The answer the provider owes the engine: nothing, when the engine's
    /// own keyframes are to win and the engine has some for the tag; else
    /// the value of the table.
    pub open spec fn provided(
        &self,
        tag: KeyframeType,
        timestamp_us: int,
        keyframed_internally: bool,
    ) -> Option<Fixed> {
        if self.use_gyroflows_keyframes && keyframed_internally {
            None
        } else {
            interpolate(self.cached_keyframes.series(tag), timestamp_us)
        }
    }

    /// The state of a fresh instance: the host's keyframes win, and the table
    /// is empty.
    pub fn new() -> (state: Self)
        ensures
            !state.use_gyroflows_keyframes,
            state.cached_keyframes.wf(),
            forall|tag: KeyframeType| #[trigger]
                state.cached_keyframes.series(tag) == Map::<int, Fixed>::empty(),
    {
        KeyframableParams { use_gyroflows_keyframes: false, cached_keyframes: KeyframeTable::new() }
    }

    /// The provider hook: the value the engine is to use for `tag` at
    /// `timestamp_us`, or nothing when the engine is to use its own.
    pub fn provide(&self, tag: KeyframeType, timestamp_us: i64, keyframed_internally: bool) -> (value:
        Option<Fixed>)
        requires
            self.cached_keyframes.wf(),
        ensures
            value == self.provided(tag, timestamp_us as int, keyframed_internally),
    {
        if self.use_gyroflows_keyframes && keyframed_internally {
            None
        } else {
            self.cached_keyframes.value_at(tag, timestamp_us)
        }
    }

    /// A copy of the state.
    pub fn duplicate(&self) -> (copy: Self)
        requires
            self.cached_keyframes.wf(),
        ensures
            copy.cached_keyframes.wf(),
            copy.use_gyroflows_keyframes == self.use_gyroflows_keyframes,
            forall|tag: KeyframeType| #[trigger]
                copy.cached_keyframes.series(tag) == self.cached_keyframes.series(tag),
    {
        let mut table = KeyframeTable::new();
        let mut i: usize = 0;
        while i < TAG_COUNT
            invariant
                i <= TAG_COUNT,
                table.wf(),
                self.cached_keyframes.wf(),
                table.rows@.len() == TAG_COUNT,
                forall|r: int| 0 <= r < i ==> #[trigger] table.rows@[r]@ == self.cached_keyframes.rows@[r]@,
            decreases TAG_COUNT - i,
        {
            let ghost before = table.rows@;
            let mut row: Vec<Keyframe> = self.cached_keyframes.rows[i].clone();
            std::mem::swap(&mut row, &mut table.rows[i]);
            proof {
                assert forall|r: int| 0 <= r < TAG_COUNT && r != i implies #[trigger] table.rows@[r]
                    == before[r] by {}
            }
            i = i + 1;
        }
        KeyframableParams {
            use_gyroflows_keyframes: self.use_gyroflows_keyframes,
            cached_keyframes: table,
        }
    }
}

} // verus!
