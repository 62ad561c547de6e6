//! Baking the keyframe table of an instance from the host's parameters.

use crate::fixed::Fixed;
use crate::instance::GyroflowPluginBaseInstance;
use crate::keyframes::{KeyframeType, TAG_COUNT};
use crate::port::GyroflowPluginParams;
use crate::table::{bake, frame_start_us, is_baked, sources_ok, KeyframableParams, TagSource};
use crate::time::TimeType;
use vstd::prelude::*;

verus! {

/// Whether every source has the shape that the mode of baking asks for: an
/// animated parameter is sampled at each of `num_frames` frames when every
/// frame is baked, and taken over keyframe by keyframe when not.
pub open spec fn sources_fit(sources: Seq<TagSource>, every_frame: bool, num_frames: usize) -> bool {
    forall|i: int|
        0 <= i < sources.len() ==> match #[trigger] sources[i] {
            TagSource::Constant(_) => true,
            TagSource::Dense(samples) => every_frame && samples@.len() == num_frames,
            TagSource::Sparse(_) => !every_frame,
        }
}

/// The host's keyframes that name a point in time; one that names none is
/// left out.
pub fn definite_keys(keys: Vec<(TimeType, Fixed)>) -> (kept: Vec<(TimeType, Fixed)>)
    ensures
        kept@ == keys@.filter(|k: (TimeType, Fixed)| k.0.is_definite()),
        forall|i: int| 0 <= i < kept@.len() ==> (#[trigger] kept@[i]).0.is_definite(),
{
    let ghost keep = |k: (TimeType, Fixed)| k.0.is_definite();
    let mut kept: Vec<(TimeType, Fixed)> = Vec::new();
    let n: usize = keys.len();
    let mut i: usize = 0;
    proof {
        assert(keys@.take(0).filter(keep) =~= Seq::<(TimeType, Fixed)>::empty()) by {
            reveal(Seq::filter);
        }
    }
    while i < n
        invariant
            n == keys@.len(),
            i <= n,
            keep == |k: (TimeType, Fixed)| k.0.is_definite(),
            kept@ == keys@.take(i as int).filter(keep),
            forall|j: int| 0 <= j < kept@.len() ==> (#[trigger] kept@[j]).0.is_definite(),
        decreases n - i,
    {
        proof {
            assert(keys@.take(i + 1).drop_last() =~= keys@.take(i as int));
            assert(keys@.take(i + 1).last() == keys@[i as int]);
            reveal(Seq::filter);
        }
        let key = keys[i];
        let definite = match key.0 {
            TimeType::FrameOrMicrosecond((None, None)) => false,
            _ => true,
        };
        if definite {
            kept.push(key);
        }
        i = i + 1;
    }
    assert(keys@.take(n as int) =~= keys@);
    kept
}

/// Reads from the host what it knows of the parameter behind each tag.
pub fn read_sources<P: GyroflowPluginParams>(
    params: &P,
    every_frame: bool,
    num_frames: usize,
    fps: Fixed,
) -> (sources: Vec<TagSource>)
    ensures
        sources_ok(sources@),
        sources_fit(sources@, every_frame, num_frames),
{
    let mut sources: Vec<TagSource> = Vec::new();
    let mut i: usize = 0;
    while i < TAG_COUNT
        invariant
            i <= TAG_COUNT,
            sources@.len() == i,
            forall|k: int| 0 <= k < sources@.len() ==> (#[trigger] sources@[k]).is_definite(),
            sources_fit(sources@, every_frame, num_frames),
        decreases TAG_COUNT - i,
    {
        let param = match KeyframeType::from_index(i) {
            Some(tag) => tag.param(),
            None => crate::params::Params::Fov,
        };
        let source = if params.is_keyframed(param) {
            if every_frame {
                let mut samples: Vec<Option<Fixed>> = Vec::new();
                let mut t: usize = 0;
                while t < num_frames
                    invariant
                        t <= num_frames,
                        samples@.len() == t,
                    decreases num_frames - t,
                {
                    let time = TimeType::FrameOrMicrosecond(
                        (Some(Fixed::from_count(t)), Some(frame_start_us(t, fps))),
                    );
                    match params.get_f64_at_time(param, time) {
                        Ok(v) => {
                            samples.push(Some(v));
                        },
                        Err(_) => {
                            samples.push(None);
                        },
                    }
                    t = t + 1;
                }
                TagSource::Dense(samples)
            } else {
                TagSource::Sparse(definite_keys(params.get_keyframes(param)))
            }
        } else {
            match params.get_f64(param) {
                Ok(v) => TagSource::Constant(Some(v)),
                Err(_) => TagSource::Constant(None),
            }
        };
        sources.push(source);
        i = i + 1;
    }
    sources
}

impl<T> GyroflowPluginBaseInstance<T> {
    /// Bakes the keyframe table anew from the host's parameters and stores
    /// it, together with the choice whose keyframes win, in one step.
    ///
    /// A parameter that the host animates is sampled at the start of each of
    /// `num_frames` frames when the instance bakes every frame, and taken
    /// over keyframe by keyframe otherwise; one that it does not animate is
    /// read once. A value that cannot be read leaves no keyframe. The table
    /// is what `bake` makes of what was read.
    pub fn cache_keyframes<P: GyroflowPluginParams>(
        &mut self,
        params: &P,
        use_gyroflows_keyframes: bool,
        num_frames: usize,
        fps: Fixed,
    )
        ensures
            final(self).managers == old(self).managers,
            final(self).settings() == old(self).settings(),
            final(self).keyframable_params.use_gyroflows_keyframes == use_gyroflows_keyframes,
            final(self).keyframable_params.cached_keyframes.wf(),
            exists|sources: Seq<TagSource>|
                sources_ok(sources) && sources_fit(
                    sources,
                    old(self).cache_keyframes_every_frame,
                    num_frames,
                ) && #[trigger] is_baked(&final(self).keyframable_params.cached_keyframes, sources, fps),
    {
        let sources = read_sources(params, self.cache_keyframes_every_frame, num_frames, fps);
        let table = bake(&sources, fps);
        self.keyframable_params = KeyframableParams {
            use_gyroflows_keyframes,
            cached_keyframes: table,
        };
        assert(is_baked(&self.keyframable_params.cached_keyframes, sources@, fps));
    }
}

} // verus!
