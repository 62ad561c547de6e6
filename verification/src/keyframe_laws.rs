//! What holds of every series and of every baked table.

use crate::fixed::Fixed;
use crate::keyframes::{
    interpolate, is_ceiling, is_floor, lemma_ceiling, lemma_floor, reaches_ahead, reaches_back,
};
use crate::table::{baked_constant, scaled};
use vstd::prelude::*;

verus! {

/// A series with a single keyframe is a constant: it has the keyframe's
/// value at every time.
pub proof fn law_single_keyframe_is_constant(at: int, value: Fixed, t: int)
    ensures
        interpolate(Map::<int, Fixed>::empty().insert(at, value), t) == Some(value),
{
    let m = Map::<int, Fixed>::empty().insert(at, value);
    assert(m.dom().contains(at));
    assert forall|k: int| #[trigger] m.dom().contains(k) implies k == at by {}
    if at <= t {
        assert(is_floor(m, t, at));
        lemma_floor(m, t, at);
    }
    if at >= t {
        assert(is_ceiling(m, t, at));
        lemma_ceiling(m, t, at);
    }
    if at < t {
        if reaches_ahead(m, t) {
            let k = choose|k: int| #[trigger] m.dom().contains(k) && k >= t;
            assert(k == at);
        }
    }
    if at > t {
        if reaches_back(m, t) {
            let k = choose|k: int| #[trigger] m.dom().contains(k) && k <= t;
            assert(k == at);
        }
    }
}

/// A parameter that the host does not animate bakes to the same value at
/// any two times: its value divided by the scale of its tag.
pub proof fn law_unanimated_bakes_constant(value: Fixed, scale: int, t1: int, t2: int)
    ensures
        interpolate(baked_constant(Some(value), scale), t1) == Some(scaled(value, scale)),
        interpolate(baked_constant(Some(value), scale), t1) == interpolate(
            baked_constant(Some(value), scale),
            t2,
        ),
{
    law_single_keyframe_is_constant(0, scaled(value, scale), t1);
    law_single_keyframe_is_constant(0, scaled(value, scale), t2);
}

/// A series without keyframes has no value at any time.
pub proof fn law_empty_series_has_no_value(t: int)
    ensures
        interpolate(Map::<int, Fixed>::empty(), t) is None,
{
    let m = Map::<int, Fixed>::empty();
    if reaches_back(m, t) {
        let k = choose|k: int| #[trigger] m.dom().contains(k) && k <= t;
        assert(false);
    }
    if reaches_ahead(m, t) {
        let k = choose|k: int| #[trigger] m.dom().contains(k) && k >= t;
        assert(false);
    }
}

/// At the time of a keyframe a series has that keyframe's value.
pub proof fn law_keyframes_are_hit(m: Map<int, Fixed>, t: int)
    requires
        m.dom().contains(t),
    ensures
        interpolate(m, t) == Some(m[t]),
{
    assert(is_floor(m, t, t));
    lemma_floor(m, t, t);
    assert(is_ceiling(m, t, t));
    lemma_ceiling(m, t, t);
}

/// Setting a value at one time does not move the value at the time of any
/// other keyframe.
pub proof fn law_set_keeps_other_keyframes(m: Map<int, Fixed>, at: int, value: Fixed, t: int)
    requires
        m.dom().contains(t),
        t != at,
    ensures
        interpolate(m.insert(at, value), t) == interpolate(m, t),
{
    law_keyframes_are_hit(m, t);
    law_keyframes_are_hit(m.insert(at, value), t);
}

} // verus!
