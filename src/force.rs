use vstd::prelude::*;
use crate::timers::FrameCount;
use crate::vector::{scale_by, scale_fixed, Vec2i};

verus! {

/// How a temporary force fades: the easing curve from 1 down to 0 over `duration`
/// ticks, given by its value at each tick.
///
/// `samples[k]` is the curve's value at `t = k / duration`, as a fraction of
/// [`crate::vector::FIXED_ONE`].
#[derive(Debug, Clone)]
pub struct ForceDecayCurve {
    pub duration: FrameCount,
    pub samples: Vec<i64>,
}

impl ForceDecayCurve {
    /// A curve of non-zero duration holds one sample per tick from 0 to `duration`.
    pub open spec fn wf(&self) -> bool {
        self.duration.0 == 0 || self.samples@.len() == self.duration.0 + 1
    }
}

/// A force that fades out over time, such as the horizontal kick of a wall jump.
#[derive(Debug, Clone, Copy, PartialEq, Eq, Structural)]
pub struct TemporaryForce {
    pub age: FrameCount,
    pub max: Vec2i,
}

/// Whether a force of the given age has run its course on `curve` (or the curve
/// has zero duration).
pub open spec fn force_expired(age: FrameCount, curve: ForceDecayCurve) -> bool {
    age.0 > curve.duration.0 || curve.duration.0 == 0
}

/// The value of a force with peak `max` and the given age on `curve`.
pub open spec fn force_value(age: FrameCount, max: Vec2i, curve: ForceDecayCurve) -> Vec2i {
    if force_expired(age, curve) {
        Vec2i { x: 0, y: 0 }
    } else {
        let s = curve.samples@[age.0 as int];
        Vec2i { x: scale_by(max.x as int, s as int) as i64, y: scale_by(max.y as int, s as int) as i64 }
    }
}

impl Default for TemporaryForce {
    fn default() -> (r: TemporaryForce)
        ensures
            r.age.0 == 0,
            r.max == (Vec2i { x: 0, y: 0 }),
    {
        TemporaryForce { age: FrameCount(0), max: Vec2i { x: 0, y: 0 } }
    }
}

impl TemporaryForce {
    /// The current value: zero once the force has expired or on a zero-duration curve,
    /// otherwise `max` scaled by the curve's value at this age.
    pub fn eval(&self, curve: &ForceDecayCurve) -> (r: Vec2i)
        requires
            curve.wf(),
        ensures
            r == force_value(self.age, self.max, *curve),
            r.in_range(),
    {
        if self.age.0 > curve.duration.0 || curve.duration.0 == 0 {
            Vec2i { x: 0, y: 0 }
        } else {
            let s = curve.samples[self.age.0];
            Vec2i { x: scale_fixed(self.max.x, s), y: scale_fixed(self.max.y, s) }
        }
    }

    /// Age the force by one tick (saturating).
    pub fn tick(&mut self)
        ensures
            final(self).max == old(self).max,
            final(self).age.0 == if old(self).age.0 == usize::MAX { usize::MAX as int } else { old(self).age.0 + 1 },
    {
        self.age.increment();
    }

    /// Restart the force at its peak value `max`.
    pub fn reset(&mut self, max: Vec2i)
        ensures
            final(self).max == max,
            final(self).age.0 == 0,
    {
        self.max = max;
        self.age = FrameCount(0);
    }
}

/// An expired force (or one on a zero-duration curve) is zero; a fresh one is its peak
/// scaled by the curve's first sample.
pub proof fn lemma_force_bounds_of_life(f: TemporaryForce, curve: ForceDecayCurve)
    requires
        curve.wf(),
    ensures
        (f.age.0 > curve.duration.0 || curve.duration.0 == 0) ==> force_value(f.age, f.max, curve)
            == (Vec2i { x: 0, y: 0 }),
        (f.age.0 == 0 && curve.duration.0 > 0) ==> force_value(f.age, f.max, curve) == (Vec2i {
            x: scale_by(f.max.x as int, curve.samples@[0] as int) as i64,
            y: scale_by(f.max.y as int, curve.samples@[0] as int) as i64,
        }),
{
}

} // verus!
