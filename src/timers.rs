use vstd::prelude::*;

verus! {

/// Integer value representing a number of frames, or game "ticks".
/// Can be used to represent a duration, or act as a timer that counts up or down.
#[derive(Debug, Clone, Copy, PartialEq, Eq, Structural, PartialOrd, Ord, Hash)]
pub struct FrameCount(pub usize);

impl Default for FrameCount {
    fn default() -> (r: FrameCount)
        ensures
            r.0 == 0,
    {
        FrameCount(0)
    }
}

impl FrameCount {
    /// Add one to this counter (saturating at `usize::MAX`).
    pub fn increment(&mut self)
        ensures
            final(self).0 == if old(self).0 == usize::MAX { usize::MAX as int } else { old(self).0 + 1 },
    {
        self.0 = self.0.saturating_add(1);
    }

    /// Remove one from this counter (saturating at 0).
    pub fn decrement(&mut self)
        ensures
            final(self).0 == if old(self).0 == 0 { 0 } else { old(self).0 - 1 },
    {
        self.0 = self.0.saturating_sub(1);
    }

    /// Clear the counter, setting its value to 0.
    pub fn reset(&mut self)
        ensures
            final(self).0 == 0,
    {
        self.0 = 0;
    }
}

/// A cooldown timer, "ready" by default.
///
/// After `reset(d)` the timer is not ready again until `tick` has been called `d` times.
#[derive(Debug)]
pub struct Cooldown(FrameCount);

impl Default for Cooldown {
    fn default() -> (r: Cooldown)
        ensures
            r.remaining() == 0,
    {
        Cooldown(FrameCount(0))
    }
}

impl Cooldown {
    /// Number of ticks left before the timer is ready.
    pub closed spec fn remaining(&self) -> nat {
        self.0.0 as nat
    }

    /// Put the associated action "on cooldown" for the given duration.
    pub fn reset(&mut self, duration: FrameCount)
        ensures
            final(self).remaining() == duration.0,
    {
        self.0 = duration;
    }

    /// Advance the timer by one tick.
    pub fn tick(&mut self)
        ensures
            final(self).remaining() == if old(self).remaining() == 0 { 0 } else { (old(self).remaining() - 1) as nat },
            final(self).remaining() == remaining_after_ticks(old(self).remaining(), 1),
    {
        self.0.decrement();
        proof {
            reveal_with_fuel(remaining_after_ticks, 2);
        }
    }

    /// Whether the associated action is ready, i.e. "off cooldown".
    pub fn is_ready(&self) -> (r: bool)
        ensures
            r == (self.remaining() == 0),
    {
        self.0.0 == 0
    }
}

/// Ticks left on a cooldown that had `r` left, after `n` more ticks.
pub open spec fn remaining_after_ticks(r: nat, n: nat) -> nat
    decreases n,
{
    if n == 0 {
        r
    } else if r == 0 {
        remaining_after_ticks(0, (n - 1) as nat)
    } else {
        remaining_after_ticks((r - 1) as nat, (n - 1) as nat)
    }
}

/// After `reset(d)`, the timer stays not ready for exactly `d` ticks, and is ready
/// from then on until it is reset again (a zero duration is ready at once).
pub proof fn lemma_cooldown_ready_after_duration(d: FrameCount, n: nat)
    ensures
        remaining_after_ticks(d.0 as nat, n) == if n >= d.0 { 0 } else { (d.0 - n) as nat },
        remaining_after_ticks(d.0 as nat, n) == 0 <==> n >= d.0,
{
    lemma_remaining_after_ticks(d.0 as nat, n);
}

proof fn lemma_remaining_after_ticks(r: nat, n: nat)
    ensures
        remaining_after_ticks(r, n) == if n >= r { 0 } else { (r - n) as nat },
    decreases n,
{
    if n > 0 {
        if r == 0 {
            lemma_remaining_after_ticks(0, (n - 1) as nat);
        } else {
            lemma_remaining_after_ticks((r - 1) as nat, (n - 1) as nat);
        }
    }
}

/// A boolean flag that remembers how long it has been un-set.
/// Used for coyote time and jump buffering.
#[derive(Debug)]
pub struct CapacitiveFlag {
    value: bool,
    time_since_released: FrameCount,
}

impl Default for CapacitiveFlag {
    fn default() -> (r: CapacitiveFlag)
        ensures
            !r.value(),
            r.time_since_released() == usize::MAX,
    {
        CapacitiveFlag { value: false, time_since_released: FrameCount(usize::MAX) }
    }
}

impl CapacitiveFlag {
    /// The instantaneous value of the flag.
    pub closed spec fn value(&self) -> bool {
        self.value
    }

    /// Ticks since the flag was released (0 while it is set).
    pub closed spec fn time_since_released(&self) -> nat {
        self.time_since_released.0 as nat
    }

    /// Whether the flag is set now, or was set no more than `d` ticks ago.
    pub open spec fn within(&self, d: nat) -> bool {
        self.time_since_released() <= d
    }

    /// The flag after `tick(v)`, as (value, ticks since released).
    pub open spec fn ticked(&self, v: bool) -> (bool, nat) {
        flag_step((self.value(), self.time_since_released()), v)
    }

    /// Set or clear the flag; each tick that clears it (including the first) adds one
    /// to the release timer.
    pub fn tick(&mut self, value: bool)
        ensures
            (final(self).value(), final(self).time_since_released()) == old(self).ticked(value),
    {
        if value {
            self.value = true;
            self.time_since_released = FrameCount(0);
        } else {
            self.time_since_released.increment();
            self.value = false;
        }
    }

    /// Whether the flag is currently set.
    pub fn is_set(&self) -> (r: bool)
        ensures
            r == self.value(),
    {
        self.value
    }

    /// Whether the flag is set now, or has been set at any time in the last `duration` ticks.
    pub fn was_set_within(&self, duration: FrameCount) -> (r: bool)
        ensures
            r == self.within(duration.0 as nat),
    {
        self.time_since_released.0 <= duration.0
    }
}

/// One tick of a flag held as (value, ticks since released): setting it zeroes the
/// count; clearing it adds one to the count (saturating).
pub open spec fn flag_step(s: (bool, nat), v: bool) -> (bool, nat) {
    if v {
        (true, 0)
    } else {
        (false, if s.1 >= usize::MAX { usize::MAX as nat } else { s.1 + 1 })
    }
}

/// A flag after the ticks of `history`, in order.
pub open spec fn flag_run(s: (bool, nat), history: Seq<bool>) -> (bool, nat)
    decreases history.len(),
{
    if history.len() == 0 {
        s
    } else {
        flag_step(flag_run(s, history.drop_last()), history.last())
    }
}

/// `was_set_within(0)` holds exactly when the flag is set on this tick.
pub proof fn lemma_flag_within_zero(s: (bool, nat), v: bool)
    ensures
        (flag_step(s, v).1 <= 0) == flag_step(s, v).0,
{
}

/// After one tick that sets the flag and `n` ticks that clear it, `was_set_within(n)`
/// holds and `was_set_within(n - 1)` does not.
pub proof fn lemma_flag_release_window(s: (bool, nat), n: nat)
    requires
        n <= usize::MAX,
    ensures
        n >= 1 ==> flag_run(s, seq![true] + Seq::new(n, |i: int| false)) == (false, n),
        flag_run(s, seq![true] + Seq::new(n, |i: int| false)).1 <= n,
        n >= 1 ==> !(flag_run(s, seq![true] + Seq::new(n, |i: int| false)).1 <= n - 1),
    decreases n,
{
    let h = seq![true] + Seq::new(n, |i: int| false);
    assert(seq![true].drop_last() =~= Seq::<bool>::empty());
    if n == 0 {
        assert(h =~= seq![true]);
        assert(flag_run(s, seq![true]) == (true, 0nat));
    } else {
        let h1 = seq![true] + Seq::new((n - 1) as nat, |i: int| false);
        assert(h.last() == false);
        assert(h.drop_last() =~= h1);
        lemma_flag_release_window(s, (n - 1) as nat);
        if n == 1 {
            assert(h1 =~= seq![true]);
            assert(flag_run(s, h1) == (true, 0nat));
        } else {
            assert(flag_run(s, h1) == (false, (n - 1) as nat));
        }
    }
}

} // verus!
