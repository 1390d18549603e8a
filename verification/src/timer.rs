//! Countdown timers over integer microseconds.

use vstd::prelude::*;

verus! {

/// Number of microseconds in one second.
pub const MICROS_PER_SECOND: i64 = 1_000_000;

/// What is left of `remaining` after `elapsed` more microseconds, never going
/// below the smallest representable time.
pub open spec fn remaining_after(remaining: i64, elapsed: u32) -> i64 {
    if remaining - elapsed < i64::MIN {
        i64::MIN
    } else {
        (remaining - elapsed) as i64
    }
}

/// `remaining` pushed back by `extra` microseconds, clamped to the
/// representable range.
pub open spec fn remaining_delayed(remaining: i64, extra: i64) -> i64 {
    if remaining + extra > i64::MAX {
        i64::MAX
    } else if remaining + extra < i64::MIN {
        i64::MIN
    } else {
        (remaining + extra) as i64
    }
}

/// Subtracts one step from a countdown.
pub fn count_down(remaining: i64, elapsed: u32) -> (left: i64)
    ensures
        left == remaining_after(remaining, elapsed),
{
    let e: i64 = elapsed as i64;
    if remaining < i64::MIN + e {
        i64::MIN
    } else {
        remaining - e
    }
}

/// Adds `extra` microseconds to a countdown.
pub fn push_back(remaining: i64, extra: i64) -> (left: i64)
    ensures
        left == remaining_delayed(remaining, extra),
{
    if extra >= 0 {
        if remaining > i64::MAX - extra {
            i64::MAX
        } else {
            remaining + extra
        }
    } else {
        if remaining < i64::MIN - extra {
            i64::MIN
        } else {
            remaining + extra
        }
    }
}

/// A countdown that fires when it reaches zero.
///
/// A looping timer reloads itself with `period` when it fires; a one-shot
/// timer stays expired, and so keeps firing, until it is reset.
#[derive(Clone, Copy, Debug, PartialEq, Eq, Structural)]
pub struct Timer {
    /// Microseconds until the timer fires; due when zero or below.
    pub remaining: i64,
    /// Microseconds the countdown is reloaded with.
    pub period: i64,
    /// Whether the timer reloads itself when it fires.
    pub looping: bool,
}

impl Timer {
    /// Whether the very next update fires, whatever time it is given.
    pub open spec fn is_due(self) -> bool {
        self.remaining <= 0
    }

    /// Whether an update by `elapsed` fires.
    pub open spec fn fires(self, elapsed: u32) -> bool {
        remaining_after(self.remaining, elapsed) <= 0
    }

    /// The timer after an update by `elapsed`.
    pub open spec fn updated(self, elapsed: u32) -> Timer {
        if self.fires(elapsed) && self.looping {
            Timer { remaining: self.period, ..self }
        } else {
            Timer { remaining: remaining_after(self.remaining, elapsed), ..self }
        }
    }

    /// The timer after `n` updates by `step` each.
    pub open spec fn after_ticks(self, step: u32, n: nat) -> Timer
        decreases n,
    {
        if n == 0 {
            self
        } else {
            self.after_ticks(step, (n - 1) as nat).updated(step)
        }
    }

    /// Whether the `n`-th of a run of updates by `step` fires, counting from 1.
    pub open spec fn fires_on_tick(self, step: u32, n: nat) -> bool
        recommends
            n >= 1,
    {
        self.after_ticks(step, (n - 1) as nat).fires(step)
    }

    /// A looping timer that is due at once and then every `period`.
    pub fn new(period: i64) -> (timer: Timer)
        ensures
            timer == (Timer { remaining: 0, period, looping: true }),
    {
        Timer { remaining: 0, period, looping: true }
    }

    /// A one-shot timer that expires `after` microseconds from now.
    pub fn new_once(after: i64) -> (timer: Timer)
        ensures
            timer == (Timer { remaining: after, period: after, looping: false }),
    {
        Timer { remaining: after, period: after, looping: false }
    }

    /// Counts `elapsed` microseconds down and says whether the timer fired.
    pub fn update(&mut self, elapsed: u32) -> (fired: bool)
        ensures
            fired == old(self).fires(elapsed),
            *final(self) == old(self).updated(elapsed),
    {
        self.remaining = count_down(self.remaining, elapsed);
        let fired = self.remaining <= 0;
        if fired && self.looping {
            self.remaining = self.period;
        }
        fired
    }

    /// Whether an update by `elapsed` would fire, without counting down.
    pub fn will_fire(&self, elapsed: u32) -> (fires: bool)
        ensures
            fires == self.fires(elapsed),
    {
        count_down(self.remaining, elapsed) <= 0
    }

    /// Reloads the countdown with the period, without firing.
    pub fn reset(&mut self)
        ensures
            *final(self) == (Timer { remaining: old(self).period, ..*old(self) }),
    {
        self.remaining = self.period;
    }

    /// Makes the timer due, so that the next update fires.
    pub fn trigger(&mut self)
        ensures
            *final(self) == (Timer { remaining: 0, ..*old(self) }),
            final(self).is_due(),
    {
        self.remaining = 0;
    }

    /// Pushes the next firing back by `extra` microseconds.
    pub fn delay(&mut self, extra: i64)
        ensures
            *final(self) == (Timer {
                remaining: remaining_delayed(old(self).remaining, extra),
                ..*old(self)
            }),
    {
        self.remaining = push_back(self.remaining, extra);
    }
}

/// A timer that is not yet due counts straight down: after `n` steps that
/// together stay short of `remaining`, nothing has fired and exactly `n * step`
/// microseconds are gone.
pub proof fn lemma_counts_down_before_due(timer: Timer, step: u32, n: nat)
    requires
        n * step < timer.remaining,
    ensures
        timer.after_ticks(step, n) == (Timer {
            remaining: (timer.remaining - n * step) as i64,
            ..timer
        }),
        forall|k: nat| 1 <= k <= n ==> !timer.fires_on_tick(step, k),
    decreases n,
{
    if n > 0 {
        let m = (n - 1) as nat;
        assert(m * step <= n * step) by (nonlinear_arith)
            requires
                m <= n,
        ;
        assert(n * step == m * step + step) by (nonlinear_arith)
            requires
                m == n - 1,
        ;
        lemma_counts_down_before_due(timer, step, m);
        let before = timer.after_ticks(step, m);
        assert(before.remaining == timer.remaining - m * step);
        assert(remaining_after(before.remaining, step) == timer.remaining - n * step);
        assert(!before.fires(step));
        assert(timer.after_ticks(step, n) == before.updated(step));
        assert forall|k: nat| 1 <= k <= n implies !timer.fires_on_tick(step, k) by {
            if k == n {
                assert(!timer.after_ticks(step, m).fires(step));
            }
        }
    } else {
        assert(n * step == 0) by (nonlinear_arith)
            requires
                n == 0,
        ;
    }
}

/// A timer with `remaining` microseconds to go, fed steps of a fixed size,
/// fires on the first step at which the time fed so far reaches `remaining`,
/// and on no earlier one. When it loops, it then holds a full period again.
pub proof fn lemma_fires_when_elapsed_reaches_remaining(timer: Timer, step: u32, n: nat)
    requires
        n >= 1,
        (n - 1) * step < timer.remaining,
        n * step >= timer.remaining,
    ensures
        forall|k: nat| 1 <= k < n ==> !timer.fires_on_tick(step, k),
        timer.fires_on_tick(step, n),
        timer.looping ==> timer.after_ticks(step, n) == (Timer {
            remaining: timer.period,
            ..timer
        }),
{
    let m = (n - 1) as nat;
    lemma_counts_down_before_due(timer, step, m);
    assert(n * step == m * step + step) by (nonlinear_arith)
        requires
            m == n - 1,
    ;
    assert(timer.after_ticks(step, m).fires(step));
}

/// A fresh looping timer fires on its first update, whatever the step, and
/// reloads; from there on it fires again on the first step at which the time
/// fed since the reload reaches the period, and on none before.
pub proof fn lemma_new_timer_fires_every_period(period: i64, step: u32, n: nat)
    requires
        n >= 1,
        (n - 1) * step < period,
        n * step >= period,
    ensures
        ({
            let timer = Timer { remaining: 0, period, looping: true };
            &&& timer.fires_on_tick(step, 1)
            &&& timer.after_ticks(step, 1) == (Timer { remaining: period, ..timer })
            &&& forall|k: nat| 2 <= k <= n ==> !timer.fires_on_tick(step, k)
            &&& timer.fires_on_tick(step, 1 + n)
            &&& timer.after_ticks(step, 1 + n) == (Timer { remaining: period, ..timer })
        }),
{
    let timer = Timer { remaining: 0, period, looping: true };
    let loaded = Timer { remaining: period, ..timer };
    assert(timer.after_ticks(step, 0) == timer);
    assert(timer.after_ticks(step, 1) == timer.after_ticks(step, 0).updated(step));
    lemma_fires_when_elapsed_reaches_remaining(loaded, step, n);
    assert forall|k: nat| timer.after_ticks(step, 1 + k) == loaded.after_ticks(step, k) by {
        lemma_ticks_compose(timer, step, 1, k);
    }
    assert forall|k: nat| 2 <= k <= n implies !timer.fires_on_tick(step, k) by {
        let j = (k - 1) as nat;
        assert(timer.after_ticks(step, 1 + (j - 1) as nat) == loaded.after_ticks(
            step,
            (j - 1) as nat,
        ));
        assert(!loaded.fires_on_tick(step, j));
    }
    assert(timer.after_ticks(step, 1 + (n - 1) as nat) == loaded.after_ticks(
        step,
        (n - 1) as nat,
    ));
}

/// Feeding `a` steps and then `b` more is feeding `a + b` steps.
pub proof fn lemma_ticks_compose(timer: Timer, step: u32, a: nat, b: nat)
    ensures
        timer.after_ticks(step, a + b) == timer.after_ticks(step, a).after_ticks(step, b),
    decreases b,
{
    if b > 0 {
        lemma_ticks_compose(timer, step, a, (b - 1) as nat);
        assert(a + b - 1 == a + (b - 1));
    }
}

/// A looping timer whose period is zero or less fires on every update once it
/// is due.
pub proof fn lemma_nonpositive_period_fires_every_tick(timer: Timer, step: u32, n: nat)
    requires
        timer.looping,
        timer.period <= 0,
        timer.is_due(),
        n >= 1,
    ensures
        timer.fires_on_tick(step, n),
        timer.after_ticks(step, n) == (Timer { remaining: timer.period, ..timer }),
    decreases n,
{
    if n > 1 {
        lemma_nonpositive_period_fires_every_tick(timer, step, (n - 1) as nat);
        assert(timer.after_ticks(step, n) == timer.after_ticks(step, (n - 1) as nat).updated(
            step,
        ));
    } else {
        assert(timer.after_ticks(step, 0) == timer);
        assert(timer.after_ticks(step, 1) == timer.after_ticks(step, 0).updated(step));
    }
}

} // verus!
