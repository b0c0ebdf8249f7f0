//! A countdown timer that is advanced by elapsed-time deltas and signals,
//! for the length of one tick, that its duration has been reached.
//!
//! Time is counted in whole units that the host chooses (the defaults of
//! this crate are microseconds). A repeating timer keeps the remainder of
//! the elapsed time past its duration, so that frame-time jitter does not
//! accumulate into drift.

use vstd::arithmetic::div_mod::{
    lemma_add_mod_noop_right, lemma_fundamental_div_mod, lemma_fundamental_div_mod_converse,
};
use vstd::prelude::*;

verus! {

/// Whether a timer fires once or again and again.
#[derive(Clone, Copy, Debug, PartialEq, Eq, Structural)]
pub enum TimerMode {
    /// The timer fires once and is spent afterwards.
    Once,
    /// The timer starts over each time it fires.
    Repeating,
}

/// The state of a timer, over the natural numbers.
pub struct TimerState {
    /// Time between two fires; positive in a well-formed state.
    pub duration: nat,
    /// Time accumulated since the last fire.
    pub elapsed: nat,
    pub mode: TimerMode,
    /// Whether the most recent tick reached the duration.
    pub just_fired: bool,
}

impl TimerState {
    /// The state of a timer that has not been ticked yet.
    pub open spec fn fresh(duration: nat, mode: TimerMode) -> TimerState {
        TimerState { duration, elapsed: 0, mode, just_fired: false }
    }

    /// The duration is positive; a repeating timer has never a whole
    /// duration in store, a one-shot timer never more than one.
    pub open spec fn wf(self) -> bool {
        &&& self.duration > 0
        &&& match self.mode {
            TimerMode::Once => self.elapsed <= self.duration,
            TimerMode::Repeating => self.elapsed < self.duration,
        }
    }

    /// A one-shot timer that has fired; it never fires again.
    pub open spec fn spent(self) -> bool {
        self.mode == TimerMode::Once && self.elapsed >= self.duration
    }

    /// Whether a tick by `delta` reaches the duration.
    pub open spec fn crosses(self, delta: nat) -> bool {
        !self.spent() && self.elapsed + delta >= self.duration
    }

    /// The state after a tick by `delta`.
    ///
    /// A repeating timer keeps what is left over of `elapsed + delta` after
    /// all whole durations have been taken out. A one-shot timer stops at
    /// its duration and ignores every later tick.
    pub open spec fn tick(self, delta: nat) -> TimerState {
        if self.spent() {
            TimerState { just_fired: false, ..self }
        } else {
            let sum = self.elapsed + delta;
            TimerState {
                elapsed: match self.mode {
                    TimerMode::Once => if sum >= self.duration {
                        self.duration
                    } else {
                        sum
                    },
                    TimerMode::Repeating => sum % self.duration,
                },
                just_fired: sum >= self.duration,
                ..self
            }
        }
    }

    /// The state after one tick for each element of `deltas`, in order.
    pub open spec fn run(self, deltas: Seq<nat>) -> TimerState
        decreases deltas.len(),
    {
        if deltas.len() == 0 {
            self
        } else {
            self.run(deltas.drop_last()).tick(deltas.last())
        }
    }

    /// The number of ticks of `run(deltas)` on which the timer fired.
    pub open spec fn fires(self, deltas: Seq<nat>) -> nat
        decreases deltas.len(),
    {
        if deltas.len() == 0 {
            0
        } else {
            let before = self.fires(deltas.drop_last());
            if self.run(deltas).just_fired {
                before + 1
            } else {
                before
            }
        }
    }
}

/// The sum of a sequence of deltas.
pub open spec fn total(deltas: Seq<nat>) -> nat
    decreases deltas.len(),
{
    if deltas.len() == 0 {
        0
    } else {
        total(deltas.drop_last()) + deltas.last()
    }
}

/// A timer over 64-bit time values.
#[derive(Clone, Copy, Debug, PartialEq, Eq)]
pub struct Timer {
    duration: u64,
    elapsed: u64,
    mode: TimerMode,
    just_fired: bool,
}

impl View for Timer {
    type V = TimerState;

    closed spec fn view(&self) -> TimerState {
        TimerState {
            duration: self.duration as nat,
            elapsed: self.elapsed as nat,
            mode: self.mode,
            just_fired: self.just_fired,
        }
    }
}

impl Timer {
    /// The invariant of a timer: its state is well formed.
    pub open spec fn wf(&self) -> bool {
        self@.wf()
    }

    /// Creates a timer that has not been ticked yet. A timer needs a
    /// positive duration: with `duration == 0` there is none.
    pub fn new(duration: u64, mode: TimerMode) -> (timer: Option<Timer>)
        ensures
            timer is Some <==> duration > 0,
            timer matches Some(t) ==> t.wf() && t@ == TimerState::fresh(duration as nat, mode),
    {
        if duration == 0 {
            None
        } else {
            Some(Timer { duration, elapsed: 0, mode, just_fired: false })
        }
    }

    /// Advances the timer by `delta` and returns whether it fired on this
    /// tick.
    pub fn tick(&mut self, delta: u64) -> (fired: bool)
        requires
            old(self).wf(),
        ensures
            final(self).wf(),
            final(self)@ == old(self)@.tick(delta as nat),
            fired == old(self)@.crosses(delta as nat),
            fired == final(self)@.just_fired,
    {
        let spent = match self.mode {
            TimerMode::Once => self.elapsed >= self.duration,
            TimerMode::Repeating => false,
        };
        if spent {
            self.just_fired = false;
            return false;
        }
        let sum: u128 = self.elapsed as u128 + delta as u128;
        let duration: u128 = self.duration as u128;
        let fired = sum >= duration;
        let elapsed: u64 = match self.mode {
            TimerMode::Once => if fired {
                self.duration
            } else {
                sum as u64
            },
            TimerMode::Repeating => (sum % duration) as u64,
        };
        self.elapsed = elapsed;
        self.just_fired = fired;
        fired
    }

    /// The time between two fires.
    pub fn duration(&self) -> (d: u64)
        ensures
            d == self@.duration,
    {
        self.duration
    }

    /// The time accumulated since the last fire.
    pub fn elapsed(&self) -> (e: u64)
        ensures
            e == self@.elapsed,
    {
        self.elapsed
    }

    /// Whether the timer fires once or again and again.
    pub fn mode(&self) -> (m: TimerMode)
        ensures
            m == self@.mode,
    {
        self.mode
    }

    /// Whether the most recent tick reached the duration.
    pub fn just_fired(&self) -> (b: bool)
        ensures
            b == self@.just_fired,
    {
        self.just_fired
    }

    /// Whether this is a one-shot timer that has fired.
    pub fn finished(&self) -> (b: bool)
        ensures
            b == self@.spent(),
    {
        match self.mode {
            TimerMode::Once => self.elapsed >= self.duration,
            TimerMode::Repeating => false,
        }
    }
}

/// Adding `b` to `a` changes the remainder by `b` and carries into the
/// quotient when the remainder passes the divisor.
proof fn lemma_add_carries(a: int, b: int, d: int)
    requires
        d > 0,
        a >= 0,
        b >= 0,
    ensures
        (a + b) % d == (a % d + b) % d,
        a % d + b < d ==> (a + b) / d == a / d,
        d <= a % d + b < 2 * d ==> (a + b) / d == a / d + 1,
        a % d + b >= d ==> (a + b) / d >= a / d + 1,
{
    let q = a / d;
    let r = a % d;
    lemma_fundamental_div_mod(a, d);
    lemma_add_mod_noop_right(b, a, d);
    if r + b < d {
        lemma_fundamental_div_mod_converse(a + b, d, q, r + b);
    } else {
        let q2 = (a + b) / d;
        let r2 = (a + b) % d;
        lemma_fundamental_div_mod(a + b, d);
        assert(q2 >= q + 1) by (nonlinear_arith)
            requires
                a + b == d * q2 + r2,
                a == q * d + r,
                r + b >= d,
                0 <= r2 < d,
                d > 0,
        ;
        if r + b < 2 * d {
            assert(a + b == (q + 1) * d + (r + b - d)) by (nonlinear_arith)
                requires
                    a == q * d + r,
            ;
            lemma_fundamental_div_mod_converse(a + b, d, q + 1, r + b - d);
        }
    }
}

/// The sum of a prefix is the sum of the shorter prefix and one more
/// delta, and no prefix sums to more than the whole sequence.
proof fn lemma_total_of_prefix(deltas: Seq<nat>, k: int)
    requires
        0 <= k <= deltas.len(),
    ensures
        total(deltas.take(k)) <= total(deltas),
        k > 0 ==> total(deltas.take(k)) == total(deltas.take(k - 1)) + deltas[k - 1],
    decreases deltas.len() - k,
{
    if k > 0 {
        assert(deltas.take(k).drop_last() =~= deltas.take(k - 1));
    }
    if k < deltas.len() {
        lemma_total_of_prefix(deltas, k + 1);
    }
}

/// The sum of `n` deltas that all equal `delta`.
proof fn lemma_total_of_equal_deltas(n: nat, delta: nat)
    ensures
        total(Seq::new(n, |i: int| delta)) == n * delta,
    decreases n,
{
    let deltas = Seq::new(n, |i: int| delta);
    if n > 0 {
        assert(deltas.drop_last() =~= Seq::new((n - 1) as nat, |i: int| delta));
        lemma_total_of_equal_deltas((n - 1) as nat, delta);
        assert(n * delta == (n - 1) * delta + delta) by (nonlinear_arith);
    } else {
        assert(n * delta == 0) by (nonlinear_arith)
            requires
                n == 0,
        ;
    }
}

/// A tick keeps a well-formed state well formed, and changes neither the
/// duration nor the mode. The timer fires on the tick if and only if the
/// tick reaches the duration; until then the elapsed time grows by each
/// delta.
pub proof fn lemma_tick_keeps_wf(t: TimerState, delta: nat)
    requires
        t.wf(),
    ensures
        t.tick(delta).wf(),
        t.tick(delta).duration == t.duration,
        t.tick(delta).mode == t.mode,
        t.tick(delta).just_fired == t.crosses(delta),
        !t.spent() && !t.crosses(delta) ==> t.tick(delta).elapsed == t.elapsed + delta,
        t.spent() ==> t.tick(delta).elapsed == t.elapsed,
{
    if !t.spent() && !t.crosses(delta) {
        vstd::arithmetic::div_mod::lemma_small_mod(t.elapsed + delta, t.duration);
    }
}

/// A run of ticks keeps a well-formed state well formed, and changes
/// neither the duration nor the mode.
pub proof fn lemma_run_keeps_wf(t: TimerState, deltas: Seq<nat>)
    requires
        t.wf(),
    ensures
        t.run(deltas).wf(),
        t.run(deltas).duration == t.duration,
        t.run(deltas).mode == t.mode,
    decreases deltas.len(),
{
    if deltas.len() > 0 {
        lemma_run_keeps_wf(t, deltas.drop_last());
    }
}

/// The state of a fresh timer after the first `k` ticks of `deltas`, as
/// long as these ticks do not sum to more than the duration.
proof fn lemma_fresh_up_to_duration(duration: nat, mode: TimerMode, deltas: Seq<nat>, k: int)
    requires
        duration > 0,
        0 <= k <= deltas.len(),
        total(deltas.take(k)) <= duration,
    ensures
        ({
            let t = TimerState::fresh(duration, mode);
            let s = t.run(deltas.take(k));
            let sum = total(deltas.take(k));
            &&& s.duration == duration
            &&& s.mode == mode
            &&& sum < duration ==> {
                &&& s.elapsed == sum
                &&& !s.just_fired
                &&& t.fires(deltas.take(k)) == 0
            }
            &&& sum == duration ==> {
                &&& s.elapsed == (match mode {
                    TimerMode::Once => duration,
                    TimerMode::Repeating => 0,
                })
                &&& t.fires(deltas.take(k)) == 1
            }
            &&& k > 0 ==> (s.just_fired <==> sum == duration && total(deltas.take(k - 1))
                < duration)
        }),
    decreases k,
{
    if k > 0 {
        assert(deltas.take(k).drop_last() =~= deltas.take(k - 1));
        lemma_fresh_up_to_duration(duration, mode, deltas, k - 1);
        if total(deltas.take(k - 1)) < duration && total(deltas.take(k)) == duration {
            assert(duration % duration == 0) by (nonlinear_arith)
                requires
                    duration > 0,
            ;
        } else if total(deltas.take(k)) < duration {
            assert(total(deltas.take(k)) % duration == total(deltas.take(k))) by (nonlinear_arith)
                requires
                    total(deltas.take(k)) < duration,
            ;
        } else {
            assert(0nat % duration == 0) by (nonlinear_arith)
                requires
                    duration > 0,
            ;
        }
    }
}

/// A fresh timer that is ticked by deltas which sum to exactly its
/// duration fires on the tick that brings the sum up to the duration, on
/// no other tick, and so exactly once. This holds in both modes.
pub proof fn lemma_fires_once_when_total_is_duration(
    duration: nat,
    mode: TimerMode,
    deltas: Seq<nat>,
)
    requires
        duration > 0,
        total(deltas) == duration,
    ensures
        TimerState::fresh(duration, mode).fires(deltas) == 1,
        forall|k: int|
            0 < k <= deltas.len() ==> (TimerState::fresh(duration, mode).run(
                #[trigger] deltas.take(k),
            ).just_fired <==> total(deltas.take(k)) == duration && total(deltas.take(k - 1))
                < duration),
{
    let t = TimerState::fresh(duration, mode);
    assert forall|k: int| 0 < k <= deltas.len() implies (t.run(
        #[trigger] deltas.take(k),
    ).just_fired <==> total(deltas.take(k)) == duration && total(deltas.take(k - 1))
        < duration) by {
        lemma_total_of_prefix(deltas, k);
        lemma_fresh_up_to_duration(duration, mode, deltas, k);
    }
    let n = deltas.len() as int;
    lemma_total_of_prefix(deltas, n);
    lemma_fresh_up_to_duration(duration, mode, deltas, n);
    assert(deltas.take(n) =~= deltas);
}

/// A repeating timer does not drift: after any run of ticks it holds the
/// remainder of all the time it was given, whatever the sizes of the
/// single deltas were. It fires at most once for each whole duration that
/// has passed, and exactly that often when no delta is longer than the
/// duration.
pub proof fn lemma_repeating_run(t: TimerState, deltas: Seq<nat>)
    requires
        t.wf(),
        t.mode == TimerMode::Repeating,
    ensures
        t.run(deltas).elapsed == (t.elapsed + total(deltas)) % t.duration,
        t.fires(deltas) <= (t.elapsed + total(deltas)) / t.duration,
        (forall|i: int| 0 <= i < deltas.len() ==> deltas[i] <= t.duration) ==> t.fires(deltas)
            == (t.elapsed + total(deltas)) / t.duration,
    decreases deltas.len(),
{
    let d = t.duration as int;
    if deltas.len() == 0 {
        lemma_fundamental_div_mod_converse(t.elapsed as int, d, 0, t.elapsed as int);
    } else {
        let front = deltas.drop_last();
        let given = (t.elapsed + total(front)) as int;
        lemma_repeating_run(t, front);
        lemma_run_keeps_wf(t, front);
        lemma_add_carries(given, deltas.last() as int, d);
    }
}

/// A repeating timer that is ticked nine times by a third of its duration
/// fires three times and has nothing left over at the end.
pub proof fn lemma_nine_thirds_fire_three_times(duration: nat)
    requires
        duration > 0,
        duration % 3 == 0,
    ensures
        ({
            let t = TimerState::fresh(duration, TimerMode::Repeating);
            let deltas = Seq::new(9, |i: int| duration / 3);
            &&& t.fires(deltas) == 3
            &&& t.run(deltas).elapsed == 0
        }),
{
    let t = TimerState::fresh(duration, TimerMode::Repeating);
    let third = duration / 3;
    let deltas = Seq::new(9, |i: int| third);
    lemma_total_of_equal_deltas(9, third);
    lemma_repeating_run(t, deltas);
    lemma_fundamental_div_mod_converse(3 * (duration as int), duration as int, 3, 0);
}

/// A one-shot timer stops at its duration, and fires once if the time it
/// is given reaches the duration and it had not fired before, else never.
pub proof fn lemma_one_shot_run(t: TimerState, deltas: Seq<nat>)
    requires
        t.wf(),
        t.mode == TimerMode::Once,
    ensures
        t.run(deltas).elapsed == (if t.elapsed + total(deltas) >= t.duration {
            t.duration
        } else {
            t.elapsed + total(deltas)
        }),
        t.fires(deltas) == (if !t.spent() && t.elapsed + total(deltas) >= t.duration {
            1nat
        } else {
            0nat
        }),
    decreases deltas.len(),
{
    if deltas.len() > 0 {
        lemma_one_shot_run(t, deltas.drop_last());
        lemma_run_keeps_wf(t, deltas.drop_last());
    }
}

} // verus!
