//! A countdown that can repeat, pause and report the tick on which it completes.
//!
//! Time is counted in nanoseconds.

use vstd::prelude::*;

verus! {

/// Nanoseconds in one second.
pub const NANOS_PER_SEC: u64 = 1_000_000_000;

/// The mathematical state of a [`Timer`].
pub struct TimerView {
    /// Length of one cycle; positive.
    pub duration: nat,
    /// Time gathered in the current cycle.
    pub elapsed: nat,
    /// Whether a completed cycle starts the next one.
    pub repeating: bool,
    /// Whether ticks are ignored.
    pub paused: bool,
    /// Whether the last counted tick reached the duration.
    pub finished: bool,
    /// Whether the last tick completed a cycle.
    pub just_finished: bool,
}

impl TimerView {
    /// A timer that has not run yet.
    pub open spec fn fresh(duration: nat, repeating: bool) -> TimerView {
        TimerView {
            duration,
            elapsed: 0,
            repeating,
            paused: false,
            finished: false,
            just_finished: false,
        }
    }

    /// The state after one tick of `delta` nanoseconds.
    ///
    /// A paused timer gathers nothing, and neither does a one-shot timer that
    /// has completed. Otherwise the time is added; on reaching the duration a
    /// repeating timer keeps the remainder and a one-shot timer stays at the
    /// duration.
    pub open spec fn tick(self, delta: nat) -> TimerView {
        if self.paused {
            TimerView { finished: self.finished && !self.repeating, just_finished: false, ..self }
        } else if !self.repeating && self.finished {
            TimerView { just_finished: false, ..self }
        } else if self.elapsed + delta < self.duration {
            TimerView {
                elapsed: self.elapsed + delta,
                finished: false,
                just_finished: false,
                ..self
            }
        } else if self.repeating {
            TimerView {
                elapsed: (self.elapsed + delta) % self.duration,
                finished: true,
                just_finished: true,
                ..self
            }
        } else {
            TimerView { elapsed: self.duration, finished: true, just_finished: true, ..self }
        }
    }

    /// The state after the ticks `deltas`, first to last.
    pub open spec fn run(self, deltas: Seq<nat>) -> TimerView
        decreases deltas.len(),
    {
        if deltas.len() == 0 {
            self
        } else {
            self.tick(deltas[0]).run(deltas.skip(1))
        }
    }

    /// How many of the ticks `deltas` report a completed cycle.
    pub open spec fn completions(self, deltas: Seq<nat>) -> nat
        decreases deltas.len(),
    {
        if deltas.len() == 0 {
            0
        } else {
            let after = self.tick(deltas[0]);
            (if after.just_finished {
                1nat
            } else {
                0nat
            }) + after.completions(deltas.skip(1))
        }
    }
}

/// The sum of a sequence of time steps.
pub open spec fn total(deltas: Seq<nat>) -> nat
    decreases deltas.len(),
{
    if deltas.len() == 0 {
        0
    } else {
        deltas[0] + total(deltas.skip(1))
    }
}

/// A countdown over a positive duration.
#[derive(Debug, Clone, Copy)]
pub struct Timer {
    duration: u64,
    elapsed: u64,
    repeating: bool,
    paused: bool,
    finished: bool,
    just_finished: bool,
}

impl View for Timer {
    type V = TimerView;

    closed spec fn view(&self) -> TimerView {
        TimerView {
            duration: self.duration as nat,
            elapsed: self.elapsed as nat,
            repeating: self.repeating,
            paused: self.paused,
            finished: self.finished,
            just_finished: self.just_finished,
        }
    }
}

impl Timer {
    #[verifier::type_invariant]
    spec fn positive_duration(self) -> bool {
        self.duration > 0
    }

    /// A timer over `duration` nanoseconds that has not run yet.
    pub fn new(duration: u64, repeating: bool) -> (t: Timer)
        requires
            duration > 0,
        ensures
            t@ == TimerView::fresh(duration as nat, repeating),
    {
        Timer {
            duration,
            elapsed: 0,
            repeating,
            paused: false,
            finished: false,
            just_finished: false,
        }
    }

    /// Length of one cycle in nanoseconds. It is never zero.
    pub fn duration(&self) -> (r: u64)
        ensures
            r == self@.duration,
            r > 0,
    {
        proof {
            use_type_invariant(self);
        }
        self.duration
    }

    /// Time gathered in the current cycle, in nanoseconds.
    pub fn elapsed(&self) -> (r: u64)
        ensures
            r == self@.elapsed,
    {
        self.elapsed
    }

    /// Whether a completed cycle starts the next one.
    pub fn repeating(&self) -> (r: bool)
        ensures
            r == self@.repeating,
    {
        self.repeating
    }

    /// Whether ticks are ignored.
    pub fn paused(&self) -> (r: bool)
        ensures
            r == self@.paused,
    {
        self.paused
    }

    /// Whether the last counted tick reached the duration.
    pub fn finished(&self) -> (r: bool)
        ensures
            r == self@.finished,
    {
        self.finished
    }

    /// Whether the last tick completed a cycle.
    pub fn just_finished(&self) -> (r: bool)
        ensures
            r == self@.just_finished,
    {
        self.just_finished
    }

    /// Advances the timer by `delta` nanoseconds.
    pub fn tick(&mut self, delta: u64)
        ensures
            final(self)@ == old(self)@.tick(delta as nat),
    {
        proof {
            use_type_invariant(&*self);
        }
        if self.paused {
            self.just_finished = false;
            if self.repeating {
                self.finished = false;
            }
        } else if !self.repeating && self.finished {
            self.just_finished = false;
        } else {
            let sum: u128 = self.elapsed as u128 + delta as u128;
            if sum < self.duration as u128 {
                self.elapsed = sum as u64;
                self.finished = false;
                self.just_finished = false;
            } else {
                if self.repeating {
                    self.elapsed = (sum % (self.duration as u128)) as u64;
                } else {
                    self.elapsed = self.duration;
                }
                self.finished = true;
                self.just_finished = true;
            }
        }
    }

    /// Changes the length of a cycle and leaves the gathered time alone.
    pub fn set_duration(&mut self, duration: u64)
        requires
            duration > 0,
        ensures
            final(self)@ == (TimerView { duration: duration as nat, ..old(self)@ }),
    {
        self.duration = duration;
    }

    /// Overwrites the gathered time.
    pub fn set_elapsed(&mut self, elapsed: u64)
        ensures
            final(self)@ == (TimerView { elapsed: elapsed as nat, ..old(self)@ }),
    {
        proof {
            use_type_invariant(&*self);
        }
        self.elapsed = elapsed;
    }

    /// Makes the timer ignore ticks until it is unpaused.
    pub fn pause(&mut self)
        ensures
            final(self)@ == (TimerView { paused: true, ..old(self)@ }),
    {
        proof {
            use_type_invariant(&*self);
        }
        self.paused = true;
    }

    /// Makes the timer count ticks again.
    pub fn unpause(&mut self)
        ensures
            final(self)@ == (TimerView { paused: false, ..old(self)@ }),
    {
        proof {
            use_type_invariant(&*self);
        }
        self.paused = false;
    }

    /// Back to the start of a cycle; the pause flag is kept.
    pub fn reset(&mut self)
        ensures
            final(self)@ == (TimerView {
                elapsed: 0,
                finished: false,
                just_finished: false,
                ..old(self)@
            }),
    {
        proof {
            use_type_invariant(&*self);
        }
        self.elapsed = 0;
        self.finished = false;
        self.just_finished = false;
    }
}

/// A running repeating timer that has gathered less than a cycle completes on a
/// tick exactly when the added time reaches the duration, and then keeps only
/// the remainder.
pub proof fn lemma_repeating_tick(t: TimerView, delta: nat)
    requires
        t.duration > 0,
        t.repeating,
        !t.paused,
    ensures
        t.tick(delta).just_finished <==> t.elapsed + delta >= t.duration,
        t.tick(delta).elapsed == (t.elapsed + delta) % t.duration,
        t.tick(delta).elapsed < t.duration,
        t.tick(delta).duration == t.duration,
        t.tick(delta).repeating,
        !t.tick(delta).paused,
{
    if t.elapsed + delta < t.duration {
        vstd::arithmetic::div_mod::lemma_small_mod((t.elapsed + delta) as nat, t.duration);
    } else {
        vstd::arithmetic::div_mod::lemma_mod_bound((t.elapsed + delta) as int, t.duration as int);
    }
}

/// A repeating timer at the start of a cycle, ticked by exactly its duration,
/// reports completion on that tick, is back at zero, and does not report
/// completion again on a following tick shorter than the duration.
pub proof fn lemma_full_cycle(t: TimerView, next: nat)
    requires
        t.duration > 0,
        t.repeating,
        !t.paused,
        t.elapsed == 0,
        next < t.duration,
    ensures
        t.tick(t.duration).just_finished,
        t.tick(t.duration).elapsed == 0,
        !t.tick(t.duration).tick(next).just_finished,
{
    vstd::arithmetic::div_mod::lemma_mod_self_0(t.duration as int);
}

/// However a span of exactly one duration is cut into ticks, a repeating timer
/// that starts the span at zero reports completion on exactly one of them and
/// ends the span at zero.
pub proof fn lemma_one_completion_per_cycle(t: TimerView, deltas: Seq<nat>)
    requires
        t.duration > 0,
        t.repeating,
        !t.paused,
        t.elapsed == 0,
        total(deltas) == t.duration,
    ensures
        t.completions(deltas) == 1,
        t.run(deltas).elapsed == 0,
{
    lemma_partial_cycle(t, deltas);
}

/// Ticks that together stay below what is missing to the duration complete
/// nothing; ticks that together reach it exactly complete once.
proof fn lemma_partial_cycle(t: TimerView, deltas: Seq<nat>)
    requires
        t.duration > 0,
        t.repeating,
        !t.paused,
        t.elapsed < t.duration,
        t.elapsed + total(deltas) <= t.duration,
    ensures
        t.elapsed + total(deltas) < t.duration ==> t.completions(deltas) == 0 && t.run(
            deltas,
        ).elapsed == t.elapsed + total(deltas),
        t.elapsed + total(deltas) == t.duration ==> t.completions(deltas) == 1 && t.run(
            deltas,
        ).elapsed == 0,
    decreases deltas.len(),
{
    if deltas.len() > 0 {
        let after = t.tick(deltas[0]);
        lemma_repeating_tick(t, deltas[0]);
        if t.elapsed + deltas[0] < t.duration {
            lemma_partial_cycle(after, deltas.skip(1));
        } else {
            vstd::arithmetic::div_mod::lemma_mod_self_0(t.duration as int);
            lemma_partial_cycle(after, deltas.skip(1));
        }
    }
}

} // verus!
