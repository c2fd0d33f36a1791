//! A cooldown: unavailable from a trigger until a fixed period of ticked time
//! has accumulated.

use bevy::time::Timer;
use std::time::Duration;
use vstd::prelude::*;

verus! {

/// Mathematical state of a [`Cooldown`]. Times are nanoseconds.
pub struct CooldownState {
    pub available: bool,
    pub elapsed: nat,
    pub period: nat,
}

impl CooldownState {
    /// An available cooldown holds no time, and a running one holds less than
    /// its period.
    pub open spec fn wf(self) -> bool {
        self.elapsed == 0 || (!self.available && self.elapsed < self.period)
    }

    /// The state of a newly built cooldown: available, with nothing
    /// accumulated.
    pub open spec fn fresh(period: nat) -> CooldownState {
        CooldownState { available: true, elapsed: 0, period }
    }

    /// Makes the cooldown unavailable. Accumulated time is kept, so a trigger
    /// on a running cooldown changes nothing.
    pub open spec fn trigger(self) -> CooldownState {
        CooldownState { available: false, ..self }
    }

    /// Whether `delta` more nanoseconds bring a running cooldown to its
    /// period.
    pub open spec fn reloads(self, delta: nat) -> bool {
        !self.available && self.elapsed + delta >= self.period
    }

    /// Advances by `delta`. An available cooldown is left alone; a running
    /// one either accumulates `delta` or, on reaching its period, becomes
    /// available with the accumulated time back at zero.
    pub open spec fn tick(self, delta: nat) -> CooldownState {
        if self.available {
            self
        } else if self.elapsed + delta >= self.period {
            CooldownState { available: true, elapsed: 0, ..self }
        } else {
            CooldownState { elapsed: self.elapsed + delta, ..self }
        }
    }

    /// The state after ticking through `deltas`, first to last.
    pub open spec fn run(self, deltas: Seq<nat>) -> CooldownState
        decreases deltas.len(),
    {
        if deltas.len() == 0 {
            self
        } else {
            self.tick(deltas[0]).run(deltas.drop_first())
        }
    }

    /// How many of the ticks through `deltas` turn the cooldown from
    /// unavailable to available.
    pub open spec fn openings(self, deltas: Seq<nat>) -> nat
        decreases deltas.len(),
    {
        if deltas.len() == 0 {
            0
        } else {
            let here: nat = if self.reloads(deltas[0]) { 1 } else { 0 };
            here + self.tick(deltas[0]).openings(deltas.drop_first())
        }
    }
}

/// The sum of `deltas`.
pub open spec fn total(deltas: Seq<nat>) -> nat
    decreases deltas.len(),
{
    if deltas.len() == 0 {
        0
    } else {
        deltas[0] + total(deltas.drop_first())
    }
}

/// Ticking an available cooldown, any number of times, leaves it exactly as
/// it was.
pub proof fn lemma_available_ignores_ticks(s: CooldownState, deltas: Seq<nat>)
    requires
        s.available,
    ensures
        s.run(deltas) == s,
        s.openings(deltas) == 0,
    decreases deltas.len(),
{
    if deltas.len() > 0 {
        lemma_available_ignores_ticks(s, deltas.drop_first());
    }
}

/// A running cooldown that is ticked at least once becomes available exactly
/// once if the time it holds plus the ticked total reaches the period, and
/// then stays available with nothing accumulated; otherwise it never does and
/// holds that sum.
pub proof fn lemma_running_opens_once(s: CooldownState, deltas: Seq<nat>)
    requires
        s.wf(),
        !s.available,
        deltas.len() > 0,
    ensures
        s.elapsed + total(deltas) >= s.period ==> {
            &&& s.openings(deltas) == 1
            &&& s.run(deltas) == CooldownState::fresh(s.period)
        },
        s.elapsed + total(deltas) < s.period ==> {
            &&& s.openings(deltas) == 0
            &&& s.run(deltas) == (CooldownState { elapsed: s.elapsed + total(deltas), ..s })
        },
        s.run(deltas).wf(),
    decreases deltas.len(),
{
    let rest = deltas.drop_first();
    let next = s.tick(deltas[0]);
    if s.reloads(deltas[0]) {
        lemma_available_ignores_ticks(next, rest);
    } else if rest.len() > 0 {
        lemma_running_opens_once(next, rest);
    } else {
        assert(total(rest) == 0);
    }
}

/// After a trigger, any run of ticks whose deltas sum to at least the period
/// makes the cooldown available exactly once, and leaves it available with
/// nothing accumulated.
pub proof fn lemma_trigger_then_ticks_opens_once(s: CooldownState, deltas: Seq<nat>)
    requires
        s.wf(),
        deltas.len() > 0,
        total(deltas) >= s.period,
    ensures
        s.trigger().openings(deltas) == 1,
        s.trigger().run(deltas) == CooldownState::fresh(s.period),
{
    lemma_running_opens_once(s.trigger(), deltas);
}

/// One tick of a one-shot `bevy::time::Timer`. The timer is built by
/// `Timer::new(period, false)`, put at `elapsed` by `Timer::set_elapsed` and
/// advanced by `Timer::tick(delta)`; the result is what `Timer::elapsed` and
/// `Timer::finished` then report. All times are nanoseconds.
///
/// Trusted, not proved: the timer is finished exactly when `elapsed + delta`
/// reaches `period`; a finished timer reports `period` as its elapsed time, an
/// unfinished one the sum. The sum is taken on `Duration`s, which hold any
/// two `u64` nanosecond counts added together, and what is reported is at
/// most `period` or a sum below it, so it fits `u64`.
#[verifier::external_body]
fn timer_tick(period: u64, elapsed: u64, delta: u64) -> (r: (u64, bool))
    ensures
        r.1 == (elapsed + delta >= period),
        r.0 == if elapsed + delta >= period { period as int } else { elapsed + delta },
{
    let mut timer = Timer::new(Duration::from_nanos(period), false);
    timer.set_elapsed(Duration::from_nanos(elapsed));
    timer.tick(Duration::from_nanos(delta));
    (timer.elapsed().as_nanos() as u64, timer.finished())
}

/// An action's cooldown: unavailable from [`Cooldown::trigger`] until
/// [`Cooldown::tick`] has accumulated the period.
#[derive(Clone, Copy, Debug)]
pub struct Cooldown {
    available: bool,
    elapsed: u64,
    period: u64,
}

impl View for Cooldown {
    type V = CooldownState;

    closed spec fn view(&self) -> CooldownState {
        CooldownState {
            available: self.available,
            elapsed: self.elapsed as nat,
            period: self.period as nat,
        }
    }
}

impl Cooldown {
    #[verifier::type_invariant]
    spec fn inv(self) -> bool {
        self@.wf()
    }

    /// A cooldown of `period` nanoseconds, available at once.
    pub fn new(period: u64) -> (c: Cooldown)
        ensures
            c@ == CooldownState::fresh(period as nat),
            c@.wf(),
    {
        Cooldown { available: true, elapsed: 0, period }
    }

    /// Whether the action may be taken now.
    pub fn available(&self) -> (b: bool)
        ensures
            b == self@.available,
    {
        self.available
    }

    /// Nanoseconds accumulated since the trigger; zero while available.
    pub fn elapsed(&self) -> (t: u64)
        ensures
            t == self@.elapsed,
            self@.available ==> t == 0,
    {
        proof {
            use_type_invariant(self);
        }
        self.elapsed
    }

    /// The period this cooldown was built with, in nanoseconds.
    pub fn period(&self) -> (t: u64)
        ensures
            t == self@.period,
    {
        self.period
    }

    /// Makes the cooldown unavailable. Does nothing if it already is.
    pub fn trigger(&mut self)
        ensures
            final(self)@ == old(self)@.trigger(),
            !final(self)@.available,
            !old(self)@.available ==> final(self)@ == old(self)@,
            final(self)@.wf(),
    {
        proof {
            use_type_invariant(&*self);
        }
        self.available = false;
    }

    /// Advances a running cooldown by `delta` nanoseconds and makes it
    /// available, with the accumulated time reset to zero, once the period
    /// is reached. An available cooldown is not touched.
    pub fn tick(&mut self, delta: u64)
        ensures
            final(self)@ == old(self)@.tick(delta as nat),
            old(self)@.available ==> final(self)@ == old(self)@,
            final(self)@.available == (old(self)@.available || old(self)@.reloads(delta as nat)),
            final(self)@.wf(),
    {
        proof {
            use_type_invariant(&*self);
        }
        if !self.available {
            let (shown, finished) = timer_tick(self.period, self.elapsed, delta);
            if finished {
                self.elapsed = 0;
                self.available = true;
            } else {
                self.elapsed = shown;
            }
        }
    }
}

} // verus!
