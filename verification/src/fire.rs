//! Fire control: once per rendered frame it advances the fire cooldown,
//! retires the live projectiles when the cooldown is available, and launches
//! a new one when fire is held and the cooldown allows it.
//!
//! Projectiles belong to the host's scene. The host creates and destroys them
//! and names each by an opaque `u64` handle; this module decides when, and
//! keeps the handles of those that are live.

use crate::cooldown::Cooldown;
use crate::cooldown::CooldownState;
use vstd::prelude::*;

verus! {

/// The period of the craft's fire cooldown: 250 milliseconds, in nanoseconds.
pub const FIRE_PERIOD_NANOS: u64 = 250_000_000;

/// Mathematical state of a [`FireControl`]: its cooldown and the handles of
/// the live projectiles, oldest first.
pub struct FireState {
    pub cooldown: CooldownState,
    pub live: Seq<u64>,
}

impl FireState {
    /// At most one projectile is live, and none while the cooldown is
    /// available.
    pub open spec fn wf(self) -> bool {
        &&& self.cooldown.wf()
        &&& self.live.len() <= 1
        &&& self.cooldown.available ==> self.live.len() == 0
    }

    /// The state of a newly built fire control.
    pub open spec fn fresh(period: nat) -> FireState {
        FireState { cooldown: CooldownState::fresh(period), live: Seq::empty() }
    }

    /// Whether the cooldown is available once it has been advanced by
    /// `delta`.
    pub open spec fn ready(self, delta: nat) -> bool {
        self.cooldown.tick(delta).available
    }

    /// The projectiles a frame of length `delta` retires: all that are live
    /// if the cooldown is available after the tick, none otherwise.
    pub open spec fn retired(self, delta: nat) -> Seq<u64> {
        if self.ready(delta) {
            self.live
        } else {
            Seq::empty()
        }
    }

    /// Whether a frame of length `delta` launches a projectile.
    pub open spec fn launches(self, delta: nat, fire: bool) -> bool {
        fire && self.ready(delta)
    }

    /// The state after a frame of length `delta`.
    pub open spec fn frame(self, delta: nat, fire: bool) -> FireState {
        let ticked = self.cooldown.tick(delta);
        FireState {
            cooldown: if self.launches(delta, fire) { ticked.trigger() } else { ticked },
            live: if self.ready(delta) { Seq::empty() } else { self.live },
        }
    }

    /// Whether the handle of a new projectile is taken now: only while the
    /// cooldown runs and no projectile is live, which is the time between a
    /// launch and the report of its handle.
    pub open spec fn accepts(self) -> bool {
        !self.cooldown.available && self.live.len() == 0
    }

    /// The state after the host reports `handle`.
    pub open spec fn track(self, handle: u64) -> FireState {
        if self.accepts() {
            FireState { live: self.live.push(handle), ..self }
        } else {
            self
        }
    }

    /// The state after one event.
    pub open spec fn step(self, event: FireEvent) -> FireState {
        match event {
            FireEvent::Frame { delta, fire } => self.frame(delta, fire),
            FireEvent::Reported { handle } => self.track(handle),
        }
    }

    /// The state after `events`, first to last.
    pub open spec fn run(self, events: Seq<FireEvent>) -> FireState
        decreases events.len(),
    {
        if events.len() == 0 {
            self
        } else {
            self.step(events[0]).run(events.drop_first())
        }
    }
}

/// One thing that happens to a [`FireControl`], for laws over whole histories.
pub enum FireEvent {
    /// A rendered frame: the nanoseconds since the last one, and whether fire
    /// is held. See [`FireControl::frame`].
    Frame { delta: nat, fire: bool },
    /// The host reports the handle of a projectile it created. See
    /// [`FireControl::track`].
    Reported { handle: u64 },
}

/// What the host has to do after a frame: destroy `retire`, then, if `launch`
/// is set, create one projectile and report its handle with
/// [`FireControl::track`].
#[derive(Debug)]
pub struct FireOrders {
    pub retire: Vec<u64>,
    pub launch: bool,
}

/// A frame and a report both keep a valid state valid.
pub proof fn lemma_step_keeps_wf(s: FireState, event: FireEvent)
    requires
        s.wf(),
    ensures
        s.step(event).wf(),
{
}

/// However frames and reports follow each other on a new fire control, at
/// most one projectile is live, and none while the cooldown is available.
pub proof fn lemma_at_most_one_live(period: nat, events: Seq<FireEvent>)
    ensures
        FireState::fresh(period).run(events).wf(),
        FireState::fresh(period).run(events).live.len() <= 1,
{
    lemma_run_keeps_wf(FireState::fresh(period), events);
}

/// Any sequence of frames and reports keeps a valid state valid.
pub proof fn lemma_run_keeps_wf(s: FireState, events: Seq<FireEvent>)
    requires
        s.wf(),
    ensures
        s.run(events).wf(),
    decreases events.len(),
{
    if events.len() > 0 {
        lemma_step_keeps_wf(s, events[0]);
        lemma_run_keeps_wf(s.step(events[0]), events.drop_first());
    }
}

/// Fire held while the cooldown runs launches nothing, retires nothing and
/// leaves the live projectile as it is.
pub proof fn lemma_fire_on_cooldown_is_ignored(s: FireState, delta: nat)
    requires
        s.wf(),
        !s.ready(delta),
    ensures
        !s.launches(delta, true),
        s.retired(delta).len() == 0,
        s.frame(delta, true).live == s.live,
        s.frame(delta, true) == s.frame(delta, false),
{
}

/// Fire held while the cooldown is available launches: the cooldown starts to
/// run, no projectile is live until the handle of the new one is reported,
/// that report makes it the only live one, and no second report is taken.
pub proof fn lemma_fire_when_ready_launches_one(s: FireState, delta: nat, handle: u64, other: u64)
    requires
        s.wf(),
        s.ready(delta),
    ensures
        s.launches(delta, true),
        !s.frame(delta, true).cooldown.available,
        s.frame(delta, true).live.len() == 0,
        s.frame(delta, true).accepts(),
        s.frame(delta, true).track(handle).live == seq![handle],
        !s.frame(delta, true).track(handle).accepts(),
        s.frame(delta, true).track(handle).track(other) == s.frame(delta, true).track(handle),
{
    let launched = s.frame(delta, true);
    assert(launched.live.push(handle) =~= seq![handle]);
}

/// A frame retires a projectile exactly when one is live and the tick brings
/// the running cooldown to its period; on that frame every live projectile is
/// retired, and on no other frame is any.
pub proof fn lemma_retire_exactly_on_reload(s: FireState, delta: nat, fire: bool)
    requires
        s.wf(),
    ensures
        s.retired(delta).len() > 0 <==> s.live.len() > 0 && s.cooldown.reloads(delta),
        s.cooldown.reloads(delta) ==> {
            &&& s.retired(delta) == s.live
            &&& s.frame(delta, fire).live.len() == 0
        },
        !s.cooldown.reloads(delta) ==> {
            &&& s.retired(delta).len() == 0
            &&& s.frame(delta, fire).live == s.live
        },
{
    if !s.cooldown.reloads(delta) && s.ready(delta) {
        assert(s.live =~= Seq::empty());
    }
}

/// The fire action of one craft: a cooldown and the handles of the live
/// projectiles.
pub struct FireControl {
    cooldown: Cooldown,
    live: Vec<u64>,
}

impl View for FireControl {
    type V = FireState;

    closed spec fn view(&self) -> FireState {
        FireState { cooldown: self.cooldown@, live: self.live@ }
    }
}

impl FireControl {
    #[verifier::type_invariant]
    spec fn inv(self) -> bool {
        self@.wf()
    }

    /// A fire control whose cooldown lasts `period` nanoseconds: ready to
    /// fire, with no projectile live.
    pub fn new(period: u64) -> (c: FireControl)
        ensures
            c@ == FireState::fresh(period as nat),
            c@.wf(),
    {
        FireControl { cooldown: Cooldown::new(period), live: Vec::new() }
    }

    /// The fire cooldown.
    pub fn cooldown(&self) -> (c: &Cooldown)
        ensures
            c@ == self@.cooldown,
            c@.wf(),
    {
        proof {
            use_type_invariant(self);
        }
        &self.cooldown
    }

    /// The handles of the live projectiles: at most one, and none while the
    /// cooldown is available.
    pub fn live(&self) -> (handles: &Vec<u64>)
        ensures
            handles@ == self@.live,
            handles@.len() <= 1,
            self@.cooldown.available ==> handles@.len() == 0,
    {
        proof {
            use_type_invariant(self);
        }
        &self.live
    }

    /// One rendered frame, `delta` nanoseconds after the last. Advances the
    /// cooldown; if it is then available, orders every live projectile
    /// retired; if it is available and `fire` is held, triggers it and orders
    /// a launch.
    pub fn frame(&mut self, delta: u64, fire: bool) -> (orders: FireOrders)
        ensures
            final(self)@ == old(self)@.frame(delta as nat, fire),
            orders.retire@ == old(self)@.retired(delta as nat),
            orders.launch == old(self)@.launches(delta as nat, fire),
            orders.launch ==> fire && final(self)@.accepts(),
            orders.retire@.len() > 0 ==> old(self)@.cooldown.reloads(delta as nat),
            final(self)@.wf(),
    {
        proof {
            use_type_invariant(&*self);
        }
        let mut cooldown = self.cooldown;
        cooldown.tick(delta);
        let ready = cooldown.available();
        let launch = fire && ready;
        if launch {
            cooldown.trigger();
        }
        let mut retire: Vec<u64> = Vec::new();
        if ready {
            std::mem::swap(&mut retire, &mut self.live);
        }
        self.cooldown = cooldown;
        FireOrders { retire, launch }
    }

    /// Records the handle of the projectile that the host created for the
    /// last launch. Returns whether it was taken: a handle is refused while
    /// the cooldown is available or a projectile is already live, and the
    /// state is then unchanged.
    pub fn track(&mut self, handle: u64) -> (taken: bool)
        ensures
            taken == old(self)@.accepts(),
            final(self)@ == old(self)@.track(handle),
            taken ==> final(self)@.live == seq![handle],
            !taken ==> final(self)@ == old(self)@,
            final(self)@.wf(),
    {
        proof {
            use_type_invariant(&*self);
        }
        if !self.cooldown.available() && self.live.len() == 0 {
            let mut live: Vec<u64> = Vec::new();
            live.push(handle);
            proof {
                assert(self.live@.push(handle) =~= seq![handle]);
            }
            self.live = live;
            true
        } else {
            false
        }
    }
}

} // verus!
