use std::time::{Duration, Instant};
use vstd::prelude::*;

verus! {

#[verifier::external_type_specification]
#[verifier::external_body]
pub struct ExInstant(Instant);

/// Reads the monotonic clock (`Instant::now`). Nothing is claimed about the
/// value: it depends on the moment of the call.
#[verifier::external_body]
fn instant_now() -> (r: Instant) {
    Instant::now()
}

/// `Instant::duration_since`: the time elapsed from `earlier` to `later`
/// (zero when `earlier` is the later one). Instants are opaque here, so
/// nothing is claimed about the result.
#[verifier::external_body]
fn instant_duration_since(later: &Instant, earlier: &Instant) -> (r: Duration) {
    later.duration_since(*earlier)
}

/// `Duration::as_millis`: whole milliseconds in the duration. Durations are
/// opaque here, so nothing is claimed about the result.
#[verifier::external_body]
fn duration_as_millis(d: &Duration) -> (r: u128) {
    d.as_millis()
}

/// The gameplay clock: accumulated milliseconds that advance only while the
/// clock is not paused.
pub struct Timer {
    now: Instant,
    last_time: u128,
    paused: bool,
}

/// What can be observed of a timer: its accumulated time in milliseconds and
/// whether it is paused.
pub struct TimerView {
    pub time: u128,
    pub paused: bool,
}

impl View for Timer {
    type V = TimerView;

    closed spec fn view(&self) -> TimerView {
        TimerView { time: self.last_time, paused: self.paused }
    }
}

/// `a + b`, capped at the largest `u128`.
pub open spec fn saturating_sum(a: u128, b: u128) -> u128 {
    if a + b > u128::MAX {
        u128::MAX
    } else {
        (a + b) as u128
    }
}

/// An event that changes a clock: a pause, an unpause, or an update that
/// measures the given number of milliseconds.
pub enum TimerEvent {
    Pause,
    Unpause,
    Update(u128),
}

/// The clock after an event: a pause or an unpause sets the pause flag and
/// keeps the time; an update adds the measured milliseconds to a running
/// clock and leaves a paused one as it is.
pub open spec fn timer_step(v: TimerView, e: TimerEvent) -> TimerView {
    match e {
        TimerEvent::Pause => TimerView { time: v.time, paused: true },
        TimerEvent::Unpause => TimerView { time: v.time, paused: false },
        TimerEvent::Update(ms) => if v.paused {
            v
        } else {
            TimerView { time: saturating_sum(v.time, ms), paused: false }
        },
    }
}

/// A new clock after a sequence of events.
pub open spec fn timer_run(events: Seq<TimerEvent>) -> TimerView
    decreases events.len(),
{
    if events.len() == 0 {
        TimerView { time: 0, paused: true }
    } else {
        timer_step(timer_run(events.drop_last()), events.last())
    }
}

/// Whether the last pause or unpause among the events is a pause (true when
/// there is none).
pub open spec fn last_toggle_is_pause(events: Seq<TimerEvent>) -> bool
    decreases events.len(),
{
    if events.len() == 0 {
        true
    } else {
        match events.last() {
            TimerEvent::Pause => true,
            TimerEvent::Unpause => false,
            TimerEvent::Update(_) => last_toggle_is_pause(events.drop_last()),
        }
    }
}

/// The time the most recent update among the events returned (0 when there
/// is none).
pub open spec fn time_of_last_update(events: Seq<TimerEvent>) -> u128
    decreases events.len(),
{
    if events.len() == 0 {
        0
    } else {
        match events.last() {
            TimerEvent::Update(_) => timer_run(events).time,
            _ => time_of_last_update(events.drop_last()),
        }
    }
}

/// Starting from a new clock, the clock is paused exactly when no unpause
/// happened or the last pause or unpause was a pause, and its time is what
/// the most recent update returned (0 before any update).
pub proof fn lemma_timer_run(events: Seq<TimerEvent>)
    ensures
        timer_run(events).paused == last_toggle_is_pause(events),
        timer_run(events).time == time_of_last_update(events),
    decreases events.len(),
{
    if events.len() > 0 {
        lemma_timer_run(events.drop_last());
    }
}

/// A clock in state `v` after a sequence of events.
pub open spec fn timer_run_from(v: TimerView, events: Seq<TimerEvent>) -> TimerView
    decreases events.len(),
{
    if events.len() == 0 {
        v
    } else {
        timer_step(timer_run_from(v, events.drop_last()), events.last())
    }
}

/// A paused clock does not advance: any number of updates leave it as it
/// is, so each of them returns the time it had when it was paused.
pub proof fn lemma_paused_clock_is_frozen(v: TimerView, events: Seq<TimerEvent>)
    requires
        v.paused,
        forall|i: int| 0 <= i < events.len() ==> #[trigger] events[i] is Update,
    ensures
        timer_run_from(v, events) == v,
    decreases events.len(),
{
    if events.len() > 0 {
        lemma_paused_clock_is_frozen(v, events.drop_last());
        assert(events[events.len() - 1] is Update);
    }
}

/// After an unpause, the next update adds exactly the milliseconds it
/// measured to the time the clock had, whatever state it was in before.
pub proof fn lemma_update_after_unpause(v: TimerView, ms: u128)
    ensures
        timer_step(timer_step(v, TimerEvent::Unpause), TimerEvent::Update(ms)).time
            == saturating_sum(v.time, ms),
        !timer_step(timer_step(v, TimerEvent::Unpause), TimerEvent::Update(ms)).paused,
{
}

impl Timer {
    /// The instant from which the next update measures elapsed time.
    pub closed spec fn reference(&self) -> Instant {
        self.now
    }

    /// A paused clock at time zero.
    pub fn new() -> (r: Self)
        ensures
            r@ == timer_run(Seq::empty()),
    {
        Self::new_at(instant_now())
    }

    /// A paused clock at time zero whose measurements start at `now`.
    pub fn new_at(now: Instant) -> (r: Self)
        ensures
            r@ == timer_run(Seq::empty()),
            r.reference() == now,
    {
        Self { now, last_time: 0, paused: true }
    }

    pub fn is_paused(&self) -> (r: bool)
        ensures
            r == self@.paused,
    {
        self.paused
    }

    /// Stops the clock; the accumulated time is kept.
    pub fn pause(&mut self)
        ensures
            final(self)@ == timer_step(old(self)@, TimerEvent::Pause),
            final(self).reference() == old(self).reference(),
    {
        self.paused = true;
    }

    /// Starts the clock again from the current instant; the accumulated time
    /// is kept.
    pub fn unpause(&mut self)
        ensures
            final(self)@ == timer_step(old(self)@, TimerEvent::Unpause),
    {
        self.unpause_at(instant_now());
    }

    /// Starts the clock again with `now` as the instant from which the next
    /// update measures, so that time before `now` is not counted; the
    /// accumulated time is kept.
    pub fn unpause_at(&mut self, now: Instant)
        ensures
            final(self)@ == timer_step(old(self)@, TimerEvent::Unpause),
            final(self).reference() == now,
    {
        self.paused = false;
        self.now = now;
    }

    pub fn get_time(&self) -> (r: u128)
        ensures
            r == self@.time,
    {
        self.last_time
    }

    /// Adds `elapsed_ms` milliseconds measured up to the instant `now` and
    /// makes `now` the reference for the next measurement. Returns the new
    /// accumulated time.
    pub fn advance(&mut self, now: Instant, elapsed_ms: u128) -> (r: u128)
        ensures
            final(self)@.time == saturating_sum(old(self)@.time, elapsed_ms),
            final(self)@.paused == old(self)@.paused,
            final(self).reference() == now,
            r == final(self)@.time,
    {
        self.last_time = self.last_time.saturating_add(elapsed_ms);
        self.now = now;
        self.last_time
    }

    /// Updates and returns the current time. A paused clock is left as it
    /// is; a running one gains the milliseconds elapsed since it was last
    /// updated or unpaused, read at the current instant (see `update_at`).
    pub fn update(&mut self) -> (r: u128)
        ensures
            old(self)@.paused ==> final(self)@ == old(self)@ && final(self).reference() == old(
                self,
            ).reference(),
            exists|ms: u128| final(self)@ == timer_step(old(self)@, TimerEvent::Update(ms)),
            old(self)@.time <= final(self)@.time,
            r == final(self)@.time,
    {
        if self.paused {
            assert(self@ == timer_step(self@, TimerEvent::Update(0)));
            return self.last_time;
        }
        self.update_at(instant_now())
    }

    /// An update made at the instant `now`. A paused clock is left as it is;
    /// a running one gains the milliseconds from its reference instant to
    /// `now`, and `now` becomes the reference, so that the next update counts
    /// only the time after this one.
    pub fn update_at(&mut self, now: Instant) -> (r: u128)
        ensures
            old(self)@.paused ==> final(self)@ == old(self)@ && final(self).reference() == old(
                self,
            ).reference(),
            !old(self)@.paused ==> final(self).reference() == now,
            exists|ms: u128| final(self)@ == timer_step(old(self)@, TimerEvent::Update(ms)),
            old(self)@.time <= final(self)@.time,
            r == final(self)@.time,
    {
        if self.paused {
            assert(self@ == timer_step(self@, TimerEvent::Update(0)));
            return self.last_time;
        }
        let elapsed = instant_duration_since(&now, &self.now);
        let ms = duration_as_millis(&elapsed);
        let r = self.advance(now, ms);
        assert(self@ == timer_step(old(self)@, TimerEvent::Update(ms)));
        r
    }
}

} // verus!
