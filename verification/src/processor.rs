use vstd::prelude::*;

use crate::input::{KeyboardState, OsuInput};
use crate::replay::{replay_timeline, timeline, times_fit, FrameTiming};
use crate::replay_log::ReplayLog;

verus! {

/// Keys of a release event applied to the keys that were down: a key named
/// in `released` goes up, every other key keeps its state.
pub open spec fn keys_after_release(last: KeyboardState, released: KeyboardState) -> KeyboardState {
    KeyboardState {
        k1: if released.k1 { false } else { last.k1 },
        k2: if released.k2 { false } else { last.k2 },
    }
}

/// Hold flags recorded with a release event.
pub open spec fn hold_after_release(last: KeyboardState, released: KeyboardState) -> KeyboardState {
    KeyboardState { k1: !(last.k1 && released.k1), k2: !(last.k2 && released.k2) }
}

/// Hold flags recorded with a press event: a key counts as held when it was
/// already down on the last stored input.
pub open spec fn hold_after_press<P>(last: Option<OsuInput<P>>, pressed: KeyboardState) -> KeyboardState {
    match last {
        Some(l) => KeyboardState { k1: l.keys.k1 && pressed.k1, k2: l.keys.k2 && pressed.k2 },
        None => KeyboardState { k1: false, k2: false },
    }
}

/// One frame of a recorded replay: its timing, the cursor position and the
/// keys that are down.
#[derive(Debug, Clone, Copy)]
pub struct ReplayFrame<P> {
    pub timing: FrameTiming,
    pub pos: P,
    pub keys: KeyboardState,
}

/// The timings of a sequence of replay frames.
pub open spec fn frame_timings<P>(frames: Seq<ReplayFrame<P>>) -> Seq<FrameTiming> {
    frames.map_values(|f: ReplayFrame<P>| f.timing)
}

/// No key down.
pub open spec fn no_keys() -> KeyboardState {
    KeyboardState { k1: false, k2: false }
}

/// The inputs that a replay yields: one per frame of its timeline, with the
/// frame's time, position and keys; a key counts as held when it is down on
/// this input and on the previous one.
pub open spec fn replay_inputs<P>(frames: Seq<ReplayFrame<P>>) -> Seq<OsuInput<P>> {
    let tl = timeline(frame_timings(frames));
    Seq::new(
        tl.len(),
        |j: int|
            {
                let keys = frames[tl[j].0 as int].keys;
                OsuInput {
                    ts: tl[j].1,
                    pos: frames[tl[j].0 as int].pos,
                    keys,
                    hold: if j == 0 {
                        no_keys()
                    } else {
                        let prev = frames[tl[j - 1].0 as int].keys;
                        KeyboardState { k1: keys.k1 && prev.k1, k2: keys.k2 && prev.k2 }
                    },
                }
            },
    )
}

/// Collects inputs as they happen (or as read from a replay) so that they can
/// be judged against the hit objects, and keeps a log of every input.
pub struct OsuProcessor<P> {
    replay_log: ReplayLog<P>,
    queue: Vec<OsuInput<P>>,
    last_cursor_pos: P,
}

impl<P: Copy> OsuProcessor<P> {
    /// Every input stored so far.
    pub closed spec fn log(&self) -> Seq<OsuInput<P>> {
        self.replay_log@
    }

    /// Inputs stored but not yet handed out for judging.
    pub closed spec fn pending(&self) -> Seq<OsuInput<P>> {
        self.queue@
    }

    /// The last known cursor position.
    pub closed spec fn cursor(&self) -> P {
        self.last_cursor_pos
    }

    /// The last stored input, if any.
    pub open spec fn last_logged(&self) -> Option<OsuInput<P>> {
        if self.log().len() == 0 {
            None
        } else {
            Some(self.log().last())
        }
    }

    /// An empty processor whose cursor stands at `origin`.
    pub fn new(origin: P) -> (r: Self)
        ensures
            r.log() == Seq::<OsuInput<P>>::empty(),
            r.pending() == Seq::<OsuInput<P>>::empty(),
            r.cursor() == origin,
    {
        OsuProcessor { replay_log: ReplayLog::default(), queue: Vec::new(), last_cursor_pos: origin }
    }

    /// A processor whose queue holds the inputs of a recorded replay, ready
    /// to be judged; the log is empty and the cursor stands at `origin`.
    pub fn from_replay(frames: &Vec<ReplayFrame<P>>, origin: P) -> (r: Self)
        requires
            times_fit(frame_timings(frames@)),
        ensures
            r.pending() == replay_inputs(frames@),
            r.log() == Seq::<OsuInput<P>>::empty(),
            r.cursor() == origin,
    {
        let n = frames.len();
        let mut timings: Vec<FrameTiming> = Vec::new();
        let mut i: usize = 0;
        while i < n
            invariant
                n == frames@.len(),
                i <= n,
                timings@.len() == i,
                forall|j: int| 0 <= j < i ==> #[trigger] timings@[j] == frames@[j].timing,
            decreases n - i,
        {
            timings.push(frames[i].timing);
            i = i + 1;
        }
        assert(timings@ =~= frame_timings(frames@));
        let tl = replay_timeline(&timings);
        let ghost spec_inputs = replay_inputs(frames@);
        let m = tl.len();
        let mut queue: Vec<OsuInput<P>> = Vec::new();
        let mut last = KeyboardState::empty();
        let mut j: usize = 0;
        while j < m
            invariant
                n == frames@.len(),
                m == tl@.len(),
                tl@ == timeline(frame_timings(frames@)),
                forall|q: int| 0 <= q < m ==> (#[trigger] tl@[q]).0 < n,
                spec_inputs == replay_inputs(frames@),
                j <= m,
                queue@.len() == j,
                forall|q: int| 0 <= q < j ==> #[trigger] queue@[q] == spec_inputs[q],
                j == 0 ==> last == no_keys(),
                j > 0 ==> last == frames@[tl@[j - 1].0 as int].keys,
            decreases m - j,
        {
            let (idx, ts) = tl[j];
            let f = frames[idx];
            let input = OsuInput {
                ts,
                pos: f.pos,
                keys: f.keys,
                hold: KeyboardState { k1: f.keys.k1 && last.k1, k2: f.keys.k2 && last.k2 },
            };
            queue.push(input);
            last = f.keys;
            j = j + 1;
        }
        assert(queue@ =~= spec_inputs);
        OsuProcessor { replay_log: ReplayLog::default(), queue, last_cursor_pos: origin }
    }

    /// The log of every stored input.
    pub fn replay_log(&self) -> (r: &ReplayLog<P>)
        ensures
            r@ == self.log(),
    {
        &self.replay_log
    }

    /// The inputs that wait to be judged.
    pub fn queue(&self) -> (r: &Vec<OsuInput<P>>)
        ensures
            r@ == self.pending(),
    {
        &self.queue
    }

    /// Hands out the inputs that wait to be judged and empties the queue;
    /// the log is kept.
    pub fn take_queue(&mut self) -> (r: Vec<OsuInput<P>>)
        ensures
            r@ == old(self).pending(),
            final(self).pending() == Seq::<OsuInput<P>>::empty(),
            final(self).log() == old(self).log(),
            final(self).cursor() == old(self).cursor(),
    {
        let mut q = Vec::new();
        std::mem::swap(&mut q, &mut self.queue);
        q
    }

    pub fn set_cursor_pos(&mut self, pos: P)
        ensures
            final(self).cursor() == pos,
            final(self).log() == old(self).log(),
            final(self).pending() == old(self).pending(),
    {
        self.last_cursor_pos = pos;
    }

    /// Stores an input both in the queue and in the log.
    pub fn store_input(&mut self, input: OsuInput<P>)
        ensures
            final(self).log() == old(self).log().push(input),
            final(self).pending() == old(self).pending().push(input),
            final(self).cursor() == old(self).cursor(),
    {
        self.queue.push(input);
        self.replay_log.store_input(input);
    }

    /// A cursor movement: the cursor moves to `pos` and an input is stored
    /// that keeps the keys and hold flags of the last stored input (no key
    /// down when nothing was stored yet).
    pub fn store_cursor_moved(&mut self, ts: i64, pos: P)
        ensures
            final(self).cursor() == pos,
            final(self).log() == old(self).log().push(
                match old(self).last_logged() {
                    Some(l) => OsuInput { ts, pos, keys: l.keys, hold: l.hold },
                    None => OsuInput {
                        ts,
                        pos,
                        keys: KeyboardState { k1: false, k2: false },
                        hold: KeyboardState { k1: false, k2: false },
                    },
                },
            ),
            final(self).pending() == old(self).pending().push(final(self).log().last()),
    {
        self.set_cursor_pos(pos);
        let last = self.replay_log.last_input();
        match last {
            Some(last) => {
                self.store_input(OsuInput { ts, pos, keys: last.keys, hold: last.hold });
            },
            None => {
                self.store_input(
                    OsuInput { ts, pos, keys: KeyboardState::empty(), hold: KeyboardState::empty() },
                );
            },
        }
    }

    /// A release event. `released` names the keys that went up. Nothing is
    /// stored when no input was stored before or when no key is down on the
    /// last stored input; otherwise an input is stored at the current cursor
    /// position with the released keys up.
    pub fn store_keyboard_released(&mut self, ts: i64, released: KeyboardState)
        ensures
            final(self).cursor() == old(self).cursor(),
            old(self).log().len() > 0 ==> (released.k1 ==> !final(self).log().last().keys.k1) && (
            released.k2 ==> !final(self).log().last().keys.k2),
            match old(self).last_logged() {
                Some(l) if l.keys.any() => {
                    let input = OsuInput {
                        ts,
                        pos: old(self).cursor(),
                        keys: keys_after_release(l.keys, released),
                        hold: hold_after_release(l.keys, released),
                    };
                    &&& final(self).log() == old(self).log().push(input)
                    &&& final(self).pending() == old(self).pending().push(input)
                },
                _ => {
                    &&& final(self).log() == old(self).log()
                    &&& final(self).pending() == old(self).pending()
                },
            },
    {
        let last = self.replay_log.last_input();
        match last {
            Some(last) => {
                let last = last.keys;
                if !last.is_keys_hit() {
                    return;
                }
                let input = OsuInput {
                    ts,
                    pos: self.last_cursor_pos,
                    keys: KeyboardState {
                        k1: if released.k1 { false } else { last.k1 },
                        k2: if released.k2 { false } else { last.k2 },
                    },
                    hold: KeyboardState { k1: !(last.k1 && released.k1), k2: !(last.k2 && released.k2) },
                };
                self.store_input(input);
            },
            None => {},
        }
    }

    /// A press event: stores an input at the current cursor position whose
    /// keys are `pressed`; a key counts as held when it was already down on
    /// the last stored input.
    pub fn store_keyboard_pressed(&mut self, ts: i64, pressed: KeyboardState)
        ensures
            final(self).cursor() == old(self).cursor(),
            final(self).log() == old(self).log().push(
                OsuInput {
                    ts,
                    pos: old(self).cursor(),
                    keys: pressed,
                    hold: hold_after_press(old(self).last_logged(), pressed),
                },
            ),
            final(self).pending() == old(self).pending().push(final(self).log().last()),
    {
        let last = self.replay_log.last_input();
        match last {
            Some(last) => {
                let last = last.keys;
                self.store_input(
                    OsuInput {
                        ts,
                        pos: self.last_cursor_pos,
                        keys: KeyboardState { k1: pressed.k1, k2: pressed.k2 },
                        hold: KeyboardState { k1: last.k1 && pressed.k1, k2: last.k2 && pressed.k2 },
                    },
                );
            },
            None => {
                self.store_input(
                    OsuInput {
                        ts,
                        pos: self.last_cursor_pos,
                        keys: pressed,
                        hold: KeyboardState { k1: false, k2: false },
                    },
                );
            },
        }
    }
}

/// On the inputs a replay yields, a key counts as held only when it is
/// down, and nothing is held on the first input.
pub proof fn lemma_replay_holds_are_presses<P>(frames: Seq<ReplayFrame<P>>)
    ensures
        forall|j: int|
            0 <= j < replay_inputs(frames).len() ==> {
                let input = #[trigger] replay_inputs(frames)[j];
                &&& input.hold.k1 ==> input.keys.k1
                &&& input.hold.k2 ==> input.keys.k2
            },
        replay_inputs(frames).len() > 0 ==> replay_inputs(frames)[0].hold == no_keys(),
{
}

/// The inputs a replay yields come in order of time.
pub proof fn lemma_replay_inputs_in_time_order<P>(frames: Seq<ReplayFrame<P>>)
    requires
        frames.len() <= usize::MAX,
    ensures
        forall|i: int, j: int|
            0 <= i < j < replay_inputs(frames).len() ==> #[trigger] replay_inputs(frames)[i].ts
                <= #[trigger] replay_inputs(frames)[j].ts,
{
    crate::replay::lemma_timeline_ordered(frame_timings(frames));
}

/// Releasing exactly the keys that were pressed leaves no key down.
pub proof fn lemma_release_after_press(pressed: KeyboardState)
    ensures
        !keys_after_release(pressed, pressed).any(),
{
}

/// On the inputs a replay yields, each key counts as held exactly when it is
/// down on this input and was down on the previous one; the hold flag of a
/// key depends on that key alone, and nothing is held on the first input.
pub proof fn lemma_replay_hold_rule<P>(frames: Seq<ReplayFrame<P>>)
    ensures
        forall|j: int|
            0 < j < replay_inputs(frames).len() ==> {
                &&& (#[trigger] replay_inputs(frames)[j]).hold.k1 == (replay_inputs(frames)[j].keys.k1
                    && replay_inputs(frames)[j - 1].keys.k1)
                &&& replay_inputs(frames)[j].hold.k2 == (replay_inputs(frames)[j].keys.k2
                    && replay_inputs(frames)[j - 1].keys.k2)
            },
        replay_inputs(frames).len() > 0 ==> !replay_inputs(frames)[0].hold.k1
            && !replay_inputs(frames)[0].hold.k2,
{
    assert forall|j: int| 0 < j < replay_inputs(frames).len() implies {
        &&& (#[trigger] replay_inputs(frames)[j]).hold.k1 == (replay_inputs(frames)[j].keys.k1
            && replay_inputs(frames)[j - 1].keys.k1)
        &&& replay_inputs(frames)[j].hold.k2 == (replay_inputs(frames)[j].keys.k2
            && replay_inputs(frames)[j - 1].keys.k2)
    } by {
        let tl = timeline(frame_timings(frames));
        assert(replay_inputs(frames)[j - 1].keys == frames[tl[j - 1].0 as int].keys);
    }
}

/// After a press, each key counts as held exactly when it is among the
/// pressed keys and was down (not merely held) on the last stored input; a
/// key's hold flag depends on that key alone.
pub proof fn lemma_press_hold_rule<P>(last: Option<OsuInput<P>>, pressed: KeyboardState)
    ensures
        hold_after_press(last, pressed).k1 == (pressed.k1 && (last matches Some(l) && l.keys.k1)),
        hold_after_press(last, pressed).k2 == (pressed.k2 && (last matches Some(l) && l.keys.k2)),
{
}

/// After a release, a key is down exactly when it was down and is not
/// released; its hold flag is false exactly when it was down and is
/// released, so a key that is not released keeps its hold flag true. Each
/// key's flags depend on that key alone.
pub proof fn lemma_release_rule(last: KeyboardState, released: KeyboardState)
    ensures
        keys_after_release(last, released).k1 == (last.k1 && !released.k1),
        keys_after_release(last, released).k2 == (last.k2 && !released.k2),
        hold_after_release(last, released).k1 == !(last.k1 && released.k1),
        hold_after_release(last, released).k2 == !(last.k2 && released.k2),
        !released.k1 ==> hold_after_release(last, released).k1,
        !released.k2 ==> hold_after_release(last, released).k2,
{
}

} // verus!
