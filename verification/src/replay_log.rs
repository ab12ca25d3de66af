use vstd::prelude::*;

use crate::input::OsuInput;

verus! {

/// Every input stored during a play, in the order it was stored.
pub struct ReplayLog<P> {
    frames: Vec<OsuInput<P>>,
}

impl<P: Copy> View for ReplayLog<P> {
    type V = Seq<OsuInput<P>>;

    closed spec fn view(&self) -> Seq<OsuInput<P>> {
        self.frames@
    }
}

impl<P: Copy> Default for ReplayLog<P> {
    fn default() -> (r: Self)
        ensures
            r@ == Seq::<OsuInput<P>>::empty(),
    {
        ReplayLog { frames: Vec::new() }
    }
}

impl<P: Copy> ReplayLog<P> {
    /// Appends an input at the end of the log.
    pub fn store_input(&mut self, input: OsuInput<P>)
        ensures
            final(self)@ == old(self)@.push(input),
    {
        self.frames.push(input);
    }

    /// The most recently stored input, if any.
    pub fn last_input(&self) -> (r: Option<OsuInput<P>>)
        ensures
            r == (if self@.len() == 0 {
                None
            } else {
                Some(self@.last())
            }),
    {
        let n = self.frames.len();
        if n == 0 {
            None
        } else {
            Some(self.frames[n - 1])
        }
    }
}

/// The contents of a new log after it stored each input of `xs` in turn.
pub open spec fn stored_in_turn<P>(xs: Seq<OsuInput<P>>) -> Seq<OsuInput<P>>
    decreases xs.len(),
{
    if xs.len() == 0 {
        Seq::empty()
    } else {
        stored_in_turn(xs.drop_last()).push(xs.last())
    }
}

/// A new log that stored the inputs `xs` in turn holds exactly `xs`, so its
/// last input is the last one stored (none when nothing was stored).
pub proof fn lemma_last_input_after_stores<P>(xs: Seq<OsuInput<P>>)
    ensures
        stored_in_turn(xs) == xs,
        (if stored_in_turn(xs).len() == 0 {
            None
        } else {
            Some(stored_in_turn(xs).last())
        }) == (if xs.len() == 0 {
            None
        } else {
            Some(xs.last())
        }),
    decreases xs.len(),
{
    if xs.len() > 0 {
        lemma_last_input_after_stores(xs.drop_last());
        assert(xs.drop_last().push(xs.last()) =~= xs);
    } else {
        assert(xs =~= Seq::<OsuInput<P>>::empty());
    }
}

} // verus!
