use vstd::prelude::*;

use crate::input::{KeyboardState, OsuInput};

verus! {

/// Judgement given to a hit object.
#[derive(Debug, Clone, Copy, PartialEq, Eq)]
pub enum Hit {
    X300,
    X100,
    X50,
    MISS,
}

/// Progress of the judgement of a slider.
#[derive(Debug, Clone, Copy, PartialEq, Eq)]
pub enum SliderResultState {
    /// Checking for a hit on the slider head.
    Start,
    /// The head was hit; going through the checkpoints.
    Middle,
    /// All checkpoints passed; checking the slider end.
    End,
    /// All processing of the slider is done.
    Passed,
}

impl Default for SliderResultState {
    fn default() -> (r: Self)
        ensures
            r == SliderResultState::Start,
    {
        SliderResultState::Start
    }
}

/// Kind of curve a slider follows.
#[derive(Debug, Clone, Copy, PartialEq, Eq)]
pub enum SliderKind {
    Linear,
    Bezier,
    Catmull,
    PerfCircle,
}

/// The key that starts a slider whose head is hit by `input`: 1 when the
/// first key was newly pressed, otherwise 2 (the second key was).
pub fn head_start_key<P: Copy>(input: &OsuInput<P>) -> (k: u8)
    requires
        input.spec_hit_no_hold(),
    ensures
        k == (if input.keys.k1 && !input.hold.k1 {
            1u8
        } else {
            2u8
        }),
{
    if input.keys.k1 && !input.hold.k1 {
        1
    } else {
        2
    }
}

/// The key recorded for a slider whose head was missed, taken from the
/// input that starts following it: 1 when the first key is down, otherwise
/// 2 (the second key is).
pub fn missed_head_start_key<P: Copy>(input: &OsuInput<P>) -> (k: u8)
    requires
        input.keys.any(),
    ensures
        k == (if input.keys.k1 {
            1u8
        } else {
            2u8
        }),
{
    if input.keys.k1 {
        1
    } else {
        2
    }
}

/// The start key after an input with `keys`: it is forgotten (0) when the
/// start key is 2 and the first key is up, or when it is 1 and the second
/// key is up; otherwise it is kept.
pub fn release_start_key(start_keys: u8, keys: KeyboardState) -> (r: u8)
    ensures
        r == (if start_keys > 0 && ((start_keys == 2 && !keys.k1) || (start_keys == 1 && !keys.k2)) {
            0u8
        } else {
            start_keys
        }),
{
    if start_keys > 0 {
        if start_keys == 2 && !keys.k1 || start_keys == 1 && !keys.k2 {
            return 0;
        }
    }
    start_keys
}

/// Whether an input keeps a slider held: without a start key, any key that
/// is held counts; with start key 1 only the first key held counts;
/// otherwise only the second key held counts.
pub fn slider_holding<P: Copy>(start_keys: u8, input: &OsuInput<P>) -> (r: bool)
    ensures
        r == (if start_keys < 1 {
            input.spec_keys_hold()
        } else if start_keys == 1 {
            input.keys.k1 && input.hold.k1
        } else {
            input.keys.k2 && input.hold.k2
        }),
{
    let mouse_down_acceptance = if start_keys == 1 {
        input.is_k1_hold()
    } else {
        input.is_k2_hold()
    };
    if start_keys < 1 {
        input.is_keys_hold()
    } else {
        mouse_down_acceptance
    }
}

/// The colour index after the first `n` hit objects: it starts at 1, goes
/// up by one at each new combo and wraps to 0 when it passes 8.
pub open spec fn colour_index_after(new_combo: Seq<bool>, n: int) -> int
    decreases n,
{
    if n <= 0 {
        1
    } else {
        let prev = colour_index_after(new_combo, n - 1);
        let next = if new_combo[n - 1] {
            prev + 1
        } else {
            prev
        };
        if next > 8 {
            0
        } else {
            next
        }
    }
}

/// Colour index of each hit object, given for each whether it starts a new
/// combo.
pub fn combo_colour_indices(new_combo: &Vec<bool>) -> (r: Vec<usize>)
    ensures
        r@.len() == new_combo@.len(),
        forall|i: int| 0 <= i < r@.len() ==> #[trigger] r@[i] == colour_index_after(new_combo@, i + 1),
{
    let n = new_combo.len();
    let mut r: Vec<usize> = Vec::new();
    let mut colour_index: usize = 1;
    let mut i: usize = 0;
    while i < n
        invariant
            n == new_combo@.len(),
            i <= n,
            r@.len() == i,
            colour_index == colour_index_after(new_combo@, i as int),
            colour_index <= 8,
            forall|j: int| 0 <= j < i ==> #[trigger] r@[j] == colour_index_after(new_combo@, j + 1),
        decreases n - i,
    {
        if new_combo[i] {
            colour_index = colour_index + 1;
        }
        if colour_index > 8 {
            colour_index = 0;
        }
        r.push(colour_index);
        i = i + 1;
    }
    r
}

/// A colour index is always one of 0 to 8, so it can index a palette of
/// nine colours.
pub proof fn lemma_colour_index_bounded(new_combo: Seq<bool>, n: int)
    ensures
        0 <= colour_index_after(new_combo, n) <= 8,
    decreases n,
{
    if n > 0 {
        lemma_colour_index_bounded(new_combo, n - 1);
    }
}

} // verus!
