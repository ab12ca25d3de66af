use vstd::prelude::*;

verus! {

/// State of the two gameplay keys.
#[derive(Debug, Clone, Copy, PartialEq, Eq)]
pub struct KeyboardState {
    pub k1: bool,
    pub k2: bool,
}

impl KeyboardState {
    /// True when at least one of the two keys is down.
    pub open spec fn any(self) -> bool {
        self.k1 || self.k2
    }

    /// Whether any key is down.
    pub fn is_keys_hit(&self) -> (r: bool)
        ensures
            r == self.any(),
    {
        self.k1 || self.k2
    }

    /// A state with no key down.
    pub fn empty() -> (r: Self)
        ensures
            !r.k1,
            !r.k2,
    {
        Self { k1: false, k2: false }
    }
}

impl Default for KeyboardState {
    fn default() -> (r: Self)
        ensures
            !r.k1,
            !r.k2,
    {
        Self { k1: false, k2: false }
    }
}

/// One recorded input: a timestamp in milliseconds relative to the start of
/// the map, the cursor position (carried through unchanged, of whatever
/// coordinate type the caller uses), the keys that are down and, for each
/// key, whether it was already down on the previous input.
#[derive(Debug, Clone, Copy)]
pub struct OsuInput<P> {
    pub ts: i64,
    pub pos: P,
    pub keys: KeyboardState,
    pub hold: KeyboardState,
}

impl<P: Copy> OsuInput<P> {
    /// A key that is down now and was not down before.
    pub open spec fn spec_hit_no_hold(self) -> bool {
        (self.keys.k1 && !self.hold.k1) || (self.keys.k2 && !self.hold.k2)
    }

    /// A key that is down now and was already down before.
    pub open spec fn spec_keys_hold(self) -> bool {
        (self.keys.k1 && self.hold.k1) || (self.keys.k2 && self.hold.k2)
    }

    /// Returns true if there's input which is not currently being held.
    pub fn is_keys_hit_no_hold(&self) -> (r: bool)
        ensures
            r == self.spec_hit_no_hold(),
    {
        let k1 = self.keys.k1 && !self.hold.k1;
        let k2 = self.keys.k2 && !self.hold.k2;
        k1 || k2
    }

    /// Returns true if there's any input that is currently being held.
    pub fn is_keys_hold(&self) -> (r: bool)
        ensures
            r == self.spec_keys_hold(),
    {
        (self.keys.k1 && self.hold.k1) || (self.keys.k2 && self.hold.k2)
    }

    /// Whether the first key is down and was already down before.
    pub fn is_k1_hold(&self) -> (r: bool)
        ensures
            r == (self.keys.k1 && self.hold.k1),
    {
        self.keys.k1 && self.hold.k1
    }

    /// Whether the second key is down and was already down before.
    pub fn is_k2_hold(&self) -> (r: bool)
        ensures
            r == (self.keys.k2 && self.hold.k2),
    {
        self.keys.k2 && self.hold.k2
    }
}

} // verus!
