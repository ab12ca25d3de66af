use vstd::prelude::*;

verus! {

/// Which screen the game shows.
#[derive(Debug, Clone, Copy, PartialEq, Eq)]
pub enum OsuStates {
    Playing,
    SongSelection,
}

/// The settings panel: open or closed.
pub struct SettingsScreen {
    is_open: bool,
}

impl View for SettingsScreen {
    type V = bool;

    closed spec fn view(&self) -> bool {
        self.is_open
    }
}

impl SettingsScreen {
    /// A closed panel.
    pub fn new() -> (r: Self)
        ensures
            !r@,
    {
        Self { is_open: false }
    }

    /// Opens a closed panel and closes an open one.
    pub fn toggle(&mut self)
        ensures
            final(self)@ == !old(self)@,
    {
        self.is_open = if self.is_open {
            false
        } else {
            true
        }
    }

    pub fn close(&mut self)
        ensures
            !final(self)@,
    {
        self.is_open = false;
    }

    pub fn is_open(&self) -> (r: bool)
        ensures
            r == self@,
    {
        self.is_open
    }
}

/// Selection state of the song list: the rows currently loaded in the
/// cache (from `min` to `max`), the selected row, and a pending request to
/// scroll to a row.
pub struct SongSelectScreen {
    min: usize,
    max: usize,
    current: usize,
    need_scroll_to: Option<usize>,
}

pub struct SongSelectView {
    pub min: usize,
    pub max: usize,
    pub current: usize,
    pub need_scroll_to: Option<usize>,
}

impl View for SongSelectScreen {
    type V = SongSelectView;

    closed spec fn view(&self) -> SongSelectView {
        SongSelectView {
            min: self.min,
            max: self.max,
            current: self.current,
            need_scroll_to: self.need_scroll_to,
        }
    }
}

impl SongSelectScreen {
    /// The first row selected, nothing loaded, no pending scroll.
    pub fn new() -> (r: Self)
        ensures
            r@.min == 0 && r@.max == 0 && r@.current == 0 && r@.need_scroll_to is None,
    {
        Self { min: 0, max: 0, current: 0, need_scroll_to: None }
    }

    /// Position of the selected row within the loaded rows.
    pub fn current_in_cache(&self) -> (r: usize)
        requires
            self@.min <= self@.current,
        ensures
            r == self@.current - self@.min,
    {
        self.current - self.min
    }

    /// Requests a scroll to row `to`.
    pub fn set_scroll_to(&mut self, to: usize)
        ensures
            final(self)@.need_scroll_to == Some(to),
            final(self)@.min == old(self)@.min,
            final(self)@.max == old(self)@.max,
            final(self)@.current == old(self)@.current,
    {
        self.need_scroll_to = Some(to);
    }

    /// Requests a scroll to the row after the selected one.
    pub fn increment_beatmap(&mut self)
        requires
            old(self)@.current < usize::MAX,
        ensures
            final(self)@.need_scroll_to == Some((old(self)@.current + 1) as usize),
            final(self)@.min == old(self)@.min,
            final(self)@.max == old(self)@.max,
            final(self)@.current == old(self)@.current,
    {
        self.set_scroll_to(self.current + 1);
    }

    /// Requests a scroll to the row before the selected one (the first row
    /// stays the first).
    pub fn decrement_beatmap(&mut self)
        ensures
            final(self)@.need_scroll_to == Some(
                if old(self)@.current > 0 {
                    (old(self)@.current - 1) as usize
                } else {
                    0usize
                },
            ),
            final(self)@.min == old(self)@.min,
            final(self)@.max == old(self)@.max,
            final(self)@.current == old(self)@.current,
    {
        self.set_scroll_to(self.current.saturating_sub(1));
    }

    /// The row a pending scroll request asks for, if any.
    pub fn scroll_request(&self) -> (r: Option<usize>)
        ensures
            r == self@.need_scroll_to,
    {
        self.need_scroll_to
    }

    /// Carries out a pending scroll request once it is known whether the
    /// requested row exists in the song database (`row_found`): the request
    /// is cleared, and the requested row becomes the selected one only when
    /// it was found. Returns the request that was taken.
    pub fn take_scroll_request(&mut self, row_found: bool) -> (r: Option<usize>)
        ensures
            r == old(self)@.need_scroll_to,
            final(self)@.need_scroll_to is None,
            final(self)@.current == (match r {
                Some(to) => if row_found {
                    to
                } else {
                    old(self)@.current
                },
                None => old(self)@.current,
            }),
            final(self)@.min == old(self)@.min,
            final(self)@.max == old(self)@.max,
    {
        let r = self.need_scroll_to.take();
        if let Some(to) = r {
            if row_found {
                self.current = to;
            }
        }
        r
    }

    /// Records which rows are loaded in the cache.
    pub fn set_loaded_rows(&mut self, min: usize, max: usize)
        ensures
            final(self)@.min == min,
            final(self)@.max == max,
            final(self)@.current == old(self)@.current,
            final(self)@.need_scroll_to == old(self)@.need_scroll_to,
    {
        self.min = min;
        self.max = max;
    }

    /// Selects row `id`.
    pub fn select(&mut self, id: usize)
        ensures
            final(self)@.current == id,
            final(self)@.min == old(self)@.min,
            final(self)@.max == old(self)@.max,
            final(self)@.need_scroll_to == old(self)@.need_scroll_to,
    {
        self.current = id;
    }
}

/// Kind of a hit object, as counted on a beatmap card.
#[derive(Debug, Clone, Copy, PartialEq, Eq)]
pub enum ObjectCategory {
    Circle,
    Slider,
    Spinner,
    Hold,
}

/// Number of circles, sliders and spinners of a beatmap.
#[derive(Debug, Clone, Copy, PartialEq, Eq)]
pub struct ObjectCounts {
    pub circles: usize,
    pub sliders: usize,
    pub spinners: usize,
}

/// Number of objects of kind `k` among `kinds`.
pub open spec fn count_kind(kinds: Seq<ObjectCategory>, k: ObjectCategory) -> int
    decreases kinds.len(),
{
    if kinds.len() == 0 {
        0
    } else {
        count_kind(kinds.drop_last(), k) + if kinds.last() == k {
            1int
        } else {
            0int
        }
    }
}

proof fn lemma_count_kind_bounded(kinds: Seq<ObjectCategory>, k: ObjectCategory)
    ensures
        0 <= count_kind(kinds, k) <= kinds.len(),
    decreases kinds.len(),
{
    if kinds.len() > 0 {
        lemma_count_kind_bounded(kinds.drop_last(), k);
    }
}

/// Counts the circles, sliders and spinners of a beatmap.
pub fn count_objects(kinds: &Vec<ObjectCategory>) -> (r: ObjectCounts)
    ensures
        r.circles == count_kind(kinds@, ObjectCategory::Circle),
        r.sliders == count_kind(kinds@, ObjectCategory::Slider),
        r.spinners == count_kind(kinds@, ObjectCategory::Spinner),
{
    let n = kinds.len();
    let mut r = ObjectCounts { circles: 0, sliders: 0, spinners: 0 };
    let mut i: usize = 0;
    while i < n
        invariant
            i <= n == kinds@.len(),
            r.circles == count_kind(kinds@.take(i as int), ObjectCategory::Circle),
            r.sliders == count_kind(kinds@.take(i as int), ObjectCategory::Slider),
            r.spinners == count_kind(kinds@.take(i as int), ObjectCategory::Spinner),
        decreases n - i,
    {
        proof {
            assert(kinds@.take(i + 1).drop_last() =~= kinds@.take(i as int));
            assert(kinds@.take(i + 1).last() == kinds@[i as int]);
            lemma_count_kind_bounded(kinds@.take(i as int), ObjectCategory::Circle);
            lemma_count_kind_bounded(kinds@.take(i as int), ObjectCategory::Slider);
            lemma_count_kind_bounded(kinds@.take(i as int), ObjectCategory::Spinner);
        }
        match kinds[i] {
            ObjectCategory::Circle => {
                r.circles = r.circles + 1;
            },
            ObjectCategory::Slider => {
                r.sliders = r.sliders + 1;
            },
            ObjectCategory::Spinner => {
                r.spinners = r.spinners + 1;
            },
            ObjectCategory::Hold => {},
        }
        i = i + 1;
    }
    assert(kinds@.take(n as int) =~= kinds@);
    r
}

/// Length of a beatmap shown as minutes and seconds, from the end time of
/// its last object in milliseconds (whole seconds only).
pub fn length_minutes_seconds(last_end_ms: u64) -> (r: (u64, u64))
    ensures
        r.0 == last_end_ms / 1000 / 60,
        r.1 == (last_end_ms / 1000) % 60,
{
    let secs = last_end_ms / 1000;
    (secs / 60, secs % 60)
}

} // verus!
