use vstd::prelude::*;

verus! {

/// Keys of a replay frame, mouse buttons included.
#[derive(Debug, Clone, Copy, PartialEq, Eq)]
pub struct ReplayKeys {
    pub k1: bool,
    pub k2: bool,
    pub m1: bool,
    pub m2: bool,
}

impl Default for ReplayKeys {
    fn default() -> (r: Self)
        ensures
            !r.k1 && !r.k2 && !r.m1 && !r.m2,
    {
        Self { k1: false, k2: false, m1: false, m2: false }
    }
}

/// Kind of object a judgement was given to.
#[derive(Debug, Clone, Copy, PartialEq, Eq)]
pub enum JudgementObjectKind {
    Circle,
}

/// Display settings of the replay viewer.
#[derive(Debug, Clone, Copy)]
pub struct ReplayViewerSettings {
    /// Number of frames shown before the current one.
    pub frames_to_show: usize,
    pub frame_point_size: usize,
    pub k1_color: [u8; 3],
    pub k2_color: [u8; 3],
    pub m1_color: [u8; 3],
    pub m2_color: [u8; 3],
}

impl Default for ReplayViewerSettings {
    fn default() -> (r: Self)
        ensures
            r.frames_to_show == 100,
            r.frame_point_size == 10,
            r.k1_color@ == seq![12u8, 12u8, 255u8],
            r.k2_color@ == seq![252u8, 12u8, 12u8],
            r.m1_color@ == seq![51u8, 255u8, 255u8],
            r.m2_color@ == seq![255u8, 51u8, 255u8],
    {
        let r = Self {
            frames_to_show: 100,
            frame_point_size: 10,
            k1_color: [12, 12, 255],
            k2_color: [252, 12, 12],
            m1_color: [51, 255, 255],
            m2_color: [255, 51, 255],
        };
        assert(r.k1_color@ =~= seq![12u8, 12u8, 255u8]);
        assert(r.k2_color@ =~= seq![252u8, 12u8, 12u8]);
        assert(r.m1_color@ =~= seq![51u8, 255u8, 255u8]);
        assert(r.m2_color@ =~= seq![255u8, 51u8, 255u8]);
        r
    }
}

/// The frames of a replay shown by the viewer: from `start` to `end`, both
/// included.
#[derive(Debug, Clone, Copy, PartialEq, Eq)]
pub struct FrameWindow {
    pub start: usize,
    pub end: usize,
}

/// Index of the last frame whose time is at most `time`, when there is one.
pub open spec fn last_frame_at(times: Seq<i64>, time: i64) -> Option<int> {
    if exists|i: int| 0 <= i < times.len() && times[i] <= time {
        Some(
            choose|i: int|
                0 <= i < times.len() && times[i] <= time && forall|j: int|
                    i < j < times.len() ==> times[j] > time,
        )
    } else {
        None
    }
}

impl FrameWindow {
    /// Both ends one frame further, up to the last of `len` frames.
    pub fn step_forward(&mut self, len: usize)
        requires
            len > 0,
        ensures
            final(self).end == (if old(self).end + 1 < len { old(self).end + 1 } else { len - 1 }),
            final(self).start == (if old(self).start + 1 < len { old(self).start + 1 } else { len - 1 }),
    {
        self.end = if self.end < len - 1 {
            self.end + 1
        } else {
            len - 1
        };
        self.start = if self.start < len - 1 {
            self.start + 1
        } else {
            len - 1
        };
    }

    /// Both ends one frame back, down to the first frame.
    pub fn step_back(&mut self)
        ensures
            final(self).end == (if old(self).end > 0 { old(self).end - 1 } else { 0 }),
            final(self).start == (if old(self).start > 0 { old(self).start - 1 } else { 0 }),
    {
        self.end = self.end.saturating_sub(1);
        self.start = self.start.saturating_sub(1);
    }

    /// The window that ends at the last frame at or before `time` and holds
    /// at most `frames_to_show` frames before it.
    pub fn at_time(times: &Vec<i64>, time: i64, frames_to_show: usize) -> (r: Self)
        requires
            last_frame_at(times@, time) is Some,
        ensures
            r.end == last_frame_at(times@, time).unwrap(),
            r.start == (if r.end >= frames_to_show { r.end - frames_to_show } else { 0 }),
    {
        let n = times.len();
        let mut i: usize = n;
        while i > 0 && times[i - 1] > time
            invariant
                i <= n == times@.len(),
                forall|j: int| i <= j < n ==> times@[j] > time,
            decreases i,
        {
            i = i - 1;
        }
        if i == 0 {
            assert(forall|j: int| 0 <= j < n ==> times@[j] > time);
            assert(false);
        }
        let end = i - 1;
        let ghost k = choose|k: int|
            0 <= k < times@.len() && times@[k] <= time && forall|j: int|
                k < j < times@.len() ==> times@[j] > time;
        assert(0 <= end < times@.len() && times@[end as int] <= time && forall|j: int|
            end < j < times@.len() ==> times@[j] > time);
        proof {
            if k < end as int {
                assert(times@[end as int] > time);
            }
            if k > end as int {
                assert(times@[k] > time);
            }
        }
        FrameWindow { start: end.saturating_sub(frames_to_show), end }
    }
}

} // verus!
