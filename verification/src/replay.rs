use vstd::prelude::*;

verus! {

/// What the normalisation of a replay reads from one recorded frame: the
/// milliseconds elapsed since the previous frame, and whether the frame is
/// one of the markers that replays put at position (256, -500) before the
/// real input starts.
#[derive(Debug, Clone, Copy)]
pub struct FrameTiming {
    pub delta: i64,
    pub is_skip_marker: bool,
}

/// Time of frame `n - 1`: the sum of the first `n` deltas.
pub open spec fn elapsed_until(frames: Seq<FrameTiming>, n: int) -> int
    decreases n,
{
    if n <= 0 {
        0
    } else {
        elapsed_until(frames, n - 1) + frames[n - 1].delta
    }
}

/// Every running sum of the deltas fits in an `i64`.
pub open spec fn times_fit(frames: Seq<FrameTiming>) -> bool {
    forall|n: int|
        1 <= n <= frames.len() ==> i64::MIN <= #[trigger] elapsed_until(frames, n) <= i64::MAX
}

/// Absolute time of every frame.
pub open spec fn absolute_times(frames: Seq<FrameTiming>) -> Seq<i64> {
    Seq::new(frames.len(), |i: int| elapsed_until(frames, i + 1) as i64)
}

/// The corrections applied to the first frames of a replay: when the second
/// frame lies before the first, the first moves to time zero and the second
/// takes the first's time; then, when the first lies after the third, the
/// first two take the third's time.
pub open spec fn fix_start_times(t: Seq<i64>) -> Seq<i64> {
    let t1 = if t.len() >= 2 && t[1] < t[0] {
        t.update(1, t[0]).update(0, 0)
    } else {
        t
    };
    if t1.len() >= 3 && t1[0] > t1[2] {
        t1.update(0, t1[2]).update(1, t1[2])
    } else {
        t1
    }
}

/// Pairs each frame index with its time, then drops the second and the
/// first frame when they are skip markers.
pub open spec fn without_skip_markers(frames: Seq<FrameTiming>, t: Seq<i64>) -> Seq<(usize, i64)> {
    let e = Seq::new(t.len(), |i: int| (i as usize, t[i]));
    let e1 = if t.len() >= 2 && frames[1].is_skip_marker {
        e.remove(1)
    } else {
        e
    };
    if t.len() >= 1 && frames[0].is_skip_marker {
        e1.remove(0)
    } else {
        e1
    }
}

/// Keeps an entry unless its time lies before the time of the last entry
/// kept.
pub open spec fn chronological(s: Seq<(usize, i64)>) -> Seq<(usize, i64)>
    decreases s.len(),
{
    if s.len() == 0 {
        Seq::empty()
    } else {
        let prev = chronological(s.drop_last());
        if prev.len() > 0 && s.last().1 < prev.last().1 {
            prev
        } else {
            prev.push(s.last())
        }
    }
}

/// The frames of a replay that take part in play, each as the index of the
/// recorded frame and its time in milliseconds.
pub open spec fn timeline(frames: Seq<FrameTiming>) -> Seq<(usize, i64)> {
    chronological(without_skip_markers(frames, fix_start_times(absolute_times(frames))))
}

/// Entries in order of time.
pub open spec fn time_ordered(s: Seq<(usize, i64)>) -> bool {
    forall|i: int, j: int| 0 <= i < j < s.len() ==> #[trigger] s[i].1 <= #[trigger] s[j].1
}

/// Indices strictly increasing.
pub open spec fn index_ordered(s: Seq<(usize, i64)>) -> bool {
    forall|i: int, j: int| 0 <= i < j < s.len() ==> #[trigger] s[i].0 < #[trigger] s[j].0
}

fn absolute_times_exec(frames: &Vec<FrameTiming>) -> (t: Vec<i64>)
    requires
        times_fit(frames@),
    ensures
        t@ == absolute_times(frames@),
{
    let n = frames.len();
    let mut t: Vec<i64> = Vec::new();
    let mut acc: i64 = 0;
    let mut i: usize = 0;
    while i < n
        invariant
            n == frames@.len(),
            times_fit(frames@),
            i <= n,
            acc == elapsed_until(frames@, i as int),
            t@.len() == i,
            forall|j: int| 0 <= j < i ==> t@[j] == absolute_times(frames@)[j],
        decreases n - i,
    {
        assert(elapsed_until(frames@, i + 1) == acc + frames@[i as int].delta);
        assert(i64::MIN <= elapsed_until(frames@, i + 1) <= i64::MAX);
        acc = acc + frames[i].delta;
        t.push(acc);
        i = i + 1;
    }
    assert(t@ =~= absolute_times(frames@));
    t
}

fn fix_start_times_exec(t: &mut Vec<i64>)
    ensures
        final(t)@ == fix_start_times(old(t)@),
{
    let n = t.len();
    if n >= 2 && t[1] < t[0] {
        let t0 = t[0];
        t.set(1, t0);
        t.set(0, 0);
    }
    if n >= 3 && t[0] > t[2] {
        let t2 = t[2];
        t.set(0, t2);
        t.set(1, t2);
    }
    assert(t@ =~= fix_start_times(old(t)@));
}

fn without_skip_markers_exec(frames: &Vec<FrameTiming>, t: &Vec<i64>) -> (e: Vec<(usize, i64)>)
    requires
        t@.len() == frames@.len(),
    ensures
        e@ == without_skip_markers(frames@, t@),
        forall|j: int| 0 <= j < e@.len() ==> (#[trigger] e@[j]).0 < frames@.len(),
{
    let n = t.len();
    let mut e: Vec<(usize, i64)> = Vec::new();
    let mut k: usize = 0;
    while k < n
        invariant
            n == t@.len(),
            k <= n,
            e@.len() == k,
            forall|j: int| 0 <= j < k ==> #[trigger] e@[j] == (j as usize, t@[j]),
        decreases n - k,
    {
        e.push((k, t[k]));
        k = k + 1;
    }
    assert(e@ =~= Seq::new(t@.len(), |i: int| (i as usize, t@[i])));
    if n >= 2 && frames[1].is_skip_marker {
        e.remove(1);
    }
    if n >= 1 && frames[0].is_skip_marker {
        e.remove(0);
    }
    assert(e@ =~= without_skip_markers(frames@, t@));
    e
}

fn chronological_exec(e: &Vec<(usize, i64)>, bound: usize) -> (out: Vec<(usize, i64)>)
    requires
        forall|q: int| 0 <= q < e@.len() ==> (#[trigger] e@[q]).0 < bound,
    ensures
        out@ == chronological(e@),
        forall|q: int| 0 <= q < out@.len() ==> (#[trigger] out@[q]).0 < bound,
{
    let m = e.len();
    let mut out: Vec<(usize, i64)> = Vec::new();
    let mut j: usize = 0;
    while j < m
        invariant
            m == e@.len(),
            j <= m,
            forall|q: int| 0 <= q < m ==> (#[trigger] e@[q]).0 < bound,
            out@ == chronological(e@.take(j as int)),
            forall|q: int| 0 <= q < out@.len() ==> (#[trigger] out@[q]).0 < bound,
        decreases m - j,
    {
        assert(e@.take(j + 1).drop_last() =~= e@.take(j as int));
        assert(e@.take(j + 1).last() == e@[j as int]);
        let entry = e[j];
        let olen = out.len();
        if olen > 0 && entry.1 < out[olen - 1].1 {
        } else {
            out.push(entry);
        }
        j = j + 1;
    }
    assert(e@.take(m as int) =~= e@);
    out
}

/// Turns the recorded frames of a replay into the frames that take part in
/// play: absolute times are summed from the deltas, the first frames are
/// corrected, skip markers are dropped and frames that lie before an earlier
/// one are left out.
pub fn replay_timeline(frames: &Vec<FrameTiming>) -> (r: Vec<(usize, i64)>)
    requires
        times_fit(frames@),
    ensures
        r@ == timeline(frames@),
        forall|j: int| 0 <= j < r@.len() ==> (#[trigger] r@[j]).0 < frames@.len(),
{
    let mut t = absolute_times_exec(frames);
    fix_start_times_exec(&mut t);
    let e = without_skip_markers_exec(frames, &t);
    chronological_exec(&e, frames.len())
}

/// The frames kept by the normalisation come in order of time.
pub proof fn lemma_chronological_time_ordered(s: Seq<(usize, i64)>)
    ensures
        time_ordered(chronological(s)),
    decreases s.len(),
{
    if s.len() > 0 {
        lemma_chronological_time_ordered(s.drop_last());
    }
}

/// Every entry kept by `chronological` is an entry of its argument, and
/// strictly increasing indices stay strictly increasing.
pub proof fn lemma_chronological_subsequence(s: Seq<(usize, i64)>)
    ensures
        forall|j: int| 0 <= j < chronological(s).len() ==> s.contains(#[trigger] chronological(s)[j]),
        index_ordered(s) ==> index_ordered(chronological(s)),
    decreases s.len(),
{
    if s.len() > 0 {
        let d = s.drop_last();
        lemma_chronological_subsequence(d);
        let prev = chronological(d);
        assert forall|j: int| 0 <= j < prev.len() implies s.contains(#[trigger] prev[j]) by {
            let k = choose|k: int| 0 <= k < d.len() && d[k] == prev[j];
            assert(s[k] == prev[j]);
        }
        assert(s[s.len() - 1] == s.last());
        if index_ordered(s) {
            assert(index_ordered(d));
            assert forall|j: int| 0 <= j < prev.len() implies (#[trigger] prev[j]).0 < s.last().0 by {
                let k = choose|k: int| 0 <= k < d.len() && d[k] == prev[j];
                assert(s[k] == d[k]);
            }
        }
    }
}

/// The frames that take part in play come in order of time, and in the
/// order in which they were recorded.
pub proof fn lemma_timeline_ordered(frames: Seq<FrameTiming>)
    requires
        frames.len() <= usize::MAX,
    ensures
        time_ordered(timeline(frames)),
        index_ordered(timeline(frames)),
{
    let t = fix_start_times(absolute_times(frames));
    let s = without_skip_markers(frames, t);
    lemma_chronological_time_ordered(s);
    let e = Seq::new(t.len(), |i: int| (i as usize, t[i]));
    assert forall|i: int, j: int| 0 <= i < j < e.len() implies #[trigger] e[i].0 < #[trigger] e[j].0 by {
        assert(e[i].0 == i);
        assert(e[j].0 == j);
    }
    let e1 = if t.len() >= 2 && frames[1].is_skip_marker {
        e.remove(1)
    } else {
        e
    };
    assert(index_ordered(e1)) by {
        if t.len() >= 2 && frames[1].is_skip_marker {
            assert forall|i: int, j: int| 0 <= i < j < e1.len() implies #[trigger] e1[i].0
                < #[trigger] e1[j].0 by {
                let a = if i < 1 { i } else { i + 1 };
                let b = if j < 1 { j } else { j + 1 };
                assert(e1[i] == e[a]);
                assert(e1[j] == e[b]);
            }
        }
    }
    assert(index_ordered(s)) by {
        if t.len() >= 1 && frames[0].is_skip_marker {
            assert forall|i: int, j: int| 0 <= i < j < s.len() implies #[trigger] s[i].0
                < #[trigger] s[j].0 by {
                assert(s[i] == e1[i + 1]);
                assert(s[j] == e1[j + 1]);
            }
        }
    }
    lemma_chronological_subsequence(s);
}

} // verus!
