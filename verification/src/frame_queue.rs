//! PTS-ordered, size- and byte-bounded buffer of decoded video frames
//! with drop-oldest eviction, plus the render-pacing timing controller.
//!
//! The queue's contract is functional: `push_frame` produces exactly
//! `pushed(old contents, frame, limits)` — evict from the front while the
//! queue is over its frame or byte budget, then insert the new frame at
//! the position that keeps PTS ascending.

use vstd::prelude::*;
use crate::error::{CCPlayerError, Result};
use crate::frame::{VideoFrame, frame_bytes, estimate_frame_size};
use crate::sync::PTS_BOUND;
use std::collections::VecDeque;

verus! {

/// The byte size a frame is accounted with: its backing-store size,
/// saturated at `usize::MAX`.
pub open spec fn est_size(f: VideoFrame) -> nat {
    if frame_bytes(f) > usize::MAX {
        usize::MAX as nat
    } else {
        frame_bytes(f)
    }
}

/// Total accounted bytes of a sequence of frames.
pub open spec fn size_sum(s: Seq<VideoFrame>) -> nat
    decreases s.len(),
{
    if s.len() == 0 {
        0
    } else {
        est_size(s[0]) + size_sum(s.drop_first())
    }
}

/// Frames are sorted ascending by PTS.
pub open spec fn pts_sorted(s: Seq<VideoFrame>) -> bool {
    forall|i: int, j: int| 0 <= i <= j < s.len() ==> #[trigger] s[i].pts <= #[trigger] s[j].pts
}

/// Every frame's PTS is within the pipeline's timestamp bound.
pub open spec fn pts_bounded(s: Seq<VideoFrame>) -> bool {
    forall|i: int| 0 <= i < s.len() ==> -PTS_BOUND <= #[trigger] s[i].pts <= PTS_BOUND
}

/// The first index whose frame has a PTS strictly greater than `pts`;
/// the length if there is none. Inserting at this index keeps a sorted
/// sequence sorted and puts the new frame after its equals.
pub open spec fn insert_pos(s: Seq<VideoFrame>, pts: i64) -> int
    decreases s.len(),
{
    if s.len() == 0 {
        0
    } else if s[0].pts > pts {
        0
    } else {
        1 + insert_pos(s.drop_first(), pts)
    }
}

/// Evict from the front while the queue is over either budget: too many
/// frames, or too many bytes once `incoming` more are accounted.
pub open spec fn evicted(
    s: Seq<VideoFrame>,
    incoming: nat,
    max_frames: nat,
    max_size: nat,
) -> Seq<VideoFrame>
    decreases s.len(),
{
    if s.len() == 0 {
        s
    } else if s.len() >= max_frames || size_sum(s) + incoming > max_size {
        evicted(s.drop_first(), incoming, max_frames, max_size)
    } else {
        s
    }
}

/// Drop frames from the front while their PTS is strictly below `pts`.
pub open spec fn drop_lt(s: Seq<VideoFrame>, pts: i64) -> Seq<VideoFrame>
    decreases s.len(),
{
    if s.len() == 0 {
        s
    } else if s[0].pts < pts {
        drop_lt(s.drop_first(), pts)
    } else {
        s
    }
}

/// What a push produces: evict until there is room, then insert the new
/// frame at its PTS position.
pub open spec fn pushed(
    s: Seq<VideoFrame>,
    f: VideoFrame,
    max_frames: nat,
    max_size: nat,
) -> Seq<VideoFrame> {
    let t = evicted(s, est_size(f), max_frames, max_size);
    t.insert(insert_pos(t, f.pts), f)
}

/// `insert_pos` lies within the sequence, everything before it is `<=
/// pts`, and the element at it (if any) is `> pts`.
pub proof fn lemma_insert_pos_properties(s: Seq<VideoFrame>, pts: i64)
    ensures
        0 <= insert_pos(s, pts) <= s.len(),
        forall|j: int| 0 <= j < insert_pos(s, pts) ==> #[trigger] s[j].pts <= pts,
        insert_pos(s, pts) < s.len() ==> s[insert_pos(s, pts)].pts > pts,
    decreases s.len(),
{
    if s.len() == 0 {
    } else if s[0].pts > pts {
    } else {
        lemma_insert_pos_properties(s.drop_first(), pts);
        assert forall|j: int| 0 <= j < insert_pos(s, pts) implies #[trigger] s[j].pts
            <= pts by {
            if j > 0 {
                assert(s.drop_first()[j - 1] == s[j]);
            }
        }
    }
}

/// Inserting a frame at its `insert_pos` keeps a sorted sequence sorted.
pub proof fn lemma_insert_keeps_sorted(s: Seq<VideoFrame>, f: VideoFrame)
    requires
        pts_sorted(s),
    ensures
        pts_sorted(s.insert(insert_pos(s, f.pts), f)),
{
    let p = insert_pos(s, f.pts);
    lemma_insert_pos_properties(s, f.pts);
    let t = s.insert(p, f);
    assert forall|i: int, j: int| 0 <= i <= j < t.len() implies #[trigger] t[i].pts
        <= #[trigger] t[j].pts by {
        if i < p && j < p {
            assert(t[i] == s[i] && t[j] == s[j]);
        } else if i < p && j == p {
            assert(t[i] == s[i]);
        } else if i < p && j > p {
            assert(t[i] == s[i] && t[j] == s[j - 1]);
            if j - 1 >= p {
                assert(s[p].pts > f.pts);
                assert(s[p].pts <= s[j - 1].pts);
            }
        } else if i == p && j == p {
        } else if i == p && j > p {
            assert(t[j] == s[j - 1]);
            assert(s[p].pts > f.pts);
            assert(s[p].pts <= s[j - 1].pts);
        } else {
            assert(t[i] == s[i - 1] && t[j] == s[j - 1]);
        }
    }
}

/// Inserting adds the frame's accounted size to the total.
pub proof fn lemma_size_sum_insert(s: Seq<VideoFrame>, i: int, f: VideoFrame)
    requires
        0 <= i <= s.len(),
    ensures
        size_sum(s.insert(i, f)) == size_sum(s) + est_size(f),
    decreases s.len(),
{
    let t = s.insert(i, f);
    if i == 0 {
        assert(t[0] == f);
        assert(t.drop_first() =~= s);
    } else {
        assert(t[0] == s[0]);
        assert(t.drop_first() =~= s.drop_first().insert(i - 1, f));
        lemma_size_sum_insert(s.drop_first(), i - 1, f);
    }
}

/// The eviction result is a suffix of the input, and it either is empty
/// or fits both budgets with `incoming` more bytes accounted.
pub proof fn lemma_evicted_properties(
    s: Seq<VideoFrame>,
    incoming: nat,
    max_frames: nat,
    max_size: nat,
)
    requires
        max_frames >= 1,
    ensures
        ({
            let t = evicted(s, incoming, max_frames, max_size);
            &&& t =~= s.subrange(s.len() - t.len(), s.len() as int)
            &&& t.len() <= s.len()
            &&& t.len() == 0 || (t.len() < max_frames && size_sum(t) + incoming <= max_size)
        }),
    decreases s.len(),
{
    let t = evicted(s, incoming, max_frames, max_size);
    if s.len() == 0 {
    } else if s.len() >= max_frames || size_sum(s) + incoming > max_size {
        lemma_evicted_properties(s.drop_first(), incoming, max_frames, max_size);
        let d = s.drop_first();
        let td = evicted(d, incoming, max_frames, max_size);
        assert(td =~= d.subrange(d.len() - td.len(), d.len() as int));
        assert(t =~= s.subrange(s.len() - t.len(), s.len() as int));
    } else {
        assert(t =~= s.subrange(0, s.len() as int));
    }
}

/// A suffix of a sorted, bounded sequence is sorted and bounded.
pub proof fn lemma_suffix_keeps_order(s: Seq<VideoFrame>, k: int)
    requires
        0 <= k <= s.len(),
        pts_sorted(s),
        pts_bounded(s),
    ensures
        pts_sorted(s.subrange(k, s.len() as int)),
        pts_bounded(s.subrange(k, s.len() as int)),
{
    let t = s.subrange(k, s.len() as int);
    assert forall|i: int, j: int| 0 <= i <= j < t.len() implies #[trigger] t[i].pts
        <= #[trigger] t[j].pts by {
        assert(t[i] == s[k + i] && t[j] == s[k + j]);
    }
    assert forall|i: int| 0 <= i < t.len() implies -PTS_BOUND <= #[trigger] t[i].pts
        <= PTS_BOUND by {
        assert(t[i] == s[k + i]);
    }
}

/// Queue statistics for monitoring. The average depth is an exponential
/// moving average with a 1/10 smoothing step, kept in thousandths.
#[derive(Clone, Debug)]
pub struct QueueStats {
    /// Total frames added.
    pub frames_added: u64,
    /// Total frames dropped due to queue full.
    pub frames_dropped: u64,
    /// Total frames consumed.
    pub frames_consumed: u64,
    /// Current queue depth.
    pub current_depth: usize,
    /// Average queue depth, in thousandths of a frame.
    pub avg_depth_milli: u64,
    /// Maximum queue depth reached.
    pub max_depth: usize,
    /// Total bytes processed.
    pub bytes_processed: u64,
    /// Number of depth samples taken so far.
    pub depth_samples: u64,
}

impl QueueStats {
    pub open spec fn zeroed() -> Self {
        QueueStats {
            frames_added: 0,
            frames_dropped: 0,
            frames_consumed: 0,
            current_depth: 0,
            avg_depth_milli: 0,
            max_depth: 0,
            bytes_processed: 0,
            depth_samples: 0,
        }
    }
}

impl Default for QueueStats {
    fn default() -> (r: Self)
        ensures
            r == QueueStats::zeroed(),
    {
        QueueStats {
            frames_added: 0,
            frames_dropped: 0,
            frames_consumed: 0,
            current_depth: 0,
            avg_depth_milli: 0,
            max_depth: 0,
            bytes_processed: 0,
            depth_samples: 0,
        }
    }
}

/// A saturating counter increment.
pub open spec fn bump64(c: u64) -> u64 {
    if c < u64::MAX {
        (c + 1) as u64
    } else {
        u64::MAX
    }
}

/// Saturating `u64` addition.
pub open spec fn sat_add64(a: u64, b: nat) -> u64 {
    if a + b > u64::MAX {
        u64::MAX
    } else {
        (a + b) as u64
    }
}

/// One step of the depth moving average, in thousandths: the first sample
/// anchors the average, later samples move it by 1/10 of the distance;
/// the result saturates at `u64::MAX`.
pub open spec fn depth_ema(avg: u64, depth: nat, samples: u64) -> u64 {
    let next: int = if samples == 0 {
        depth * 1000 as int
    } else {
        (9 * avg + depth * 1000) / 10
    };
    if next > u64::MAX {
        u64::MAX
    } else {
        next as u64
    }
}

/// Frame queue for buffering decoded frames: insertion-sorted by PTS,
/// bounded in frame count and in accounted bytes, evicting its oldest
/// frames to make room.
pub struct FrameQueue {
    /// Queue of frames sorted by PTS.
    pub frames: VecDeque<VideoFrame>,
    /// Maximum number of frames to buffer (at least 1).
    pub max_frames: usize,
    /// Total accounted size of buffered frames in bytes.
    pub total_size: usize,
    /// Maximum total accounted size in bytes (default: 100 MB).
    pub max_size: usize,
    /// Statistics.
    pub stats: QueueStats,
    /// Highest PTS seen at the back of the queue, for ordering checks.
    pub last_pts: Option<i64>,
}

impl FrameQueue {
    /// The queue's invariant: sorted, within both budgets, timestamps
    /// bounded, and the byte account exact.
    pub open spec fn wf(&self) -> bool {
        &&& pts_sorted(self.frames@)
        &&& pts_bounded(self.frames@)
        &&& self.max_frames >= 1
        &&& self.frames@.len() <= self.max_frames
        &&& self.total_size == size_sum(self.frames@)
    }

    /// The buffered frames, oldest first.
    pub open spec fn view(&self) -> Seq<VideoFrame> {
        self.frames@
    }

    pub open spec fn spec_max_frames(&self) -> usize {
        self.max_frames
    }

    pub open spec fn spec_max_size(&self) -> usize {
        self.max_size
    }

    pub open spec fn spec_stats(&self) -> QueueStats {
        self.stats
    }

    /// Create a new frame queue holding at most `max_frames` frames and
    /// (by default) at most 100 MB of frame data.
    pub fn new(max_frames: usize) -> (r: Self)
        requires
            max_frames >= 1,
        ensures
            r.wf(),
            r@ == Seq::<VideoFrame>::empty(),
            r.spec_max_frames() == max_frames,
            r.spec_max_size() == 100 * 1024 * 1024,
            r.spec_stats() == QueueStats::zeroed(),
    {
        FrameQueue {
            frames: VecDeque::new(),
            max_frames,
            total_size: 0,
            max_size: 100 * 1024 * 1024,  // 100 MB default
            stats: QueueStats::default(),
            last_pts: None,
        }
    }

    /// Set the maximum accounted buffer size in bytes.
    pub fn set_max_size(&mut self, size: usize)
        requires
            old(self).wf(),
        ensures
            final(self).wf(),
            final(self)@ == old(self)@,
            final(self).spec_max_size() == size,
            final(self).spec_max_frames() == old(self).spec_max_frames(),
            final(self).spec_stats() == old(self).spec_stats(),
    {
        self.max_size = size;
    }

    /// Push a frame into the queue. Never rejects: frames are evicted
    /// from the front (oldest PTS) until the new frame fits, then it is
    /// inserted at the position that keeps PTS ascending.
    pub fn push_frame(&mut self, frame: VideoFrame) -> (r: Result<()>)
        requires
            old(self).wf(),
            -PTS_BOUND <= frame.pts <= PTS_BOUND,
        ensures
            final(self).wf(),
            r is Ok,
            final(self)@ == pushed(
                old(self)@,
                frame,
                old(self).spec_max_frames() as nat,
                old(self).spec_max_size() as nat,
            ),
            final(self)@.len() <= old(self).spec_max_frames(),
            final(self).spec_max_frames() == old(self).spec_max_frames(),
            final(self).spec_max_size() == old(self).spec_max_size(),
            final(self).spec_stats().frames_dropped == sat_add64(
                old(self).spec_stats().frames_dropped,
                (old(self)@.len() - evicted(
                    old(self)@,
                    est_size(frame),
                    old(self).spec_max_frames() as nat,
                    old(self).spec_max_size() as nat,
                ).len()) as nat,
            ),
            final(self).spec_stats().frames_added == bump64(old(self).spec_stats().frames_added),
            final(self).spec_stats().frames_consumed == old(self).spec_stats().frames_consumed,
            final(self).spec_stats().current_depth == final(self)@.len(),
    {
        let frame_size = estimate_frame_size(&frame);
        let ghost orig = self.frames@;
        let ghost maxf = self.max_frames as nat;
        let ghost maxs = self.max_size as nat;

        // evict from the front until the new frame fits both budgets;
        // `total_size > max_size - frame_size` is the overflow-free form
        // of `total_size + frame_size > max_size`
        while self.frames.len() > 0 && (self.frames.len() >= self.max_frames || frame_size
            > self.max_size || self.total_size > self.max_size - frame_size)
            invariant
                self.wf(),
                frame_size == est_size(frame),
                maxf == self.max_frames as nat,
                maxs == self.max_size as nat,
                self.max_frames == old(self).spec_max_frames(),
                self.max_size == old(self).spec_max_size(),
                evicted(orig, est_size(frame), maxf, maxs) == evicted(
                    self.frames@,
                    est_size(frame),
                    maxf,
                    maxs,
                ),
                self.frames@.len() <= orig.len(),
                self.stats.frames_dropped == sat_add64(
                    // dropped so far in this call, on top of the entry value
                    old(self).spec_stats().frames_dropped,
                    (orig.len() - self.frames@.len()) as nat,
                ),
                self.stats.frames_added == old(self).spec_stats().frames_added,
                self.stats.frames_consumed == old(self).spec_stats().frames_consumed,
                self.stats.max_depth == old(self).spec_stats().max_depth,
                self.stats.bytes_processed == old(self).spec_stats().bytes_processed,
                self.stats.avg_depth_milli == old(self).spec_stats().avg_depth_milli,
                self.stats.depth_samples == old(self).spec_stats().depth_samples,
            decreases self.frames@.len(),
        {
            proof {
                // the loop condition is one unrolling of `evicted`
                assert(size_sum(self.frames@) + est_size(frame) > maxs || self.frames@.len()
                    >= maxf);
                assert(evicted(self.frames@, est_size(frame), maxf, maxs) == evicted(
                    self.frames@.drop_first(),
                    est_size(frame),
                    maxf,
                    maxs,
                ));
            }
            let ghost dropped_before = (orig.len() - self.frames@.len()) as nat;
            self.drop_oldest_frame();
            proof {
                assert(self.stats.frames_dropped == sat_add64(
                    old(self).spec_stats().frames_dropped,
                    dropped_before + 1,
                ));
            }
        }

        proof {
            // the loop exit condition says `evicted` is done
            assert(evicted(self.frames@, est_size(frame), maxf, maxs) == self.frames@);
            lemma_evicted_properties(orig, est_size(frame), maxf, maxs);
            lemma_suffix_keeps_order(orig, orig.len() - self.frames@.len());
        }

        // find the insertion position that keeps PTS ascending
        let mut pos: usize = 0;
        while pos < self.frames.len() && pts_at(&self.frames, pos) <= frame.pts
            invariant
                0 <= pos <= self.frames@.len(),
                forall|j: int| 0 <= j < pos ==> #[trigger] self.frames@[j].pts <= frame.pts,
            decreases self.frames@.len() - pos,
        {
            pos = pos + 1;
        }
        proof {
            lemma_insert_pos_properties(self.frames@, frame.pts);
            // `pos` satisfies the first-greater characterization
            assert(insert_pos(self.frames@, frame.pts) == pos) by {
                let p = insert_pos(self.frames@, frame.pts);
                if p < pos {
                    assert(self.frames@[p].pts <= frame.pts);
                }
                if pos < p {
                    assert(self.frames@[pos as int].pts <= frame.pts);
                }
            }
            lemma_insert_keeps_sorted(self.frames@, frame);
            lemma_size_sum_insert(self.frames@, pos as int, frame);
        }

        let ghost before_insert = self.frames@;
        self.frames.insert(pos, frame);
        self.total_size = self.total_size + frame_size;
        let back: i64 = pts_at(&self.frames, self.frames.len() - 1);
        self.last_pts = Some(back);

        // update statistics
        if self.stats.frames_added < u64::MAX {
            self.stats.frames_added = self.stats.frames_added + 1;
        }
        self.stats.current_depth = self.frames.len();
        if self.frames.len() > self.stats.max_depth {
            self.stats.max_depth = self.frames.len();
        }
        self.stats.bytes_processed = sat_add_u64(self.stats.bytes_processed, frame_size as u64);
        self.update_avg_depth();

        Ok(())
    }

    /// Pop the next frame (the lowest PTS) from the queue.
    pub fn pop_frame(&mut self) -> (r: Option<VideoFrame>)
        requires
            old(self).wf(),
        ensures
            final(self).wf(),
            old(self)@.len() == 0 ==> r.is_none() && final(self)@ == old(self)@,
            old(self)@.len() > 0 ==> {
                &&& r == Some(old(self)@[0])
                &&& final(self)@ == old(self)@.drop_first()
            },
            final(self).spec_max_frames() == old(self).spec_max_frames(),
            final(self).spec_max_size() == old(self).spec_max_size(),
            old(self)@.len() > 0 ==> {
                &&& final(self).spec_stats().frames_consumed == bump64(
                    old(self).spec_stats().frames_consumed,
                )
                &&& final(self).spec_stats().current_depth == final(self)@.len()
            },
            old(self)@.len() == 0 ==> final(self).spec_stats() == old(self).spec_stats(),
            final(self).spec_stats().frames_dropped == old(self).spec_stats().frames_dropped,
    {
        match self.frames.pop_front() {
            Some(f) => {
                proof {
                    assert(old(self).frames@.drop_first()
                        =~= old(self).frames@.subrange(1, old(self).frames@.len() as int));
                }
                let frame_size = estimate_frame_size(&f);
                self.total_size = self.total_size - frame_size;
                if self.stats.frames_consumed < u64::MAX {
                    self.stats.frames_consumed = self.stats.frames_consumed + 1;
                }
                self.stats.current_depth = self.frames.len();
                self.update_avg_depth();
                Some(f)
            },
            None => None,
        }
    }

    /// Peek at the next frame without removing it.
    pub fn peek_frame(&self) -> (r: Option<&VideoFrame>)
        ensures
            self@.len() == 0 ==> r.is_none(),
            self@.len() > 0 ==> (r matches Some(f) && *f == self@[0]),
    {
        if self.frames.len() > 0 {
            Some(&self.frames[0])
        } else {
            None
        }
    }

    /// Get the frame at a specific index without removing it.
    pub fn get_frame(&self, index: usize) -> (r: Option<&VideoFrame>)
        ensures
            index < self@.len() ==> (r matches Some(f) && *f == self@[index as int]),
            index >= self@.len() ==> r.is_none(),
    {
        if index < self.frames.len() {
            Some(&self.frames[index])
        } else {
            None
        }
    }

    /// Find the buffered frame whose PTS is closest to `target_pts`; on a
    /// tie, the earliest such frame. Used for seek-snap behavior.
    pub fn find_frame_by_pts(&self, target_pts: i64) -> (r: Option<&VideoFrame>)
        requires
            self.wf(),
            -PTS_BOUND <= target_pts <= PTS_BOUND,
        ensures
            self@.len() == 0 ==> r.is_none(),
            self@.len() > 0 ==> (r matches Some(f) && exists|i: int|
                {
                    &&& 0 <= i < self@.len()
                    &&& *f == self@[i]
                    &&& forall|j: int| 0 <= j < self@.len() ==> dist(self@[i].pts as int, target_pts as int)
                        <= dist(#[trigger] self@[j].pts as int, target_pts as int)
                    &&& forall|j: int| 0 <= j < i ==> dist(#[trigger] self@[j].pts as int, target_pts as int)
                        > dist(self@[i].pts as int, target_pts as int)
                }),
    {
        if self.frames.len() == 0 {
            return None;
        }
        let mut best: usize = 0;
        let mut best_dist: i64 = dist_i64(self.frames[0].pts, target_pts);
        let mut i: usize = 1;
        while i < self.frames.len()
            invariant
                self.wf(),
                -PTS_BOUND <= target_pts <= PTS_BOUND,
                self@.len() > 0,
                0 <= best < i <= self@.len(),
                best_dist == dist(self@[best as int].pts as int, target_pts as int),
                forall|j: int| 0 <= j < i ==> best_dist <= dist(
                    #[trigger] self@[j].pts as int,
                    target_pts as int,
                ),
                forall|j: int| 0 <= j < best ==> dist(#[trigger] self@[j].pts as int, target_pts as int)
                    > best_dist,
            decreases self@.len() - i,
        {
            let d = dist_i64(self.frames[i].pts, target_pts);
            if d < best_dist {
                best = i;
                best_dist = d;
            }
            i = i + 1;
        }
        Some(&self.frames[best])
    }

    /// Evict all frames with a PTS strictly below `pts` — used after a
    /// seek to discard stale frames.
    pub fn drop_frames_before(&mut self, pts: i64)
        requires
            old(self).wf(),
        ensures
            final(self).wf(),
            final(self)@ == drop_lt(old(self)@, pts),
            final(self).spec_max_frames() == old(self).spec_max_frames(),
            final(self).spec_max_size() == old(self).spec_max_size(),
    {
        let ghost orig = self.frames@;
        while self.frames.len() > 0 && pts_at(&self.frames, 0) < pts
            invariant
                self.wf(),
                self.max_frames == old(self).spec_max_frames(),
                self.max_size == old(self).spec_max_size(),
                drop_lt(orig, pts) == drop_lt(self.frames@, pts),
                self.frames@.len() <= orig.len(),
            decreases self.frames@.len(),
        {
            proof {
                assert(drop_lt(self.frames@, pts) == drop_lt(self.frames@.drop_first(), pts));
            }
            self.drop_oldest_frame();
        }
        proof {
            assert(drop_lt(self.frames@, pts) == self.frames@);
        }
    }

    /// Check if the queue is empty.
    pub fn is_empty(&self) -> (r: bool)
        ensures
            r == (self@.len() == 0),
    {
        self.frames.len() == 0
    }

    /// Current queue length.
    pub fn len(&self) -> (r: usize)
        ensures
            r == self@.len(),
    {
        self.frames.len()
    }

    /// Whether the queue is at either of its bounds.
    pub fn is_full(&self) -> (r: bool)
        requires
            self.wf(),
        ensures
            r == (self@.len() >= self.spec_max_frames() || size_sum(self@)
                >= self.spec_max_size()),
    {
        self.frames.len() >= self.max_frames || self.total_size >= self.max_size
    }

    /// Clear all frames from the queue.
    pub fn clear(&mut self)
        requires
            old(self).wf(),
        ensures
            final(self).wf(),
            final(self)@ == Seq::<VideoFrame>::empty(),
            final(self).spec_max_frames() == old(self).spec_max_frames(),
            final(self).spec_max_size() == old(self).spec_max_size(),
            final(self).spec_stats() == (QueueStats {
                current_depth: 0,
                ..old(self).spec_stats()
            }),
    {
        self.frames.clear();
        self.total_size = 0;
        self.last_pts = None;
        self.stats.current_depth = 0;
    }

    /// Get queue statistics.
    pub fn stats(&self) -> (r: &QueueStats)
        ensures
            *r == self.spec_stats(),
    {
        &self.stats
    }

    /// The PTS range `(lowest, highest)` of the buffered frames.
    pub fn pts_range(&self) -> (r: Option<(i64, i64)>)
        ensures
            self@.len() == 0 ==> r.is_none(),
            self@.len() > 0 ==> r == Some((self@[0].pts, self@[self@.len() - 1].pts)),
    {
        if self.frames.len() == 0 {
            None
        } else {
            Some((pts_at(&self.frames, 0), pts_at(&self.frames, self.frames.len() - 1)))
        }
    }

    /// Buffered duration in microseconds: the PTS span of the queue.
    pub fn buffered_duration(&self) -> (r: i64)
        requires
            self.wf(),
        ensures
            self@.len() == 0 ==> r == 0,
            self@.len() > 0 ==> r == self@[self@.len() - 1].pts - self@[0].pts,
    {
        match self.pts_range() {
            Some((start_pts, end_pts)) => end_pts - start_pts,
            None => 0,
        }
    }

    /// Drop the oldest frame (the front), counting it as dropped.
    fn drop_oldest_frame(&mut self)
        requires
            old(self).wf(),
        ensures
            final(self).wf(),
            old(self)@.len() == 0 ==> final(self)@ == old(self)@ && final(self).spec_stats()
                == old(self).spec_stats(),
            old(self)@.len() > 0 ==> {
                &&& final(self)@ == old(self)@.drop_first()
                &&& final(self).spec_stats() == (QueueStats {
                    frames_dropped: bump64(old(self).spec_stats().frames_dropped),
                    current_depth: (old(self)@.len() - 1) as usize,
                    ..old(self).spec_stats()
                })
            },
            final(self).spec_max_frames() == old(self).spec_max_frames(),
            final(self).spec_max_size() == old(self).spec_max_size(),
    {
        match self.frames.pop_front() {
            Some(f) => {
                proof {
                    assert(old(self).frames@.drop_first()
                        =~= old(self).frames@.subrange(1, old(self).frames@.len() as int));
                }
                let frame_size = estimate_frame_size(&f);
                self.total_size = self.total_size - frame_size;
                if self.stats.frames_dropped < u64::MAX {
                    self.stats.frames_dropped = self.stats.frames_dropped + 1;
                }
                self.stats.current_depth = self.frames.len();
            },
            None => {},
        }
    }

    /// Update the average queue depth with the current depth sample.
    fn update_avg_depth(&mut self)
        ensures
            *final(self) == (FrameQueue {
                stats: QueueStats {
                    avg_depth_milli: depth_ema(
                        old(self).spec_stats().avg_depth_milli,
                        old(self).spec_stats().current_depth as nat,
                        old(self).spec_stats().depth_samples,
                    ),
                    depth_samples: bump64(old(self).spec_stats().depth_samples),
                    ..old(self).spec_stats()
                },
                ..*old(self)
            }),
    {
        let depth_milli: u128 = (self.stats.current_depth as u128) * 1000;
        let next: u128 = if self.stats.depth_samples == 0 {
            depth_milli
        } else {
            (9 * (self.stats.avg_depth_milli as u128) + depth_milli) / 10
        };
        self.stats.avg_depth_milli = if next > u64::MAX as u128 {
            u64::MAX
        } else {
            next as u64
        };
        if self.stats.depth_samples < u64::MAX {
            self.stats.depth_samples = self.stats.depth_samples + 1;
        }
    }
}

/// Law (queue order): however the queue was filled — `push_frame`
/// establishes and preserves `wf` for any sequence of pushes with
/// arbitrary PTS ordering — the `i`-th successive `pop_frame` returns
/// the frame at index `i` of the buffered sequence, and those frames
/// carry non-decreasing PTS.
pub proof fn lemma_pop_order(q: FrameQueue, i: int, j: int)
    requires
        q.wf(),
        0 <= i <= j < q@.len(),
    ensures
        q@[i].pts <= q@[j].pts,
{
}

/// The queue contents after pushing every frame of `s`, in order, into
/// an empty queue with the given budgets.
pub open spec fn push_all(s: Seq<VideoFrame>, max_frames: nat, max_size: nat) -> Seq<VideoFrame>
    decreases s.len(),
{
    if s.len() == 0 {
        Seq::empty()
    } else {
        pushed(push_all(s.drop_last(), max_frames, max_size), s.last(), max_frames, max_size)
    }
}

/// A suffix of a sorted sequence is sorted.
pub proof fn lemma_suffix_sorted(s: Seq<VideoFrame>, k: int)
    requires
        0 <= k <= s.len(),
        pts_sorted(s),
    ensures
        pts_sorted(s.subrange(k, s.len() as int)),
{
    let t = s.subrange(k, s.len() as int);
    assert forall|i: int, j: int| 0 <= i <= j < t.len() implies #[trigger] t[i].pts
        <= #[trigger] t[j].pts by {
        assert(t[i] == s[k + i] && t[j] == s[k + j]);
    }
}

/// One push keeps the queue sorted and within the frame budget.
pub proof fn lemma_pushed_sorted(q: Seq<VideoFrame>, f: VideoFrame, max_frames: nat, max_size: nat)
    requires
        pts_sorted(q),
        max_frames >= 1,
    ensures
        pts_sorted(pushed(q, f, max_frames, max_size)),
        pushed(q, f, max_frames, max_size).len() <= max_frames,
{
    lemma_evicted_properties(q, est_size(f), max_frames, max_size);
    let t = evicted(q, est_size(f), max_frames, max_size);
    lemma_suffix_sorted(q, q.len() - t.len());
    lemma_insert_pos_properties(t, f.pts);
    lemma_insert_keeps_sorted(t, f);
}

/// Law (queue order, whole runs): pushing any sequence of frames, in
/// any PTS order, into an empty queue leaves a queue sorted ascending
/// by PTS and never longer than `max_frames` — so the frames pop in
/// non-decreasing PTS order, and the length bound of the capacity law
/// holds after every push.
pub proof fn lemma_push_all_ordered(s: Seq<VideoFrame>, max_frames: nat, max_size: nat)
    requires
        max_frames >= 1,
    ensures
        pts_sorted(push_all(s, max_frames, max_size)),
        push_all(s, max_frames, max_size).len() <= max_frames,
    decreases s.len(),
{
    if s.len() > 0 {
        lemma_push_all_ordered(s.drop_last(), max_frames, max_size);
        lemma_pushed_sorted(push_all(s.drop_last(), max_frames, max_size), s.last(), max_frames,
            max_size);
    }
}

/// Law (retention, whole runs): when the frames arrive in
/// non-decreasing PTS order — the normal stream — the queue retains
/// exactly a suffix of the arrivals: the newest, highest-PTS frames.
pub proof fn lemma_push_all_retains_suffix(s: Seq<VideoFrame>, max_frames: nat, max_size: nat)
    requires
        max_frames >= 1,
        pts_sorted(s),
    ensures
        exists|k: int|
            0 <= k <= s.len() && push_all(s, max_frames, max_size) =~= s.subrange(
                k,
                s.len() as int,
            ),
    decreases s.len(),
{
    let result = push_all(s, max_frames, max_size);
    if s.len() == 0 {
        assert(result =~= s.subrange(0, 0));
    } else {
        let prefix = s.drop_last();
        assert(pts_sorted(prefix)) by {
            lemma_suffix_sorted(s, 0);
            assert(s.subrange(0, s.len() as int) =~= s);
            assert forall|i: int, j: int| 0 <= i <= j < prefix.len() implies (
            #[trigger] prefix[i]).pts <= (#[trigger] prefix[j]).pts by {
                assert(prefix[i] == s[i] && prefix[j] == s[j]);
            }
        }
        lemma_push_all_retains_suffix(prefix, max_frames, max_size);
        let q = push_all(prefix, max_frames, max_size);
        let k1 = choose|k: int|
            0 <= k <= prefix.len() && q =~= prefix.subrange(k, prefix.len() as int);
        // every queued frame comes from the prefix, so the new arrival
        // has the highest PTS
        assert forall|i: int| 0 <= i < q.len() implies (#[trigger] q[i]).pts <= s.last().pts by {
            assert(q[i] == prefix[k1 + i]);
            assert(prefix[k1 + i] == s[k1 + i]);
        }
        lemma_push_all_ordered(prefix, max_frames, max_size);
        lemma_push_retains_newest(q, s.last(), max_frames, max_size);
        lemma_evicted_properties(q, est_size(s.last()), max_frames, max_size);
        let t = evicted(q, est_size(s.last()), max_frames, max_size);
        assert(t =~= q.subrange(q.len() - t.len(), q.len() as int));
        assert(result =~= t.push(s.last()));
        // the kept frames are a suffix of the prefix plus the arrival:
        // a suffix of the whole arrival sequence
        let k = k1 + (q.len() - t.len());
        assert(q == prefix.subrange(k1, prefix.len() as int));
        assert(result =~= s.subrange(k, s.len() as int)) by {
            assert(result.len() == t.len() + 1);
            assert(s.len() - k == t.len() + 1);
            assert forall|i: int| 0 <= i < result.len() implies result[i] == s.subrange(
                k,
                s.len() as int,
            )[i] by {
                if i < t.len() {
                    assert(result[i] == t[i]);
                    assert(t[i] == q[q.len() - t.len() + i]);
                    assert(q[q.len() - t.len() + i] == prefix.subrange(
                        k1,
                        prefix.len() as int,
                    )[q.len() - t.len() + i]);
                    assert(prefix[k + i] == s[k + i]);
                } else {
                    assert(result[i] == s.last());
                }
            }
        }
    }
}

/// Law (retention): when frames arrive in non-decreasing PTS order — the
/// normal stream — a push keeps exactly the newest frames: the result is
/// a suffix of the old queue with the new frame appended, and every
/// evicted frame's PTS is at most every retained frame's PTS. (With an
/// out-of-order arrival older than the queue's front this does not hold:
/// the front is evicted first, yet the incoming older frame is kept.)
pub proof fn lemma_push_retains_newest(
    s: Seq<VideoFrame>,
    f: VideoFrame,
    max_frames: nat,
    max_size: nat,
)
    requires
        pts_sorted(s),
        max_frames >= 1,
        forall|i: int| 0 <= i < s.len() ==> #[trigger] s[i].pts <= f.pts,
    ensures
        ({
            let t = evicted(s, est_size(f), max_frames, max_size);
            let kept = pushed(s, f, max_frames, max_size);
            &&& kept =~= s.subrange(s.len() - t.len(), s.len() as int).push(f)
            &&& forall|i: int, j: int|
                0 <= i < s.len() - t.len() && 0 <= j < kept.len() ==> #[trigger] s[i].pts
                    <= #[trigger] kept[j].pts
        }),
{
    let t = evicted(s, est_size(f), max_frames, max_size);
    let kept = pushed(s, f, max_frames, max_size);
    lemma_evicted_properties(s, est_size(f), max_frames, max_size);
    lemma_insert_pos_properties(t, f.pts);
    let p = insert_pos(t, f.pts);
    // every queued PTS is at most f.pts, so the insertion lands at the end
    assert(p == t.len()) by {
        if p < t.len() {
            assert(t[p] == s[s.len() - t.len() + p]);
        }
    }
    assert(kept =~= t.push(f));
    assert forall|i: int, j: int|
        0 <= i < s.len() - t.len() && 0 <= j < kept.len() implies #[trigger] s[i].pts
        <= #[trigger] kept[j].pts by {
        if j < t.len() {
            assert(kept[j] == s[s.len() - t.len() + j]);
        } else {
            assert(kept[j] == f);
        }
    }
}

/// Frame presentation decision of the render-pacing controller.
#[derive(Clone, Copy, Debug, PartialEq, Eq, Structural)]
pub enum FramePresentation {
    /// Present the frame immediately.
    Present,
    /// Wait this many microseconds before presenting.
    Wait(i64),
    /// Drop the frame (too late).
    Drop,
}

/// The wall-clock time elapsed between two monotonic readings, clamped
/// at zero.
pub open spec fn elapsed_us(last: int, now: int) -> int {
    if now >= last {
        now - last
    } else {
        0
    }
}

/// Where the stream should be after `elapsed` wall microseconds at
/// `speed_permille`: the last presented PTS advanced by the scaled
/// elapsed time.
pub open spec fn expected_pts(last_pts: int, elapsed: int, speed_permille: int) -> int {
    last_pts + (elapsed * speed_permille) / 1000
}

/// The pacing decision for a frame that is `diff` microseconds ahead of
/// where the stream should be: clearly early frames wait (half a frame
/// less than their lead, to re-check near the deadline), frames later
/// than the drop threshold are dropped, everything else presents now.
pub open spec fn pacing_decision(diff: int, frame_duration: int, drop_threshold: int) -> FramePresentation {
    if diff > frame_duration {
        FramePresentation::Wait((diff - frame_duration / 2) as i64)
    } else if diff < -drop_threshold {
        FramePresentation::Drop
    } else {
        FramePresentation::Present
    }
}

/// Frame timing controller for smooth playback: a presentation-layer
/// pacing check, distinct from (but cooperating with) the A/V sync
/// controller. The caller supplies its monotonic clock reading.
pub struct FrameTimingController {
    /// Target frame rate in frames per second.
    pub target_fps: u32,
    /// Frame duration in microseconds.
    pub frame_duration: i64,
    /// Monotonic time of the last presented frame, if any.
    pub last_present_us: Option<i64>,
    /// Last presented frame PTS, if any.
    pub last_pts: Option<i64>,
    /// Clock offset: the PTS that anchored the controller.
    pub clock_offset: i64,
    /// Playback speed in permille, within [100, 4000].
    pub speed_permille: u32,
    /// Drop threshold in microseconds.
    pub drop_threshold_us: i64,
}

impl FrameTimingController {
    pub open spec fn wf(&self) -> bool {
        &&& self.target_fps >= 1
        &&& self.frame_duration == 1_000_000 as int / self.target_fps as int
        &&& 100 <= self.speed_permille <= 4000
        &&& 0 <= self.drop_threshold_us <= 1_000_000_000
        &&& match self.last_present_us {
            Some(t) => -PTS_BOUND <= t <= PTS_BOUND,
            None => true,
        }
        &&& match self.last_pts {
            Some(p) => -PTS_BOUND <= p <= PTS_BOUND,
            None => true,
        }
    }

    /// Create a controller for a target frame rate; the drop threshold
    /// defaults to 50 ms.
    pub fn new(target_fps: u32) -> (r: Self)
        requires
            1 <= target_fps,
        ensures
            r.wf(),
            r.target_fps == target_fps,
            r.frame_duration == 1_000_000 as int / target_fps as int,
            r.last_present_us.is_none(),
            r.last_pts.is_none(),
            r.clock_offset == 0,
            r.speed_permille == 1000,
            r.drop_threshold_us == 50_000,
    {
        let frame_duration: i64 = (1_000_000u32 / target_fps) as i64;
        FrameTimingController {
            target_fps,
            frame_duration,
            last_present_us: None,
            last_pts: None,
            clock_offset: 0,
            speed_permille: 1000,
            drop_threshold_us: 50_000,  // drop if more than 50 ms late
        }
    }

    /// Decide whether `frame` should present now, given the caller's
    /// monotonic clock reading. The first frame ever seen always
    /// presents immediately and anchors the clock; afterwards the frame
    /// is compared against the PTS the stream should have reached.
    pub fn should_present_frame(&mut self, frame: &VideoFrame, now_us: i64) -> (r:
        FramePresentation)
        requires
            old(self).wf(),
            -PTS_BOUND <= frame.pts <= PTS_BOUND,
            -PTS_BOUND <= now_us <= PTS_BOUND,
        ensures
            final(self).wf(),
            old(self).last_present_us.is_none() ==> {
                &&& r == FramePresentation::Present
                &&& *final(self) == (FrameTimingController {
                    last_present_us: Some(now_us),
                    last_pts: Some(frame.pts),
                    clock_offset: frame.pts,
                    ..*old(self)
                })
            },
            match (old(self).last_present_us, old(self).last_pts) {
                (Some(last_t), Some(last_p)) => {
                    let diff = frame.pts - expected_pts(
                        last_p as int,
                        elapsed_us(last_t as int, now_us as int),
                        old(self).speed_permille as int,
                    );
                    &&& r == pacing_decision(
                        diff,
                        old(self).frame_duration as int,
                        old(self).drop_threshold_us as int,
                    )
                    &&& (r == FramePresentation::Present ==> *final(self)
                        == (FrameTimingController {
                        last_present_us: Some(now_us),
                        last_pts: Some(frame.pts),
                        ..*old(self)
                    }))
                    &&& (r != FramePresentation::Present ==> *final(self) == *old(self))
                },
                _ => true,
            },
    {
        let (last_t, last_p): (i64, i64) = match (self.last_present_us, self.last_pts) {
            (Some(t), Some(p)) => (t, p),
            _ => {
                // first frame: anchor the clock and present
                self.last_present_us = Some(now_us);
                self.last_pts = Some(frame.pts);
                self.clock_offset = frame.pts;
                return FramePresentation::Present;
            },
        };

        let elapsed: i64 = if now_us >= last_t {
            now_us - last_t
        } else {
            0
        };

        proof {
            assert(0 <= (elapsed as int) * (self.speed_permille as int)
                <= 2 * (PTS_BOUND as int) * 4000) by (nonlinear_arith)
                requires
                    0 <= elapsed <= 2 * (PTS_BOUND as int),
                    100 <= self.speed_permille <= 4000,
            ;
            assert(0 <= (elapsed as int) * (self.speed_permille as int) / 1000
                <= 2 * (PTS_BOUND as int) * 4000 / 1000) by (nonlinear_arith)
                requires
                    0 <= (elapsed as int) * (self.speed_permille as int)
                        <= 2 * (PTS_BOUND as int) * 4000,
            ;
        }
        let advance: i128 = ((elapsed as i128) * (self.speed_permille as i128)) / 1000;
        let expected: i128 = (last_p as i128) + advance;
        let diff128: i128 = (frame.pts as i128) - expected;
        let diff: i64 = diff128 as i64;

        if diff > self.frame_duration {
            // frame is early: wait until just before its deadline
            FramePresentation::Wait(diff - ((self.frame_duration as u64) / 2) as i64)
        } else if diff < -self.drop_threshold_us {
            // frame is too late: drop it
            FramePresentation::Drop
        } else {
            // frame should present now
            self.last_present_us = Some(now_us);
            self.last_pts = Some(frame.pts);
            FramePresentation::Present
        }
    }

    /// Set playback speed in permille, clamped to [100, 4000].
    pub fn set_playback_speed(&mut self, speed_permille: u32)
        requires
            old(self).wf(),
        ensures
            final(self).wf(),
            final(self).speed_permille == (
                if speed_permille < 100 {
                    100u32
                } else if speed_permille > 4000 {
                    4000u32
                } else {
                    speed_permille
                }
            ),
            *final(self) == (FrameTimingController {
                speed_permille: final(self).speed_permille,
                ..*old(self)
            }),
    {
        let clamped: u32 = if speed_permille < 100 {
            100
        } else if speed_permille > 4000 {
            4000
        } else {
            speed_permille
        };
        self.speed_permille = clamped;
    }

    /// Reset timing state: the next frame anchors the clock again.
    pub fn reset(&mut self)
        requires
            old(self).wf(),
        ensures
            final(self).wf(),
            *final(self) == (FrameTimingController {
                last_present_us: None,
                last_pts: None,
                clock_offset: 0,
                ..*old(self)
            }),
    {
        self.last_present_us = None;
        self.last_pts = None;
        self.clock_offset = 0;
    }

    /// Re-anchor pacing to an external clock position.
    pub fn sync_to_clock(&mut self, pts: i64, now_us: i64)
        requires
            old(self).wf(),
            -PTS_BOUND <= pts <= PTS_BOUND,
            -PTS_BOUND <= now_us <= PTS_BOUND,
        ensures
            final(self).wf(),
            *final(self) == (FrameTimingController {
                last_pts: Some(pts),
                last_present_us: Some(now_us),
                ..*old(self)
            }),
    {
        self.last_pts = Some(pts);
        self.last_present_us = Some(now_us);
    }
}

/// Saturating `u64` addition (executable form of `sat_add64`).
pub fn sat_add_u64(a: u64, b: u64) -> (r: u64)
    ensures
        r == sat_add64(a, b as nat),
{
    if a <= u64::MAX - b {
        a + b
    } else {
        u64::MAX
    }
}

/// The PTS of the frame at `i`.
fn pts_at(v: &VecDeque<VideoFrame>, i: usize) -> (r: i64)
    requires
        i < v@.len(),
    ensures
        r == v@[i as int].pts,
{
    v[i].pts
}

/// Distance between two timestamps.
pub open spec fn dist(a: int, b: int) -> int {
    if a >= b {
        a - b
    } else {
        b - a
    }
}

/// Executable distance between two bounded timestamps.
fn dist_i64(a: i64, b: i64) -> (r: i64)
    requires
        -PTS_BOUND <= a <= PTS_BOUND,
        -PTS_BOUND <= b <= PTS_BOUND,
    ensures
        r == dist(a as int, b as int),
{
    if a >= b {
        a - b
    } else {
        b - a
    }
}

} // verus!
