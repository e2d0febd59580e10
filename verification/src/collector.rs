//! Bounded, de-duplicating buffer of CAN frames between a fast producer and
//! a slower consumer.
//!
//! The collector keys frames by identifier: a repeated identifier coalesces
//! (the newer frame supersedes the stored one in place), and a new
//! identifier arriving at capacity evicts the oldest-inserted entry. Both
//! paths count one dropped frame; the counter conflates "superseded" with
//! "evicted for capacity", a deliberate design choice of the protocol.

use vstd::prelude::*;

use crate::can_frame::CanFrame;
use crate::can_frame::CanId;

verus! {

/// Most distinct identifiers the collector stores at once.
pub const COLLECTOR_CAPACITY: usize = 64;

/// Some stored frame carries identifier `id`.
pub open spec fn seq_has_id(s: Seq<CanFrame>, id: CanId) -> bool {
    exists|i: int| 0 <= i < s.len() && s[i].id == id
}

/// Index of the first stored frame with identifier `id`; the length when
/// none carries it.
pub open spec fn seq_index_of_id(s: Seq<CanFrame>, id: CanId) -> int
    decreases s.len(),
{
    if s.len() == 0 {
        0
    } else if s[0].id == id {
        0
    } else {
        1 + seq_index_of_id(s.drop_first(), id)
    }
}

/// No two stored frames share an identifier, and the store is within
/// capacity.
pub open spec fn wf_seq(s: Seq<CanFrame>) -> bool {
    &&& s.len() <= COLLECTOR_CAPACITY
    &&& forall|i: int, j: int| 0 <= i < j < s.len() ==> s[i].id != s[j].id
}

/// One more dropped frame, the counter pinned at its maximum.
pub open spec fn spec_saturating_inc(d: usize) -> usize {
    if d == usize::MAX {
        d
    } else {
        (d + 1) as usize
    }
}

/// The stored frames after one insertion: replace in place when the
/// identifier is present, evict the oldest entry when a new identifier
/// arrives at capacity, append otherwise.
pub open spec fn spec_insert_frames(s: Seq<CanFrame>, f: CanFrame) -> Seq<CanFrame> {
    if seq_has_id(s, f.id) {
        s.update(seq_index_of_id(s, f.id), f)
    } else if s.len() >= COLLECTOR_CAPACITY {
        s.remove(0).push(f)
    } else {
        s.push(f)
    }
}

/// The drop counter after one insertion: one more for a superseding insert
/// or a capacity eviction, unchanged for a plain append.
pub open spec fn spec_insert_dropped(s: Seq<CanFrame>, d: usize, f: CanFrame) -> usize {
    if seq_has_id(s, f.id) || s.len() >= COLLECTOR_CAPACITY {
        spec_saturating_inc(d)
    } else {
        d
    }
}

/// Bounded per-identifier buffer with a drop counter.
#[derive(Debug)]
pub struct CanCollector {
    latest_can_frames: Vec<CanFrame>,
    dropped_frames: usize,
}

impl View for CanCollector {
    type V = Seq<CanFrame>;

    /// The stored frames in insertion order.
    closed spec fn view(&self) -> Seq<CanFrame> {
        self.latest_can_frames@
    }
}

impl CanCollector {
    /// Frames dropped since the last clear: superseded duplicates plus
    /// capacity evictions.
    pub closed spec fn spec_dropped(self) -> usize {
        self.dropped_frames
    }

    /// At most one stored frame per identifier, within capacity.
    pub open spec fn wf(self) -> bool {
        wf_seq(self@)
    }

    /// An empty collector.
    pub fn new() -> (r: CanCollector)
        ensures
            r@ == Seq::<CanFrame>::empty(),
            r.spec_dropped() == 0,
            r.wf(),
    {
        let r = CanCollector { latest_can_frames: Vec::new(), dropped_frames: 0 };
        proof {
            assert(r@ =~= Seq::<CanFrame>::empty());
        }
        r
    }

    /// The stored frames, oldest inserted first. The order is stable but
    /// otherwise unspecified to consumers.
    pub fn iter(&self) -> (r: &Vec<CanFrame>)
        ensures
            r@ == self@,
    {
        &self.latest_can_frames
    }

    /// Drop every stored frame and reset the drop counter.
    pub fn clear(&mut self)
        ensures
            final(self)@.len() == 0,
            final(self).spec_dropped() == 0,
            final(self).wf(),
    {
        self.dropped_frames = 0;
        self.latest_can_frames.clear();
    }

    /// Store a frame without blocking and without growing past capacity.
    ///
    /// A frame whose identifier is already stored replaces the stored one in
    /// place; a new identifier at capacity evicts the oldest entry; either
    /// way one drop is counted. Otherwise the frame is appended.
    pub fn insert(&mut self, frame: CanFrame)
        requires
            old(self).wf(),
        ensures
            final(self)@ == spec_insert_frames(old(self)@, frame),
            final(self).spec_dropped() == spec_insert_dropped(
                old(self)@,
                old(self).spec_dropped(),
                frame,
            ),
            final(self).wf(),
    {
        let n = self.latest_can_frames.len();
        let mut i: usize = 0;
        while i < n
            invariant
                old(self).wf(),
                n == self.latest_can_frames@.len(),
                i <= n,
                *self == *old(self),
                forall|j: int| 0 <= j < i ==> self.latest_can_frames@[j].id != frame.id,
            decreases n - i,
        {
            if self.latest_can_frames[i].id == frame.id {
                proof {
                    lemma_index_of_id(old(self)@, frame.id, i as int);
                    assert(seq_has_id(old(self)@, frame.id));
                }
                self.latest_can_frames[i] = frame;
                self.dropped_frames = saturating_inc(self.dropped_frames);
                proof {
                    lemma_insert_frames_wf(old(self)@, frame);
                }
                return ;
            }
            i = i + 1;
        }
        proof {
            lemma_index_of_id(self@, frame.id, n as int);
            assert(!seq_has_id(self@, frame.id));
        }
        if self.latest_can_frames.len() >= COLLECTOR_CAPACITY {
            self.latest_can_frames.remove(0);
            self.latest_can_frames.push(frame);
            self.dropped_frames = saturating_inc(self.dropped_frames);
        } else {
            self.latest_can_frames.push(frame);
        }
        proof {
            lemma_insert_frames_wf(old(self)@, frame);
        }
    }

    /// Frames dropped since the last clear.
    pub fn get_dropped_frames(&self) -> (r: usize)
        ensures
            r == self.spec_dropped(),
    {
        self.dropped_frames
    }
}

impl Default for CanCollector {
    /// An empty collector.
    fn default() -> (r: Self)
        ensures
            r@ == Seq::<CanFrame>::empty(),
            r.spec_dropped() == 0,
            r.wf(),
    {
        CanCollector::new()
    }
}

/// Add one, pinned at the counter's maximum.
fn saturating_inc(d: usize) -> (r: usize)
    ensures
        r == spec_saturating_inc(d),
{
    if d == usize::MAX {
        d
    } else {
        d + 1
    }
}

/// A scan that found no earlier match pins down `seq_index_of_id`.
proof fn lemma_index_of_id(s: Seq<CanFrame>, id: CanId, i: int)
    requires
        0 <= i <= s.len(),
        forall|j: int| 0 <= j < i ==> s[j].id != id,
        i == s.len() || s[i].id == id,
    ensures
        seq_index_of_id(s, id) == i,
        i == s.len() ==> !seq_has_id(s, id),
    decreases i,
{
    if i == 0 {
    } else {
        lemma_index_of_id(s.drop_first(), id, i - 1);
    }
}

/// Where the first match sits: in range, carrying the identifier.
proof fn lemma_index_of_id_found(s: Seq<CanFrame>, id: CanId)
    requires
        seq_has_id(s, id),
    ensures
        0 <= seq_index_of_id(s, id) < s.len(),
        s[seq_index_of_id(s, id)].id == id,
    decreases s.len(),
{
    if s.len() > 0 && s[0].id != id {
        assert(seq_has_id(s.drop_first(), id)) by {
            let w = choose|i: int| 0 <= i < s.len() && s[i].id == id;
            assert(s.drop_first()[w - 1].id == id);
        }
        lemma_index_of_id_found(s.drop_first(), id);
    }
}

/// One insertion keeps the store well formed.
proof fn lemma_insert_frames_wf(s: Seq<CanFrame>, f: CanFrame)
    requires
        wf_seq(s),
    ensures
        wf_seq(spec_insert_frames(s, f)),
{
    let s1 = spec_insert_frames(s, f);
    if seq_has_id(s, f.id) {
        lemma_index_of_id_found(s, f.id);
        let k = seq_index_of_id(s, f.id);
        assert forall|p: int, q: int| 0 <= p < q < s1.len() implies s1[p].id != s1[q].id by {
            assert(s[p].id != s[q].id);
            assert(s[k].id == f.id);
        }
    } else if s.len() >= COLLECTOR_CAPACITY {
        assert forall|p: int, q: int| 0 <= p < q < s1.len() implies s1[p].id != s1[q].id by {
            if q < s1.len() - 1 {
                assert(s[p + 1].id != s[q + 1].id);
            } else {
                assert(s1[q] == f && s1[p] == s[p + 1]);
                assert(!seq_has_id(s, f.id));
                assert(s[p + 1].id != f.id);
            }
        }
    } else {
        assert forall|p: int, q: int| 0 <= p < q < s1.len() implies s1[p].id != s1[q].id by {
            if q < s1.len() - 1 {
                assert(s[p].id != s[q].id);
            } else {
                assert(s1[q] == f && s1[p] == s[p]);
                assert(!seq_has_id(s, f.id));
            }
        }
    }
}

/// Coalescing law: inserting a frame whose identifier is already stored
/// keeps the number of stored frames, makes the new frame the one stored
/// under that identifier, and counts exactly one more drop.
pub proof fn lemma_insert_dedup(s: Seq<CanFrame>, d: usize, f: CanFrame)
    requires
        wf_seq(s),
        seq_has_id(s, f.id),
    ensures
        spec_insert_frames(s, f).len() == s.len(),
        seq_has_id(spec_insert_frames(s, f), f.id),
        forall|i: int|
            0 <= i < s.len() && spec_insert_frames(s, f)[i].id == f.id ==> spec_insert_frames(
                s,
                f,
            )[i] == f,
        spec_insert_dropped(s, d, f) == spec_saturating_inc(d),
    decreases s.len(),
{
    lemma_index_of_id_found(s, f.id);
    let k = seq_index_of_id(s, f.id);
    let s1 = spec_insert_frames(s, f);
    assert(s1[k] == f);
    assert forall|i: int| 0 <= i < s.len() && s1[i].id == f.id implies s1[i] == f by {
        if i != k {
            assert(s1[i] == s[i]);
            assert(s[k].id == f.id);
            if i < k {
                assert(s[i].id != s[k].id);
            } else {
                assert(s[k].id != s[i].id);
            }
        }
    }
}

/// Capacity law: an insertion never grows the store past its capacity; at
/// capacity a new identifier keeps the store full and counts one more
/// drop, and below capacity a new identifier grows the store by one
/// without counting a drop.
pub proof fn lemma_insert_capacity(s: Seq<CanFrame>, d: usize, f: CanFrame)
    requires
        wf_seq(s),
    ensures
        spec_insert_frames(s, f).len() <= COLLECTOR_CAPACITY,
        seq_has_id(spec_insert_frames(s, f), f.id),
        s.len() == COLLECTOR_CAPACITY && !seq_has_id(s, f.id) ==> spec_insert_frames(s, f).len()
            == COLLECTOR_CAPACITY && spec_insert_dropped(s, d, f) == spec_saturating_inc(d),
        s.len() < COLLECTOR_CAPACITY && !seq_has_id(s, f.id) ==> spec_insert_frames(s, f).len()
            == s.len() + 1 && spec_insert_dropped(s, d, f) == d,
{
    let s1 = spec_insert_frames(s, f);
    if seq_has_id(s, f.id) {
        lemma_index_of_id_found(s, f.id);
        assert(s1[seq_index_of_id(s, f.id)] == f);
    } else {
        assert(s1[s1.len() - 1] == f);
    }
}

/// The stored frames after a burst of insertions, oldest first.
pub open spec fn spec_run_inserts(s: Seq<CanFrame>, fs: Seq<CanFrame>) -> Seq<CanFrame>
    decreases fs.len(),
{
    if fs.len() == 0 {
        s
    } else {
        spec_run_inserts(spec_insert_frames(s, fs[0]), fs.drop_first())
    }
}

/// How many insertions of a burst supersede a stored identifier or evict
/// for capacity, starting from store `s`.
pub open spec fn spec_run_drop_count(s: Seq<CanFrame>, fs: Seq<CanFrame>) -> int
    decreases fs.len(),
{
    if fs.len() == 0 {
        0
    } else {
        let here: int = if seq_has_id(s, fs[0].id) || s.len() >= COLLECTOR_CAPACITY {
            1
        } else {
            0
        };
        here + spec_run_drop_count(spec_insert_frames(s, fs[0]), fs.drop_first())
    }
}

/// The drop counter after a burst of insertions.
pub open spec fn spec_run_dropped(s: Seq<CanFrame>, d: usize, fs: Seq<CanFrame>) -> usize
    decreases fs.len(),
{
    if fs.len() == 0 {
        d
    } else {
        spec_run_dropped(
            spec_insert_frames(s, fs[0]),
            spec_insert_dropped(s, d, fs[0]),
            fs.drop_first(),
        )
    }
}

/// Counter law: a burst of insertions raises the drop counter by exactly
/// the number of its superseding inserts plus its capacity evictions, as
/// long as the counter does not saturate.
pub proof fn lemma_dropped_counts_exactly(s: Seq<CanFrame>, d: usize, fs: Seq<CanFrame>)
    requires
        wf_seq(s),
        d + spec_run_drop_count(s, fs) <= usize::MAX,
    ensures
        spec_run_drop_count(s, fs) >= 0,
        spec_run_dropped(s, d, fs) == d + spec_run_drop_count(s, fs),
    decreases fs.len(),
{
    lemma_run_drop_count_nonnegative(s, fs);
    if fs.len() > 0 {
        lemma_insert_frames_wf(s, fs[0]);
        lemma_run_drop_count_nonnegative(spec_insert_frames(s, fs[0]), fs.drop_first());
        lemma_dropped_counts_exactly(
            spec_insert_frames(s, fs[0]),
            spec_insert_dropped(s, d, fs[0]),
            fs.drop_first(),
        );
    }
}

/// A burst never takes the drop count negative.
proof fn lemma_run_drop_count_nonnegative(s: Seq<CanFrame>, fs: Seq<CanFrame>)
    ensures
        spec_run_drop_count(s, fs) >= 0,
    decreases fs.len(),
{
    if fs.len() > 0 {
        lemma_run_drop_count_nonnegative(spec_insert_frames(s, fs[0]), fs.drop_first());
    }
}

} // verus!
