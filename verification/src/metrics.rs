//! Metric series and the bounded live-history window.
//!
//! A [`RingBuffer`] keeps the most recent `(t, v)` points of one series: at
//! most its capacity, oldest first, timestamps and values index-aligned.
//! [`Histories`] holds one such window per [`HistoryMetric`]. Both are pure
//! data structures: no time, I/O or threading. The value type is a parameter;
//! the application stores floating-point readings in it.

use std::collections::VecDeque;
use vstd::prelude::*;

verus! {

/// Number of points retained in the live history window (~60 seconds at 1 Hz).
pub const HISTORY_CAPACITY: usize = 60;

/// The canonical set of history series the frontend can request.
#[derive(Debug, Clone, Copy, PartialEq, Eq, Structural)]
pub enum HistoryMetric {
    Cpu,
    Mem,
    GpuUtil,
    GpuMem,
    DiskRead,
    DiskWrite,
    NetRx,
    NetTx,
}

/// A history snapshot of one metric series, in parallel column layout: `t`
/// holds epoch-millisecond timestamps and `v` the matching series values; the
/// two are always the same length and aligned by index.
#[derive(Debug, Clone)]
pub struct History<T> {
    /// Timestamps, epoch milliseconds, oldest to newest.
    pub t: Vec<u64>,
    /// Series values aligned with `t`.
    pub v: Vec<T>,
}

/// The last `n` elements of `s` (all of `s` when it is no longer than `n`),
/// in their original order.
pub open spec fn last_n<A>(s: Seq<A>, n: nat) -> Seq<A> {
    if s.len() <= n {
        s
    } else {
        s.subrange(s.len() - n, s.len() as int)
    }
}

/// The timestamp column of a sequence of points.
pub open spec fn times_of<T>(points: Seq<(u64, T)>) -> Seq<u64> {
    points.map_values(|p: (u64, T)| p.0)
}

/// The value column of a sequence of points.
pub open spec fn values_of<T>(points: Seq<(u64, T)>) -> Seq<T> {
    points.map_values(|p: (u64, T)| p.1)
}

/// What a window of capacity `cap` holds after the points of `pushes` were
/// pushed, one at a time and in order, onto a window holding `start`: each
/// push appends its point and keeps the last `cap` points.
pub open spec fn after_pushes<T>(cap: nat, start: Seq<(u64, T)>, pushes: Seq<(u64, T)>) -> Seq<
    (u64, T),
>
    decreases pushes.len(),
{
    if pushes.len() == 0 {
        start
    } else {
        last_n(after_pushes(cap, start, pushes.drop_last()).push(pushes.last()), cap)
    }
}

/// A bounded ring buffer of `(t, v)` points for one metric series. Timestamps
/// and values are stored in two deques kept in lockstep so they remain the same
/// length and index-aligned. When full, pushing a new point evicts the oldest.
pub struct RingBuffer<T> {
    cap: usize,
    t: VecDeque<u64>,
    v: VecDeque<T>,
}

impl<T> View for RingBuffer<T> {
    type V = Seq<(u64, T)>;

    /// The retained points, oldest first.
    closed spec fn view(&self) -> Seq<(u64, T)> {
        Seq::new(self.t@.len(), |i: int| (self.t@[i], self.v@[i]))
    }
}

impl<T> RingBuffer<T> {
    /// The most points the buffer retains.
    pub closed spec fn capacity(&self) -> nat {
        self.cap as nat
    }

    /// The two columns have the same length, which is within the capacity.
    pub closed spec fn wf(&self) -> bool {
        &&& self.t@.len() == self.v@.len()
        &&& self.t@.len() <= self.cap
    }

    /// Create an empty ring buffer holding at most `cap` points.
    pub fn new(cap: usize) -> (rb: Self)
        ensures
            rb.wf(),
            rb.capacity() == cap,
            rb@ == Seq::<(u64, T)>::empty(),
    {
        let rb = RingBuffer { cap, t: VecDeque::with_capacity(cap), v: VecDeque::with_capacity(cap) };
        assert(rb@ =~= Seq::<(u64, T)>::empty());
        rb
    }

    /// Create an empty ring buffer sized to the default live window.
    pub fn with_default_capacity() -> (rb: Self)
        ensures
            rb.wf(),
            rb.capacity() == HISTORY_CAPACITY,
            rb@ == Seq::<(u64, T)>::empty(),
    {
        Self::new(HISTORY_CAPACITY)
    }

    /// Append a `(t, v)` point. If the buffer is at capacity, the oldest point
    /// is evicted from both deques first so they stay aligned and bounded. A
    /// buffer of capacity `0` stays empty.
    pub fn push(&mut self, t: u64, v: T)
        requires
            old(self).wf(),
        ensures
            final(self).wf(),
            final(self).capacity() == old(self).capacity(),
            final(self)@ == last_n(old(self)@.push((t, v)), old(self).capacity()),
            final(self)@.len() <= final(self).capacity(),
    {
        let ghost before = self@;
        if self.cap == 0 {
            assert(last_n(before.push((t, v)), 0) =~= before);
            return;
        }
        if self.t.len() == self.cap {
            self.t.pop_front();
            self.v.pop_front();
        }
        self.t.push_back(t);
        self.v.push_back(v);
        assert(self@ =~= last_n(before.push((t, v)), self.cap as nat));
    }

    /// Number of points currently retained.
    pub fn len(&self) -> (n: usize)
        ensures
            n == self@.len(),
    {
        self.t.len()
    }

    /// Whether the buffer holds no points.
    pub fn is_empty(&self) -> (b: bool)
        ensures
            b == (self@.len() == 0),
    {
        self.t.len() == 0
    }
}

impl<T: Copy> RingBuffer<T> {
    /// Copy the retained points into a `History`, oldest to newest.
    pub fn history(&self) -> (h: History<T>)
        requires
            self.wf(),
        ensures
            h.t@ == times_of(self@),
            h.v@ == values_of(self@),
            h.t@.len() == h.v@.len(),
    {
        let n = self.t.len();
        let mut ts: Vec<u64> = Vec::with_capacity(n);
        let mut vs: Vec<T> = Vec::with_capacity(n);
        let mut i: usize = 0;
        while i < n
            invariant
                self.wf(),
                n == self@.len(),
                i <= n,
                ts@ =~= times_of(self@).take(i as int),
                vs@ =~= values_of(self@).take(i as int),
            decreases n - i,
        {
            ts.push(self.t[i]);
            vs.push(self.v[i]);
            i = i + 1;
        }
        assert(times_of(self@).take(n as int) =~= times_of(self@));
        assert(values_of(self@).take(n as int) =~= values_of(self@));
        History { t: ts, v: vs }
    }
}

impl<T> Default for RingBuffer<T> {
    /// An empty ring buffer sized to the default live window.
    fn default() -> (rb: Self)
        ensures
            rb.wf(),
            rb.capacity() == HISTORY_CAPACITY,
            rb@ == Seq::<(u64, T)>::empty(),
    {
        Self::with_default_capacity()
    }
}

/// One live-history window per metric series, each holding at most
/// [`HISTORY_CAPACITY`] points. A series with no points yet reports an empty
/// history.
pub struct Histories<T> {
    cpu: RingBuffer<T>,
    mem: RingBuffer<T>,
    gpu_util: RingBuffer<T>,
    gpu_mem: RingBuffer<T>,
    disk_read: RingBuffer<T>,
    disk_write: RingBuffer<T>,
    net_rx: RingBuffer<T>,
    net_tx: RingBuffer<T>,
}

impl<T> Histories<T> {
    /// The window kept for `metric`.
    pub closed spec fn buffer(&self, metric: HistoryMetric) -> RingBuffer<T> {
        match metric {
            HistoryMetric::Cpu => self.cpu,
            HistoryMetric::Mem => self.mem,
            HistoryMetric::GpuUtil => self.gpu_util,
            HistoryMetric::GpuMem => self.gpu_mem,
            HistoryMetric::DiskRead => self.disk_read,
            HistoryMetric::DiskWrite => self.disk_write,
            HistoryMetric::NetRx => self.net_rx,
            HistoryMetric::NetTx => self.net_tx,
        }
    }

    /// The points retained for `metric`, oldest first.
    pub open spec fn series(&self, metric: HistoryMetric) -> Seq<(u64, T)> {
        self.buffer(metric)@
    }

    /// Every window is well formed and sized to the live window.
    pub open spec fn wf(&self) -> bool {
        forall|m: HistoryMetric|
            #![trigger self.buffer(m)]
            self.buffer(m).wf() && self.buffer(m).capacity() == HISTORY_CAPACITY
    }

    /// Append a `(t, v)` point to the series of `metric`, evicting that
    /// series' oldest point when its window is full. Other series are left
    /// as they were.
    pub fn push(&mut self, metric: HistoryMetric, t: u64, v: T)
        requires
            old(self).wf(),
        ensures
            final(self).wf(),
            final(self).series(metric) == last_n(
                old(self).series(metric).push((t, v)),
                HISTORY_CAPACITY as nat,
            ),
            forall|m: HistoryMetric|
                m != metric ==> #[trigger] final(self).series(m) == old(self).series(m),
    {
        proof {
            assert(self.buffer(metric).wf());
        }
        match metric {
            HistoryMetric::Cpu => self.cpu.push(t, v),
            HistoryMetric::Mem => self.mem.push(t, v),
            HistoryMetric::GpuUtil => self.gpu_util.push(t, v),
            HistoryMetric::GpuMem => self.gpu_mem.push(t, v),
            HistoryMetric::DiskRead => self.disk_read.push(t, v),
            HistoryMetric::DiskWrite => self.disk_write.push(t, v),
            HistoryMetric::NetRx => self.net_rx.push(t, v),
            HistoryMetric::NetTx => self.net_tx.push(t, v),
        }
        assert forall|m: HistoryMetric| #[trigger] self.buffer(m).wf() && self.buffer(m).capacity()
            == HISTORY_CAPACITY by {
            assert(old(self).buffer(m).wf());
        }
    }
}

impl<T: Copy> Histories<T> {
    /// The live history of one metric series, oldest to newest. A series with
    /// no points yet reports an empty history.
    pub fn history(&self, metric: HistoryMetric) -> (h: History<T>)
        requires
            self.wf(),
        ensures
            h.t@ == times_of(self.series(metric)),
            h.v@ == values_of(self.series(metric)),
            h.t@.len() == h.v@.len(),
    {
        proof {
            assert(self.buffer(metric).wf());
        }
        match metric {
            HistoryMetric::Cpu => self.cpu.history(),
            HistoryMetric::Mem => self.mem.history(),
            HistoryMetric::GpuUtil => self.gpu_util.history(),
            HistoryMetric::GpuMem => self.gpu_mem.history(),
            HistoryMetric::DiskRead => self.disk_read.history(),
            HistoryMetric::DiskWrite => self.disk_write.history(),
            HistoryMetric::NetRx => self.net_rx.history(),
            HistoryMetric::NetTx => self.net_tx.history(),
        }
    }
}

impl<T> Default for Histories<T> {
    /// Every series empty, each sized to the live window.
    fn default() -> (hs: Self)
        ensures
            hs.wf(),
            forall|m: HistoryMetric| #[trigger] hs.series(m) == Seq::<(u64, T)>::empty(),
    {
        let hs = Histories {
            cpu: RingBuffer::with_default_capacity(),
            mem: RingBuffer::with_default_capacity(),
            gpu_util: RingBuffer::with_default_capacity(),
            gpu_mem: RingBuffer::with_default_capacity(),
            disk_read: RingBuffer::with_default_capacity(),
            disk_write: RingBuffer::with_default_capacity(),
            net_rx: RingBuffer::with_default_capacity(),
            net_tx: RingBuffer::with_default_capacity(),
        };
        assert forall|m: HistoryMetric| #[trigger] hs.buffer(m).wf() && hs.buffer(m).capacity()
            == HISTORY_CAPACITY by {}
        hs
    }
}

/// A well-formed ring buffer never holds more points than its capacity.
pub proof fn lemma_len_within_capacity<T>(rb: RingBuffer<T>)
    requires
        rb.wf(),
    ensures
        rb@.len() <= rb.capacity(),
{
}

/// Every series of well-formed histories holds at most [`HISTORY_CAPACITY`]
/// points.
pub proof fn lemma_series_within_capacity<T>(hs: Histories<T>, metric: HistoryMetric)
    requires
        hs.wf(),
    ensures
        hs.series(metric).len() <= HISTORY_CAPACITY,
{
    lemma_len_within_capacity(hs.buffer(metric));
}

/// Pushing one more point onto a window that already dropped older points
/// retains the same points as a window that never dropped any: the last `n`
/// of everything pushed.
pub proof fn lemma_last_n_push<A>(s: Seq<A>, x: A, n: nat)
    ensures
        last_n(last_n(s, n).push(x), n) == last_n(s.push(x), n),
{
    assert(last_n(last_n(s, n).push(x), n) =~= last_n(s.push(x), n));
}

/// Whatever sequence of points is pushed onto an empty ring buffer of capacity
/// `cap`, the buffer then holds exactly the last `cap` of them (all of them
/// when there are at most `cap`), oldest first: the newest points are kept and
/// the oldest evicted.
pub proof fn lemma_keeps_latest_points<T>(cap: nat, pushes: Seq<(u64, T)>)
    ensures
        after_pushes(cap, Seq::empty(), pushes) == last_n(pushes, cap),
        after_pushes(cap, Seq::empty(), pushes).len() <= cap,
    decreases pushes.len(),
{
    if pushes.len() > 0 {
        let init = pushes.drop_last();
        lemma_keeps_latest_points(cap, init);
        lemma_last_n_push(init, pushes.last(), cap);
        assert(init.push(pushes.last()) =~= pushes);
    } else {
        assert(last_n(pushes, cap) =~= pushes);
    }
}

} // verus!
