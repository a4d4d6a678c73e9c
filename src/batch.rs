//! The publisher's batching policy: which items go out together in one frame.
use crate::item::{Payload, PriorityItem};
use vstd::prelude::*;

verus! {

/// The most items a batch holds.
pub const BATCH_CAPACITY: usize = 6;

/// How long, in microseconds, a low-priority first item waits for company.
pub const WINDOW_US: u64 = 200_000;

/// Where the collection of a batch stands.
#[derive(Clone, Copy, Debug, PartialEq, Eq, Structural)]
pub enum BatchMode {
    /// No batch is open: wait for a first item.
    Idle,
    /// A low-priority batch collects items until the deadline.
    Window { deadline_us: u64 },
    /// An urgent batch takes only what is already queued.
    Drain,
}

/// What the publisher does next.
#[derive(Debug)]
pub enum BatchStep {
    /// Wait, without a time limit, for one item.
    Receive,
    /// Wait at most this many microseconds for one item.
    ReceiveWithin(u64),
    /// Take one item only if one is queued now.
    TryReceive,
    /// The batch is complete: encode and send it.
    Flush(Vec<Payload>),
}

/// The meaning of a `BatchStep`.
pub enum StepModel {
    Receive,
    ReceiveWithin(u64),
    TryReceive,
    Flush(Seq<Payload>),
}

impl View for BatchStep {
    type V = StepModel;

    open spec fn view(&self) -> StepModel {
        match self {
            BatchStep::Receive => StepModel::Receive,
            BatchStep::ReceiveWithin(t) => StepModel::ReceiveWithin(*t),
            BatchStep::TryReceive => StepModel::TryReceive,
            BatchStep::Flush(b) => StepModel::Flush(b@),
        }
    }
}

/// `a + b`, or the largest `u64` where that overflows.
pub open spec fn sat_add(a: u64, b: u64) -> u64 {
    if a + b <= u64::MAX {
        (a + b) as u64
    } else {
        u64::MAX
    }
}

/// Batch, mode and step after `item` arrives at `now` in `batch` and `mode`.
pub open spec fn after_item(batch: Seq<Payload>, mode: BatchMode, item: PriorityItem, now: u64) -> (
    Seq<Payload>,
    BatchMode,
    StepModel,
) {
    match mode {
        BatchMode::Idle => {
            let b = seq![item.payload];
            if item.spec_is_low() {
                let deadline = sat_add(now, WINDOW_US);
                (b, BatchMode::Window { deadline_us: deadline }, StepModel::ReceiveWithin(
                    (deadline - now) as u64,
                ))
            } else {
                (b, BatchMode::Drain, StepModel::TryReceive)
            }
        },
        BatchMode::Window { deadline_us } => {
            let b = batch.push(item.payload);
            if b.len() >= BATCH_CAPACITY || !item.spec_is_low() || now >= deadline_us {
                (Seq::empty(), BatchMode::Idle, StepModel::Flush(b))
            } else {
                (b, mode, StepModel::ReceiveWithin((deadline_us - now) as u64))
            }
        },
        BatchMode::Drain => {
            let b = batch.push(item.payload);
            if b.len() >= BATCH_CAPACITY {
                (Seq::empty(), BatchMode::Idle, StepModel::Flush(b))
            } else {
                (b, BatchMode::Drain, StepModel::TryReceive)
            }
        },
    }
}

/// Batch, mode and step when a wait ran out or nothing was queued.
pub open spec fn after_nothing(batch: Seq<Payload>, mode: BatchMode) -> (
    Seq<Payload>,
    BatchMode,
    StepModel,
) {
    match mode {
        BatchMode::Idle => (batch, mode, StepModel::Receive),
        _ => (Seq::empty(), BatchMode::Idle, StepModel::Flush(batch)),
    }
}

/// The batch being collected and how.
pub struct Batcher {
    batch: Vec<Payload>,
    mode: BatchMode,
}

impl Batcher {
    pub closed spec fn items(&self) -> Seq<Payload> {
        self.batch@
    }

    pub closed spec fn mode(&self) -> BatchMode {
        self.mode
    }

    pub open spec fn wf(&self) -> bool {
        &&& self.items().len() < BATCH_CAPACITY
        &&& (self.mode() is Idle <==> self.items().len() == 0)
    }

    pub fn new() -> (r: Self)
        ensures
            r.wf(),
            r.items() == Seq::<Payload>::empty(),
            r.mode() == BatchMode::Idle,
    {
        Batcher { batch: Vec::new(), mode: BatchMode::Idle }
    }

    /// The step to take before any item has come: wait for the first.
    pub fn first_step(&self) -> (r: BatchStep)
        ensures
            r@ == StepModel::Receive,
    {
        BatchStep::Receive
    }

    fn take(&mut self) -> (r: Vec<Payload>)
        ensures
            r@ == old(self).batch@,
            final(self).batch@ == Seq::<Payload>::empty(),
            final(self).mode == BatchMode::Idle,
    {
        let mut out: Vec<Payload> = Vec::new();
        std::mem::swap(&mut out, &mut self.batch);
        self.mode = BatchMode::Idle;
        out
    }

    /// Takes an item that arrived at `now_us`. A low-priority first item
    /// opens a window of `WINDOW_US`; an urgent one only drains what is
    /// queued. A window closes early on an urgent item; any batch closes when
    /// full.
    pub fn on_item(&mut self, item: PriorityItem, now_us: u64) -> (r: BatchStep)
        requires
            old(self).wf(),
        ensures
            final(self).wf(),
            (final(self).items(), final(self).mode(), r@) == after_item(
                old(self).items(),
                old(self).mode(),
                item,
                now_us,
            ),
    {
        match self.mode {
            BatchMode::Idle => {
                self.batch.push(item.payload);
                if item.is_low() {
                    let deadline: u64 = now_us.saturating_add(WINDOW_US);
                    self.mode = BatchMode::Window { deadline_us: deadline };
                    proof {
                        assert(self.batch@ =~= seq![item.payload]);
                    }
                    BatchStep::ReceiveWithin(deadline - now_us)
                } else {
                    self.mode = BatchMode::Drain;
                    proof {
                        assert(self.batch@ =~= seq![item.payload]);
                    }
                    BatchStep::TryReceive
                }
            },
            BatchMode::Window { deadline_us } => {
                self.batch.push(item.payload);
                if self.batch.len() >= BATCH_CAPACITY || !item.is_low() || now_us >= deadline_us {
                    BatchStep::Flush(self.take())
                } else {
                    BatchStep::ReceiveWithin(deadline_us - now_us)
                }
            },
            BatchMode::Drain => {
                self.batch.push(item.payload);
                if self.batch.len() >= BATCH_CAPACITY {
                    BatchStep::Flush(self.take())
                } else {
                    BatchStep::TryReceive
                }
            },
        }
    }

    /// Takes the end of a wait with no item, or an empty try: an open batch
    /// is complete.
    pub fn on_nothing(&mut self) -> (r: BatchStep)
        requires
            old(self).wf(),
        ensures
            final(self).wf(),
            (final(self).items(), final(self).mode(), r@) == after_nothing(
                old(self).items(),
                old(self).mode(),
            ),
    {
        match self.mode {
            BatchMode::Idle => BatchStep::Receive,
            _ => BatchStep::Flush(self.take()),
        }
    }
}


/// The payloads of `items`, in order.
pub open spec fn payloads(items: Seq<PriorityItem>) -> Seq<Payload> {
    items.map_values(|i: PriorityItem| i.payload)
}

/// Batch, mode and last step after `items` arrive at `times`, one by one,
/// starting from `batch` and `mode`.
pub open spec fn feed(
    batch: Seq<Payload>,
    mode: BatchMode,
    items: Seq<PriorityItem>,
    times: Seq<u64>,
) -> (Seq<Payload>, BatchMode, StepModel)
    decreases items.len(),
{
    if items.len() == 0 || times.len() != items.len() {
        (batch, mode, StepModel::Receive)
    } else {
        let (b, m, _) = feed(batch, mode, items.drop_last(), times.drop_last());
        after_item(b, m, items.last(), times.last())
    }
}

/// An urgent item that arrives inside the window of a low-priority one goes
/// out in the same batch, at once: the window closes early.
pub proof fn lemma_urgent_closes_window(low: PriorityItem, urgent: PriorityItem, t0: u64, t1: u64)
    requires
        low.spec_is_low(),
        !urgent.spec_is_low(),
        t0 + WINDOW_US <= u64::MAX,
        t0 <= t1 < t0 + WINDOW_US,
    ensures
        ({
            let (b1, m1, s1) = after_item(Seq::empty(), BatchMode::Idle, low, t0);
            let (b2, m2, s2) = after_item(b1, m1, urgent, t1);
            &&& s1 == StepModel::ReceiveWithin(WINDOW_US)
            &&& s2 == StepModel::Flush(seq![low.payload, urgent.payload])
            &&& m2 == BatchMode::Idle
        }),
{
    let (b1, m1, s1) = after_item(Seq::empty(), BatchMode::Idle, low, t0);
    assert(b1.push(urgent.payload) =~= seq![low.payload, urgent.payload]);
}

/// A burst of fewer than `BATCH_CAPACITY` low-priority items, all inside the
/// window opened by the first, keeps one deadline, `WINDOW_US` after the
/// first arrival: each wait ends exactly there, and when the last wait runs
/// out the whole burst is flushed, in arrival order.
pub proof fn lemma_low_burst_flushes_at_deadline(items: Seq<PriorityItem>, times: Seq<u64>)
    requires
        1 <= items.len() < BATCH_CAPACITY,
        times.len() == items.len(),
        forall|i: int| 0 <= i < items.len() ==> (#[trigger] items[i]).spec_is_low(),
        times[0] + WINDOW_US <= u64::MAX,
        forall|i: int| 0 <= i < times.len() ==> times[0] <= #[trigger] times[i] < times[0] + WINDOW_US,
    ensures
        ({
            let deadline = (times[0] + WINDOW_US) as u64;
            let (b, m, s) = feed(Seq::empty(), BatchMode::Idle, items, times);
            &&& m == (BatchMode::Window { deadline_us: deadline })
            &&& b == payloads(items)
            &&& s == StepModel::ReceiveWithin((deadline - times.last()) as u64)
            &&& after_nothing(b, m) == (
                Seq::<Payload>::empty(),
                BatchMode::Idle,
                StepModel::Flush(payloads(items)),
            )
        }),
    decreases items.len(),
{
    if items.len() == 1 {
        assert(items.drop_last().len() == 0);
        assert(payloads(items) =~= seq![items[0].payload]);
    } else {
        let pi = items.drop_last();
        let pt = times.drop_last();
        assert(pt[0] == times[0]);
        assert forall|i: int| 0 <= i < pi.len() implies (#[trigger] pi[i]).spec_is_low() by {
            assert(pi[i] == items[i]);
        }
        assert forall|i: int| 0 <= i < pt.len() implies pt[0] <= #[trigger] pt[i] < pt[0]
            + WINDOW_US by {
            assert(pt[i] == times[i]);
        }
        lemma_low_burst_flushes_at_deadline(pi, pt);
        assert(items.last() == items[items.len() - 1]);
        assert(times.last() == times[times.len() - 1]);
        assert(payloads(pi).push(items.last().payload) =~= payloads(items));
    }
}

/// An urgent item with nothing else queued is flushed alone, without any
/// wait: the only step between is a try that finds nothing.
pub proof fn lemma_urgent_alone_flushed(urgent: PriorityItem, t: u64)
    requires
        !urgent.spec_is_low(),
    ensures
        ({
            let (b1, m1, s1) = after_item(Seq::empty(), BatchMode::Idle, urgent, t);
            let (b2, m2, s2) = after_nothing(b1, m1);
            &&& s1 == StepModel::TryReceive
            &&& s2 == StepModel::Flush(seq![urgent.payload])
            &&& m2 == BatchMode::Idle
        }),
{
}

} // verus!
