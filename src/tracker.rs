//! Sticky per-bus fault bits with an "every bus faulted" query.
use vstd::prelude::*;

verus! {

/// A device that sits on its own bus and is tracked for faults.
#[derive(Clone, Copy, Debug, PartialEq, Eq, Structural)]
pub enum BussErrId {
    Bme,
    Sht,
    Max,
}

/// The bit that stands for `id` in the tracker's mask.
pub open spec fn spec_bit(id: BussErrId) -> u8 {
    match id {
        BussErrId::Bme => 1u8,
        BussErrId::Sht => 2u8,
        BussErrId::Max => 4u8,
    }
}

/// All tracked bits together.
pub const ALL_BUSSES: u8 = 7;

fn bit(id: BussErrId) -> (r: u8)
    ensures
        r == spec_bit(id),
{
    match id {
        BussErrId::Bme => 1,
        BussErrId::Sht => 2,
        BussErrId::Max => 4,
    }
}

/// Fault bits, one per tracked bus. A bit is set on a failed read of its
/// device and cleared on the next successful one.
pub struct BussErrTracker {
    mask: u8,
}

impl BussErrTracker {
    /// Only the tracked bits are ever set.
    pub closed spec fn wf(&self) -> bool {
        self.mask & !ALL_BUSSES == 0
    }

    /// Whether the bit of `id` is set.
    pub closed spec fn faulted(&self, id: BussErrId) -> bool {
        self.mask & spec_bit(id) != 0
    }

    /// Whether every tracked bit is set.
    pub open spec fn all_faulted(&self) -> bool {
        forall|id: BussErrId| self.faulted(id)
    }

    pub fn new() -> (r: Self)
        ensures
            r.wf(),
            forall|id: BussErrId| !r.faulted(id),
    {
        let r = BussErrTracker { mask: 0 };
        assert forall|id: BussErrId| !r.faulted(id) by {
            assert(0u8 & 1u8 == 0 && 0u8 & 2u8 == 0 && 0u8 & 4u8 == 0) by (bit_vector);
        }
        assert(0u8 & !7u8 == 0) by (bit_vector);
        r
    }

    /// Marks the bus of `id` as faulted; setting it twice changes nothing.
    pub fn set(&mut self, id: BussErrId)
        requires
            old(self).wf(),
        ensures
            final(self).wf(),
            forall|d: BussErrId| final(self).faulted(d) == (d == id || old(self).faulted(d)),
    {
        let m = self.mask;
        let b = bit(id);
        self.mask = m | b;
        assert(m & !7u8 == 0 && (b == 1u8 || b == 2u8 || b == 4u8) ==> (m | b) & !7u8 == 0)
            by (bit_vector);
        assert forall|d: BussErrId| self.faulted(d) == (d == id || old(self).faulted(d)) by {
            let c = spec_bit(d);
            assert((b == 1u8 || b == 2u8 || b == 4u8) && (c == 1u8 || c == 2u8 || c == 4u8) ==>
                (((m | b) & c != 0) == (b == c || m & c != 0))) by (bit_vector);
        }
    }

    /// Clears the fault bit of `id`; clearing it twice changes nothing.
    pub fn unset(&mut self, id: BussErrId)
        requires
            old(self).wf(),
        ensures
            final(self).wf(),
            forall|d: BussErrId| final(self).faulted(d) == (d != id && old(self).faulted(d)),
    {
        let m = self.mask;
        let b = bit(id);
        self.mask = m & !b;
        assert(m & !7u8 == 0 ==> (m & !b) & !7u8 == 0) by (bit_vector);
        assert forall|d: BussErrId| self.faulted(d) == (d != id && old(self).faulted(d)) by {
            let c = spec_bit(d);
            assert((b == 1u8 || b == 2u8 || b == 4u8) && (c == 1u8 || c == 2u8 || c == 4u8) ==>
                (((m & !b) & c != 0) == (b != c && m & c != 0))) by (bit_vector);
        }
    }

    /// Records the outcome of a read of `id`'s device: a failure sets its
    /// bit, a success clears it. Returns whether every bus is now faulted.
    pub fn record(&mut self, id: BussErrId, ok: bool) -> (r: bool)
        requires
            old(self).wf(),
        ensures
            final(self).wf(),
            forall|d: BussErrId| #[trigger]
                final(self).faulted(d) == if d == id {
                    !ok
                } else {
                    old(self).faulted(d)
                },
            r == final(self).all_faulted(),
    {
        if ok {
            self.unset(id);
        } else {
            self.set(id);
        }
        self.all_err()
    }

    /// Whether every tracked bus is currently faulted.
    pub fn all_err(&self) -> (r: bool)
        requires
            self.wf(),
        ensures
            r == self.all_faulted(),
    {
        let m = self.mask;
        assert(m & !7u8 == 0 ==> ((m == 7u8) == (m & 1u8 != 0 && m & 2u8 != 0 && m & 4u8 != 0)))
            by (bit_vector);
        assert(self.faulted(BussErrId::Bme) && self.faulted(BussErrId::Sht) && self.faulted(
            BussErrId::Max,
        ) ==> self.all_faulted());
        m == ALL_BUSSES
    }
}

/// Every bus is faulted exactly when each of the three bits is set: setting
/// the last missing bit makes it true, and clearing any bit makes it false.
pub proof fn lemma_all_faulted_needs_every_bus(t: BussErrTracker)
    ensures
        t.all_faulted() <==> (t.faulted(BussErrId::Bme) && t.faulted(BussErrId::Sht)
            && t.faulted(BussErrId::Max)),
{
    if t.faulted(BussErrId::Bme) && t.faulted(BussErrId::Sht) && t.faulted(BussErrId::Max) {
        assert forall|id: BussErrId| t.faulted(id) by {
            match id {
                BussErrId::Bme => {},
                BussErrId::Sht => {},
                BussErrId::Max => {},
            }
        }
    }
}

} // verus!
