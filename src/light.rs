//! Change- and rate-limited reporting of the brightness sensor.
use crate::channel::{after_publish, Channel};
use crate::item::{
    Device, FaultClass, PriorityItem, ReadingKind, UnrecoverableError, PRIORITY_EVENT,
    PRIORITY_ROUTINE,
};
use crate::tracker::{BussErrId, BussErrTracker};
use vstd::prelude::*;

verus! {

/// Interval between two brightness samples, in milliseconds.
pub const POLL_INTERVAL_MS: u64 = 50;

/// The longest a brightness value goes unreported while the sensor reads.
pub const MIN_INTERVAL_US: u64 = 1_000_000;

/// Whether `new` differs from `old` by more than a twentieth (5%) of `old`.
/// Both are in millilux.
pub open spec fn significant(old: u32, new: u32) -> bool {
    20 * (if old >= new {
        old - new
    } else {
        new - old
    }) > old
}

pub fn sig_lux_diff(old: u32, new: u32) -> (r: bool)
    ensures
        r == significant(old, new),
{
    let diff: u64 = if old >= new {
        (old - new) as u64
    } else {
        (new - old) as u64
    };
    20 * diff > old as u64
}

/// Microseconds from `since` to `now`, or 0 if the clock went backwards.
pub open spec fn since(last: u64, now: u64) -> u64 {
    if now >= last {
        (now - last) as u64
    } else {
        0
    }
}

pub open spec fn brightness(priority: u8, millilux: u32) -> PriorityItem {
    PriorityItem {
        priority,
        payload: crate::item::Payload::Reading(
            crate::item::Reading { kind: ReadingKind::Brightness, value: millilux as i64 },
        ),
    }
}

/// What a successful reading of `millilux` at `now` publishes. A value that
/// differs by more than 5% from the last report (or the first value) is an
/// event; otherwise it is routine once a second has passed since the last
/// report, and skipped before that.
pub open spec fn reading_item(s: LightSampler, now: u64, millilux: u32) -> Option<PriorityItem> {
    let sig = match s.prev {
        None => true,
        Some(p) => significant(p, millilux),
    };
    if sig {
        Some(brightness(PRIORITY_EVENT, millilux))
    } else if since(s.last_report_us, now) >= MIN_INTERVAL_US {
        Some(brightness(PRIORITY_ROUTINE, millilux))
    } else {
        None
    }
}

/// The sampler after that reading: a published value becomes the last report.
pub open spec fn after_reading(s: LightSampler, now: u64, millilux: u32) -> LightSampler {
    if reading_item(s, now, millilux) is Some {
        LightSampler { prev: Some(millilux), last_report_us: now }
    } else {
        s
    }
}

/// What a failed reading at `now` publishes: a running fault, only once a
/// second has passed since the last report.
pub open spec fn failure_item(s: LightSampler, now: u64, cause: u16) -> Option<PriorityItem> {
    if since(s.last_report_us, now) >= MIN_INTERVAL_US {
        Some(PriorityItem::spec_fault(Device::Max44, FaultClass::RunningFault, cause))
    } else {
        None
    }
}

pub open spec fn opt_seq(o: Option<PriorityItem>) -> Seq<PriorityItem> {
    match o {
        Some(i) => seq![i],
        None => seq![],
    }
}

/// The last reported value (none before the first report) and when it was
/// reported.
#[derive(Clone, Copy, Debug, PartialEq, Eq, Structural)]
pub struct LightSampler {
    pub prev: Option<u32>,
    pub last_report_us: u64,
}

impl LightSampler {
    /// A sampler started at `now_us`, with nothing reported yet.
    pub fn new(now_us: u64) -> (r: Self)
        ensures
            r.prev is None,
            r.last_report_us == now_us,
    {
        LightSampler { prev: None, last_report_us: now_us }
    }

    /// Takes a successful reading of `millilux` at `now_us`. A value that
    /// differs by more than 5% from the last report (or the first value) is
    /// published at once as an event; otherwise it is published as routine
    /// once a second has passed since the last report, and skipped before
    /// that. A published value becomes the last report.
    pub fn on_reading(&mut self, now_us: u64, millilux: u32) -> (r: Option<PriorityItem>)
        ensures
            r == reading_item(*old(self), now_us, millilux),
            *final(self) == after_reading(*old(self), now_us, millilux),
    {
        let sig = match self.prev {
            None => true,
            Some(p) => sig_lux_diff(p, millilux),
        };
        let elapsed: u64 = if now_us >= self.last_report_us {
            now_us - self.last_report_us
        } else {
            0
        };
        let priority = if sig {
            PRIORITY_EVENT
        } else if elapsed >= MIN_INTERVAL_US {
            PRIORITY_ROUTINE
        } else {
            return None;
        };
        self.prev = Some(millilux);
        self.last_report_us = now_us;
        Some(PriorityItem::reading(priority, ReadingKind::Brightness, millilux as i64))
    }

    /// Takes a failed reading at `now_us`: a running fault is published only
    /// when a second has passed since the last report, so that a short
    /// glitch does not flood the channel. The state is unchanged.
    pub fn on_failure(&self, now_us: u64, cause: u16) -> (r: Option<PriorityItem>)
        ensures
            r == failure_item(*self, now_us, cause),
    {
        let elapsed: u64 = if now_us >= self.last_report_us {
            now_us - self.last_report_us
        } else {
            0
        };
        if elapsed >= MIN_INTERVAL_US {
            Some(PriorityItem::fault(Device::Max44, FaultClass::RunningFault, cause))
        } else {
            None
        }
    }
}

/// One sample of the light loop at `now_us`: `reading` is the value in
/// millilux or the driver's error code. Publishes what the sampler decides,
/// records the brightness sensor's bus outcome, and fails when every bus is
/// then faulted.
pub fn report_lux(
    sampler: &mut LightSampler,
    now_us: u64,
    reading: Result<u32, u16>,
    publish: &mut Channel,
    busses: &mut BussErrTracker,
) -> (r: Result<(), UnrecoverableError>)
    requires
        old(publish).wf(),
        old(busses).wf(),
    ensures
        final(publish).wf(),
        match reading {
            Ok(l) => {
                &&& final(publish).keys() == after_publish(
                    old(publish).keys(),
                    opt_seq(reading_item(*old(sampler), now_us, l)),
                )
                &&& *final(sampler) == after_reading(*old(sampler), now_us, l)
            },
            Err(c) => {
                &&& final(publish).keys() == after_publish(
                    old(publish).keys(),
                    opt_seq(failure_item(*old(sampler), now_us, c)),
                )
                &&& *final(sampler) == *old(sampler)
            },
        },
        final(busses).wf(),
        final(busses).faulted(BussErrId::Max) == reading is Err,
        final(busses).faulted(BussErrId::Bme) == old(busses).faulted(BussErrId::Bme),
        final(busses).faulted(BussErrId::Sht) == old(busses).faulted(BussErrId::Sht),
        r is Ok <==> !final(busses).all_faulted(),
        r is Err ==> r == Err::<(), UnrecoverableError>(UnrecoverableError::AllBussesFaulted),
{
    let item = match reading {
        Ok(l) => sampler.on_reading(now_us, l),
        Err(c) => sampler.on_failure(now_us, c),
    };
    let mut v: Vec<PriorityItem> = Vec::new();
    if let Some(i) = item {
        v.push(i);
    }
    proof {
        assert(v@ =~= opt_seq(item));
    }
    publish.publish_all(&v);
    let lost = busses.record(BussErrId::Max, reading.is_ok());
    if lost {
        Err(UnrecoverableError::AllBussesFaulted)
    } else {
        Ok(())
    }
}

} // verus!
