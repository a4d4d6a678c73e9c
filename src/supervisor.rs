//! Escalation: acquisition starts once the link is up; an unrecoverable error
//! is broadcast as a critical item while the watchdog is left unfed.
use crate::item::{PriorityItem, UnrecoverableError, PRIORITY_URGENT};
use vstd::prelude::*;

verus! {

/// Watchdog timeout, in microseconds.
pub const WATCHDOG_TIMEOUT_US: u32 = 20_000_000;

/// Interval between two pets of the watchdog, in milliseconds.
pub const PET_INTERVAL_MS: u64 = 8_000;

#[derive(Clone, Copy, Debug, PartialEq, Eq, Structural)]
pub enum Phase {
    /// The publisher runs; acquisition waits for the link.
    AwaitingLink,
    /// Sensors are set up and polled.
    Acquiring,
    /// Acquisition ended in this error; only the publisher runs, to flush it,
    /// until the watchdog resets the node.
    Escalating(UnrecoverableError),
}

#[derive(Clone, Copy, Debug, PartialEq, Eq, Structural)]
pub enum SupervisorEvent {
    LinkEstablished,
    AcquisitionFailed(UnrecoverableError),
}

#[derive(Clone, Copy, Debug, PartialEq, Eq, Structural)]
pub enum SupervisorAction {
    /// Nothing to change.
    Continue,
    /// Set up the sensors and start polling.
    StartAcquisition,
    /// Stop petting the watchdog and publish this critical item, waiting for
    /// room if the channel is full.
    Broadcast(PriorityItem),
}

pub open spec fn supervise(p: Phase, e: SupervisorEvent) -> (Phase, SupervisorAction) {
    match (p, e) {
        (Phase::AwaitingLink, SupervisorEvent::LinkEstablished) => (
            Phase::Acquiring,
            SupervisorAction::StartAcquisition,
        ),
        (Phase::Acquiring, SupervisorEvent::AcquisitionFailed(err)) => (
            Phase::Escalating(err),
            SupervisorAction::Broadcast(PriorityItem::spec_critical(err)),
        ),
        _ => (p, SupervisorAction::Continue),
    }
}

pub struct Supervisor {
    pub phase: Phase,
}

impl Supervisor {
    pub fn new() -> (r: Self)
        ensures
            r.phase == Phase::AwaitingLink,
    {
        Supervisor { phase: Phase::AwaitingLink }
    }

    /// Whether the watchdog is to be kept fed: in every phase but escalation.
    pub fn pets_watchdog(&self) -> (r: bool)
        ensures
            r == !(self.phase is Escalating),
    {
        match self.phase {
            Phase::Escalating(_) => false,
            _ => true,
        }
    }

    pub fn step(&mut self, e: SupervisorEvent) -> (r: SupervisorAction)
        ensures
            (final(self).phase, r) == supervise(old(self).phase, e),
    {
        match (self.phase, e) {
            (Phase::AwaitingLink, SupervisorEvent::LinkEstablished) => {
                self.phase = Phase::Acquiring;
                SupervisorAction::StartAcquisition
            },
            (Phase::Acquiring, SupervisorEvent::AcquisitionFailed(err)) => {
                self.phase = Phase::Escalating(err);
                SupervisorAction::Broadcast(PriorityItem::critical(err))
            },
            _ => SupervisorAction::Continue,
        }
    }
}

/// A broadcast item is critical and as urgent as any item can be.
pub proof fn lemma_broadcast_most_urgent(p: Phase, e: SupervisorEvent)
    ensures
        supervise(p, e).1 matches SupervisorAction::Broadcast(item) ==> {
            &&& item.priority == PRIORITY_URGENT
            &&& item.payload is Critical
            &&& forall|other: PriorityItem| item.priority <= other.priority
        },
{
}

/// What the watchdog keeper does next.
#[derive(Clone, Copy, Debug, PartialEq, Eq, Structural)]
pub enum DogAction {
    /// Start the watchdog with this timeout in microseconds (no effect once
    /// started).
    Arm(u32),
    /// Sleep this many milliseconds.
    Sleep(u64),
    Pet,
}

/// Cycles arm, sleep, pet, so the watchdog is petted well within its timeout.
pub struct WatchdogKeeper {
    pub next: DogAction,
}

pub open spec fn after_dog(a: DogAction) -> DogAction {
    match a {
        DogAction::Arm(_) => DogAction::Sleep(PET_INTERVAL_MS),
        DogAction::Sleep(_) => DogAction::Pet,
        DogAction::Pet => DogAction::Arm(WATCHDOG_TIMEOUT_US),
    }
}

impl WatchdogKeeper {
    pub fn new() -> (r: Self)
        ensures
            r.next == DogAction::Arm(WATCHDOG_TIMEOUT_US),
    {
        WatchdogKeeper { next: DogAction::Arm(WATCHDOG_TIMEOUT_US) }
    }

    /// The action to perform now; the keeper moves on to the one after.
    pub fn step(&mut self) -> (r: DogAction)
        ensures
            r == old(self).next,
            final(self).next == after_dog(r),
    {
        let r = self.next;
        self.next = match r {
            DogAction::Arm(_) => DogAction::Sleep(PET_INTERVAL_MS),
            DogAction::Sleep(_) => DogAction::Pet,
            DogAction::Pet => DogAction::Arm(WATCHDOG_TIMEOUT_US),
        };
        r
    }
}

/// The sleep between two pets is shorter than the watchdog timeout.
pub proof fn lemma_pet_in_time()
    ensures
        PET_INTERVAL_MS * 1000 < WATCHDOG_TIMEOUT_US,
{
}

} // verus!
