//! One-time sensor setup: its time bounds, and which outcomes end the
//! measurement pipeline.
use crate::item::{Device, UnrecoverableError};
use vstd::prelude::*;

verus! {

/// How a bounded setup of one device ended.
#[derive(Clone, Copy, Debug, PartialEq, Eq, Structural)]
pub enum SetupOutcome {
    Ready,
    /// The driver failed with this error code.
    Failed(u16),
    TimedOut,
}

/// Bound on the setup of `d`, in milliseconds: the pressure/gas sensor is
/// slow to start.
pub open spec fn spec_setup_timeout_ms(d: Device) -> u64 {
    match d {
        Device::Bme680 => 12_000,
        _ => 250,
    }
}

pub fn setup_timeout_ms(d: Device) -> (r: u64)
    ensures
        r == spec_setup_timeout_ms(d),
{
    match d {
        Device::Bme680 => 12_000,
        _ => 250,
    }
}

/// Whether the setup of `device` lets the pipeline go on. A setup is never
/// retried: a failure or a timeout is unrecoverable.
pub fn check_setup(device: Device, outcome: SetupOutcome) -> (r: Result<(), UnrecoverableError>)
    ensures
        outcome == SetupOutcome::Ready ==> r is Ok,
        outcome matches SetupOutcome::Failed(c) ==> r == Err::<(), UnrecoverableError>(
            UnrecoverableError::SetupFailed(device, c),
        ),
        outcome == SetupOutcome::TimedOut ==> r == Err::<(), UnrecoverableError>(
            UnrecoverableError::SetupTimedOut(device),
        ),
{
    match outcome {
        SetupOutcome::Ready => Ok(()),
        SetupOutcome::Failed(c) => Err(UnrecoverableError::SetupFailed(device, c)),
        SetupOutcome::TimedOut => Err(UnrecoverableError::SetupTimedOut(device)),
    }
}

} // verus!
