use large_bedroom::button::{ButtonDebouncer, ButtonOutcome, Edge};
use large_bedroom::channel::Channel;
use large_bedroom::item::{
    ButtonId, Device, FaultClass, PriorityItem, ReadingKind, UnrecoverableError, PRIORITY_EVENT,
    PRIORITY_ROUTINE,
};
use large_bedroom::light::{report_lux, sig_lux_diff, LightSampler};
use large_bedroom::tracker::{BussErrId, BussErrTracker};

#[test]
fn short_press_is_noise_and_long_press_is_one_event() {
    let mut b = ButtonDebouncer::new(ButtonId::TopLeft);
    assert_eq!(b.awaited_edge(), Edge::Rising);
    assert_eq!(b.on_edge(1_000_000), ButtonOutcome::Armed);
    assert_eq!(b.awaited_edge(), Edge::Falling);
    assert_eq!(b.on_edge(1_003_000), ButtonOutcome::Noise);
    assert_eq!(b.awaited_edge(), Edge::Rising);

    assert_eq!(b.on_edge(2_000_000), ButtonOutcome::Armed);
    assert_eq!(
        b.on_edge(2_050_000),
        ButtonOutcome::Press(PriorityItem::reading(
            PRIORITY_EVENT,
            ReadingKind::ButtonPress(ButtonId::TopLeft),
            50
        ))
    );
    assert_eq!(b.awaited_edge(), Edge::Rising);
}

#[test]
fn press_at_the_noise_floor_counts() {
    let mut b = ButtonDebouncer::new(ButtonId::MiddleCenter);
    b.on_edge(0);
    assert_eq!(
        b.on_edge(5_000),
        ButtonOutcome::Press(PriorityItem::reading(
            PRIORITY_EVENT,
            ReadingKind::ButtonPress(ButtonId::MiddleCenter),
            5
        ))
    );
}

#[test]
fn overlong_press_is_skipped() {
    let mut b = ButtonDebouncer::new(ButtonId::LowerInner);
    b.on_edge(0);
    assert_eq!(b.on_edge(65_536_000), ButtonOutcome::TooLong);
    assert_eq!(b.awaited_edge(), Edge::Rising);
    b.on_edge(0);
    assert_eq!(
        b.on_edge(65_535_999),
        ButtonOutcome::Press(PriorityItem::reading(
            PRIORITY_EVENT,
            ReadingKind::ButtonPress(ButtonId::LowerInner),
            65_535
        ))
    );
}

#[test]
fn lux_difference_threshold_is_five_percent() {
    assert!(!sig_lux_diff(100_000, 105_000));
    assert!(sig_lux_diff(100_000, 105_001));
    assert!(!sig_lux_diff(100_000, 95_000));
    assert!(sig_lux_diff(100_000, 94_999));
    assert!(sig_lux_diff(0, 1));
    assert!(!sig_lux_diff(0, 0));
    assert!(sig_lux_diff(u32::MAX, 0));
}

#[test]
fn light_sampling_rate_limits_small_changes() {
    let mut s = LightSampler::new(0);
    let first = s.on_reading(50_000, 100_000);
    assert_eq!(first, Some(PriorityItem::reading(PRIORITY_EVENT, ReadingKind::Brightness, 100_000)));
    assert_eq!(s.on_reading(500_000, 103_000), None);
    assert_eq!(s.prev, Some(100_000));
    assert_eq!(
        s.on_reading(1_050_000, 103_000),
        Some(PriorityItem::reading(PRIORITY_ROUTINE, ReadingKind::Brightness, 103_000))
    );
    assert_eq!(s.last_report_us, 1_050_000);
    assert_eq!(
        s.on_reading(1_100_000, 200_000),
        Some(PriorityItem::reading(PRIORITY_EVENT, ReadingKind::Brightness, 200_000))
    );
}

#[test]
fn light_fault_only_after_a_quiet_second() {
    let s = LightSampler::new(0);
    assert_eq!(s.on_failure(999_999, 4), None);
    assert_eq!(
        s.on_failure(1_000_000, 4),
        Some(PriorityItem::fault(Device::Max44, FaultClass::RunningFault, 4))
    );
}

#[test]
fn report_lux_publishes_and_tracks_the_bus() {
    let mut s = LightSampler::new(0);
    let mut ch = Channel::new();
    let mut busses = BussErrTracker::new();
    assert_eq!(report_lux(&mut s, 50_000, Ok(1_000), &mut ch, &mut busses), Ok(()));
    assert_eq!(ch.len(), 1);
    assert_eq!(report_lux(&mut s, 100_000, Err(2), &mut ch, &mut busses), Ok(()));
    assert_eq!(ch.len(), 1);
    busses.set(BussErrId::Bme);
    busses.set(BussErrId::Sht);
    assert_eq!(
        report_lux(&mut s, 2_000_000, Err(2), &mut ch, &mut busses),
        Err(UnrecoverableError::AllBussesFaulted)
    );
    assert_eq!(ch.len(), 2);
    assert_eq!(report_lux(&mut s, 2_050_000, Ok(1_000), &mut ch, &mut busses), Ok(()));
    assert!(!busses.all_err());
}

#[test]
fn bus_tracker_all_faulted_only_with_every_bit() {
    let mut t = BussErrTracker::new();
    assert!(!t.all_err());
    t.set(BussErrId::Bme);
    assert!(!t.all_err());
    t.set(BussErrId::Sht);
    assert!(!t.all_err());
    t.set(BussErrId::Sht);
    assert!(!t.all_err());
    t.set(BussErrId::Max);
    assert!(t.all_err());
    t.unset(BussErrId::Sht);
    assert!(!t.all_err());
    t.unset(BussErrId::Sht);
    assert!(!t.all_err());
    t.set(BussErrId::Sht);
    assert!(t.all_err());
    t.unset(BussErrId::Bme);
    assert!(!t.all_err());
}
