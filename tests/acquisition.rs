use large_bedroom::channel::Channel;
use large_bedroom::item::{
    Device, FaultClass, Payload, PriorityItem, ReadingKind, UnrecoverableError, PRIORITY_URGENT,
};
use large_bedroom::setup::{check_setup, setup_timeout_ms, SetupOutcome};
use large_bedroom::slow::{
    publish_slow_results, publish_sps_result, publish_trigger_result, sht_list, BmeMeasurement,
    MhzMeasurement, SensorOutcome, ShtMeasurement, SpsMeasurement,
};
use large_bedroom::supervisor::{
    DogAction, Phase, Supervisor, SupervisorAction, SupervisorEvent, WatchdogKeeper,
    PET_INTERVAL_MS, WATCHDOG_TIMEOUT_US,
};
use large_bedroom::tracker::{BussErrId, BussErrTracker};

fn sps() -> SpsMeasurement {
    SpsMeasurement {
        mass_pm1_0: 1,
        mass_pm2_5: 2,
        mass_pm4_0: 3,
        mass_pm10: 4,
        mass_pm0_5: 5,
        number_pm1_0: 6,
        number_pm2_5: 7,
        number_pm4_0: 8,
        number_pm10: 9,
        typical_particle_size: 10,
    }
}

fn drain(ch: &mut Channel) -> Vec<PriorityItem> {
    let mut v = Vec::new();
    while let Some(i) = ch.try_receive() {
        v.push(i);
    }
    v
}

#[test]
fn particulate_measurement_publishes_ten_readings() {
    let mut ch = Channel::new();
    assert_eq!(publish_sps_result(SensorOutcome::Measured(sps()), &mut ch), 10);
    let items = drain(&mut ch);
    assert_eq!(items.len(), 10);
    let mut values: Vec<i64> = items
        .iter()
        .map(|i| {
            assert_eq!(i.priority, PRIORITY_URGENT);
            match i.payload {
                Payload::Reading(r) => r.value,
                other => panic!("unexpected {:?}", other),
            }
        })
        .collect();
    values.sort();
    assert_eq!(values, (1..=10).collect::<Vec<i64>>());
}

#[test]
fn failed_and_timed_out_reads_publish_faults() {
    let mut ch = Channel::new();
    publish_sps_result(SensorOutcome::Failed(12), &mut ch);
    assert_eq!(
        drain(&mut ch),
        vec![PriorityItem::fault(Device::Sps30, FaultClass::RunningFault, 12)]
    );
    publish_sps_result(SensorOutcome::TimedOut, &mut ch);
    assert_eq!(drain(&mut ch), vec![PriorityItem::fault(Device::Sps30, FaultClass::ReadTimeout, 0)]);
}

#[test]
fn temperature_reading_gives_two_items_in_order() {
    let v = sht_list(SensorOutcome::Measured(ShtMeasurement { temperature: 21_500, humidity: 40_250 }));
    assert_eq!(
        v,
        vec![
            PriorityItem::reading(PRIORITY_URGENT, ReadingKind::Temperature, 21_500),
            PriorityItem::reading(PRIORITY_URGENT, ReadingKind::Humidity, 40_250),
        ]
    );
}

#[test]
fn trigger_failure_publishes_a_running_fault() {
    let mut ch = Channel::new();
    publish_trigger_result(None, &mut ch);
    assert_eq!(ch.len(), 0);
    publish_trigger_result(Some(3), &mut ch);
    assert_eq!(drain(&mut ch), vec![PriorityItem::fault(Device::Sht31, FaultClass::RunningFault, 3)]);
}

#[test]
fn slow_cycle_publishes_everything_and_escalates_total_loss() {
    let mut ch = Channel::new();
    let mut busses = BussErrTracker::new();
    let r = publish_slow_results(
        SensorOutcome::Measured(BmeMeasurement { pressure: 101_325_000, gas_resistance: 50_000_000 }),
        SensorOutcome::TimedOut,
        SensorOutcome::Measured(MhzMeasurement { co2: 415 }),
        SensorOutcome::Measured(sps()),
        &mut ch,
        &mut busses,
    );
    assert_eq!(r, Ok(()));
    assert_eq!(ch.len(), 2 + 1 + 1 + 10);
    drain(&mut ch);

    busses.set(BussErrId::Max);
    let r = publish_slow_results(
        SensorOutcome::Failed(1),
        SensorOutcome::Failed(2),
        SensorOutcome::TimedOut,
        SensorOutcome::TimedOut,
        &mut ch,
        &mut busses,
    );
    assert_eq!(r, Err(UnrecoverableError::AllBussesFaulted));
    assert_eq!(ch.len(), 4);
}

#[test]
fn setup_failures_end_the_pipeline() {
    assert_eq!(setup_timeout_ms(Device::Bme680), 12_000);
    assert_eq!(setup_timeout_ms(Device::Max44), 250);
    assert_eq!(check_setup(Device::Max44, SetupOutcome::Ready), Ok(()));
    assert_eq!(
        check_setup(Device::Bme680, SetupOutcome::TimedOut),
        Err(UnrecoverableError::SetupTimedOut(Device::Bme680))
    );
    assert_eq!(
        check_setup(Device::Max44, SetupOutcome::Failed(5)),
        Err(UnrecoverableError::SetupFailed(Device::Max44, 5))
    );
}

#[test]
fn supervisor_escalates_once_and_stops_the_watchdog() {
    let mut s = Supervisor::new();
    assert!(s.pets_watchdog());
    let err = UnrecoverableError::SetupTimedOut(Device::Bme680);
    assert_eq!(s.step(SupervisorEvent::AcquisitionFailed(err)), SupervisorAction::Continue);
    assert_eq!(s.step(SupervisorEvent::LinkEstablished), SupervisorAction::StartAcquisition);
    assert_eq!(s.phase, Phase::Acquiring);
    assert_eq!(
        s.step(SupervisorEvent::AcquisitionFailed(err)),
        SupervisorAction::Broadcast(PriorityItem::critical(err))
    );
    assert!(!s.pets_watchdog());
    assert_eq!(s.step(SupervisorEvent::LinkEstablished), SupervisorAction::Continue);
}

#[test]
fn watchdog_keeper_cycles() {
    let mut k = WatchdogKeeper::new();
    assert_eq!(k.step(), DogAction::Arm(WATCHDOG_TIMEOUT_US));
    assert_eq!(k.step(), DogAction::Sleep(PET_INTERVAL_MS));
    assert_eq!(k.step(), DogAction::Pet);
    assert_eq!(k.step(), DogAction::Arm(20_000_000));
}
