//! The slow acquisition cycle: what each slow sensor's result publishes.
use crate::channel::{accepted, after_publish, Channel};
use crate::item::{
    Device, FaultClass, PriorityItem, ReadingKind, UnrecoverableError, PRIORITY_URGENT,
};
use crate::tracker::{BussErrId, BussErrTracker};
use vstd::prelude::*;

verus! {

/// Bound on each slow read, in milliseconds.
pub const READ_TIMEOUT_MS: u64 = 100;

/// Wait between triggering the temperature sensor and reading, in milliseconds.
pub const SETTLE_MS: u64 = 1_000;

/// How a bounded read of one sensor ended.
#[derive(Debug)]
pub enum SensorOutcome<M> {
    Measured(M),
    /// The driver failed with this error code.
    Failed(u16),
    TimedOut,
}

/// Temperature (thousandths of a degree Celsius) and relative humidity
/// (thousandths of a percent).
#[derive(Clone, Copy, Debug)]
pub struct ShtMeasurement {
    pub temperature: i64,
    pub humidity: i64,
}

/// Pressure (thousandths of a hectopascal) and gas resistance (thousandths of an
/// ohm).
#[derive(Clone, Copy, Debug)]
pub struct BmeMeasurement {
    pub pressure: i64,
    pub gas_resistance: i64,
}

/// CO2 concentration in ppm.
#[derive(Clone, Copy, Debug)]
pub struct MhzMeasurement {
    pub co2: i64,
}

/// Particulate mass and number concentrations and typical particle size, in
/// thousandths of their units.
#[derive(Clone, Copy, Debug)]
pub struct SpsMeasurement {
    pub mass_pm1_0: i64,
    pub mass_pm2_5: i64,
    pub mass_pm4_0: i64,
    pub mass_pm10: i64,
    pub mass_pm0_5: i64,
    pub number_pm1_0: i64,
    pub number_pm2_5: i64,
    pub number_pm4_0: i64,
    pub number_pm10: i64,
    pub typical_particle_size: i64,
}

pub open spec fn urgent(kind: ReadingKind, value: i64) -> PriorityItem {
    PriorityItem {
        priority: PRIORITY_URGENT,
        payload: crate::item::Payload::Reading(crate::item::Reading { kind, value }),
    }
}

/// The fault a failed or timed-out read of `device` publishes.
pub open spec fn failure_items<M>(device: Device, o: SensorOutcome<M>) -> Seq<PriorityItem> {
    match o {
        SensorOutcome::Failed(c) => seq![
            PriorityItem::spec_fault(device, FaultClass::RunningFault, c),
        ],
        _ => seq![PriorityItem::spec_fault(device, FaultClass::ReadTimeout, 0)],
    }
}

pub open spec fn sht_items(o: SensorOutcome<ShtMeasurement>) -> Seq<PriorityItem> {
    match o {
        SensorOutcome::Measured(m) => seq![
            urgent(ReadingKind::Temperature, m.temperature),
            urgent(ReadingKind::Humidity, m.humidity),
        ],
        _ => failure_items(Device::Sht31, o),
    }
}

pub open spec fn bme_items(o: SensorOutcome<BmeMeasurement>) -> Seq<PriorityItem> {
    match o {
        SensorOutcome::Measured(m) => seq![
            urgent(ReadingKind::GasResistance, m.gas_resistance),
            urgent(ReadingKind::Pressure, m.pressure),
        ],
        _ => failure_items(Device::Bme680, o),
    }
}

pub open spec fn mhz_items(o: SensorOutcome<MhzMeasurement>) -> Seq<PriorityItem> {
    match o {
        SensorOutcome::Measured(m) => seq![urgent(ReadingKind::Co2, m.co2)],
        _ => failure_items(Device::Mhz14, o),
    }
}

pub open spec fn sps_items(o: SensorOutcome<SpsMeasurement>) -> Seq<PriorityItem> {
    match o {
        SensorOutcome::Measured(m) => seq![
            urgent(ReadingKind::MassPm1p0, m.mass_pm1_0),
            urgent(ReadingKind::MassPm2p5, m.mass_pm2_5),
            urgent(ReadingKind::MassPm4p0, m.mass_pm4_0),
            urgent(ReadingKind::MassPm10, m.mass_pm10),
            urgent(ReadingKind::MassPm0p5, m.mass_pm0_5),
            urgent(ReadingKind::NumberPm1p0, m.number_pm1_0),
            urgent(ReadingKind::NumberPm2p5, m.number_pm2_5),
            urgent(ReadingKind::NumberPm4p0, m.number_pm4_0),
            urgent(ReadingKind::NumberPm10, m.number_pm10),
            urgent(ReadingKind::TypicalParticleSize, m.typical_particle_size),
        ],
        _ => failure_items(Device::Sps30, o),
    }
}

fn failure_list<M>(device: Device, o: &SensorOutcome<M>) -> (r: Vec<PriorityItem>)
    ensures
        r@ == failure_items(device, *o),
{
    let item = match o {
        SensorOutcome::Failed(c) => PriorityItem::fault(device, FaultClass::RunningFault, *c),
        _ => PriorityItem::fault(device, FaultClass::ReadTimeout, 0),
    };
    let mut r: Vec<PriorityItem> = Vec::new();
    r.push(item);
    proof {
        assert(r@ =~= failure_items(device, *o));
    }
    r
}

/// Appends an urgent reading.
fn push_urgent(v: &mut Vec<PriorityItem>, kind: ReadingKind, value: i64)
    ensures
        final(v)@ == old(v)@.push(urgent(kind, value)),
{
    v.push(PriorityItem::reading(PRIORITY_URGENT, kind, value));
}

/// What a temperature/humidity read publishes: both values, or its fault.
pub fn sht_list(o: SensorOutcome<ShtMeasurement>) -> (r: Vec<PriorityItem>)
    ensures
        r@ == sht_items(o),
{
    match o {
        SensorOutcome::Measured(m) => {
            let mut r: Vec<PriorityItem> = Vec::new();
            push_urgent(&mut r, ReadingKind::Temperature, m.temperature);
            push_urgent(&mut r, ReadingKind::Humidity, m.humidity);
            proof {
                assert(r@ =~= sht_items(o));
            }
            r
        },
        _ => failure_list(Device::Sht31, &o),
    }
}

/// What a pressure/gas read publishes: both values, or its fault.
pub fn bme_list(o: SensorOutcome<BmeMeasurement>) -> (r: Vec<PriorityItem>)
    ensures
        r@ == bme_items(o),
{
    match o {
        SensorOutcome::Measured(m) => {
            let mut r: Vec<PriorityItem> = Vec::new();
            push_urgent(&mut r, ReadingKind::GasResistance, m.gas_resistance);
            push_urgent(&mut r, ReadingKind::Pressure, m.pressure);
            proof {
                assert(r@ =~= bme_items(o));
            }
            r
        },
        _ => failure_list(Device::Bme680, &o),
    }
}

/// What a CO2 read publishes: the value, or its fault.
pub fn mhz_list(o: SensorOutcome<MhzMeasurement>) -> (r: Vec<PriorityItem>)
    ensures
        r@ == mhz_items(o),
{
    match o {
        SensorOutcome::Measured(m) => {
            let mut r: Vec<PriorityItem> = Vec::new();
            push_urgent(&mut r, ReadingKind::Co2, m.co2);
            proof {
                assert(r@ =~= mhz_items(o));
            }
            r
        },
        _ => failure_list(Device::Mhz14, &o),
    }
}

/// What a particulate read publishes: the ten values, or its fault.
pub fn sps_list(o: SensorOutcome<SpsMeasurement>) -> (r: Vec<PriorityItem>)
    ensures
        r@ == sps_items(o),
{
    match o {
        SensorOutcome::Measured(m) => {
            let mut r: Vec<PriorityItem> = Vec::new();
            push_urgent(&mut r, ReadingKind::MassPm1p0, m.mass_pm1_0);
            push_urgent(&mut r, ReadingKind::MassPm2p5, m.mass_pm2_5);
            push_urgent(&mut r, ReadingKind::MassPm4p0, m.mass_pm4_0);
            push_urgent(&mut r, ReadingKind::MassPm10, m.mass_pm10);
            push_urgent(&mut r, ReadingKind::MassPm0p5, m.mass_pm0_5);
            push_urgent(&mut r, ReadingKind::NumberPm1p0, m.number_pm1_0);
            push_urgent(&mut r, ReadingKind::NumberPm2p5, m.number_pm2_5);
            push_urgent(&mut r, ReadingKind::NumberPm4p0, m.number_pm4_0);
            push_urgent(&mut r, ReadingKind::NumberPm10, m.number_pm10);
            push_urgent(&mut r, ReadingKind::TypicalParticleSize, m.typical_particle_size);
            proof {
                assert(r@ =~= sps_items(o));
            }
            r
        },
        _ => failure_list(Device::Sps30, &o),
    }
}

/// Publishes what a temperature/humidity read gave; returns how many items
/// the channel accepted.
pub fn publish_sht_result(o: SensorOutcome<ShtMeasurement>, publish: &mut Channel) -> (r: usize)
    requires
        old(publish).wf(),
    ensures
        final(publish).wf(),
        final(publish).keys() == after_publish(old(publish).keys(), sht_items(o)),
        r == accepted(old(publish).spec_len(), sht_items(o).len()),
{
    publish.publish_all(&sht_list(o))
}

/// Publishes what a pressure/gas read gave; returns how many items the
/// channel accepted.
pub fn publish_bme_result(o: SensorOutcome<BmeMeasurement>, publish: &mut Channel) -> (r: usize)
    requires
        old(publish).wf(),
    ensures
        final(publish).wf(),
        final(publish).keys() == after_publish(old(publish).keys(), bme_items(o)),
        r == accepted(old(publish).spec_len(), bme_items(o).len()),
{
    publish.publish_all(&bme_list(o))
}

/// Publishes what a CO2 read gave; returns how many items the channel
/// accepted.
pub fn publish_mhz_result(o: SensorOutcome<MhzMeasurement>, publish: &mut Channel) -> (r: usize)
    requires
        old(publish).wf(),
    ensures
        final(publish).wf(),
        final(publish).keys() == after_publish(old(publish).keys(), mhz_items(o)),
        r == accepted(old(publish).spec_len(), mhz_items(o).len()),
{
    publish.publish_all(&mhz_list(o))
}

/// Publishes what a particulate read gave; returns how many items the
/// channel accepted.
pub fn publish_sps_result(o: SensorOutcome<SpsMeasurement>, publish: &mut Channel) -> (r: usize)
    requires
        old(publish).wf(),
    ensures
        final(publish).wf(),
        final(publish).keys() == after_publish(old(publish).keys(), sps_items(o)),
        r == accepted(old(publish).spec_len(), sps_items(o).len()),
{
    publish.publish_all(&sps_list(o))
}

/// What a failed trigger of the temperature sensor publishes.
pub open spec fn trigger_items(failure: Option<u16>) -> Seq<PriorityItem> {
    match failure {
        Some(c) => seq![PriorityItem::spec_fault(Device::Sht31, FaultClass::RunningFault, c)],
        None => seq![],
    }
}

/// Publishes a running fault when triggering the temperature sensor failed
/// with `failure`; the cycle goes on either way.
pub fn publish_trigger_result(failure: Option<u16>, publish: &mut Channel)
    requires
        old(publish).wf(),
    ensures
        final(publish).wf(),
        final(publish).keys() == after_publish(old(publish).keys(), trigger_items(failure)),
{
    let mut v: Vec<PriorityItem> = Vec::new();
    if let Some(c) = failure {
        v.push(PriorityItem::fault(Device::Sht31, FaultClass::RunningFault, c));
    }
    proof {
        assert(v@ =~= trigger_items(failure));
    }
    publish.publish_all(&v);
}

pub open spec fn measured<M>(o: SensorOutcome<M>) -> bool {
    o is Measured
}

/// Publishes the results of one cycle in sensor order (pressure/gas,
/// temperature/humidity, CO2, particulates) and records the two bus
/// sensors' outcomes in `busses`. Fails when every bus is then faulted:
/// acquisition is lost.
pub fn publish_slow_results(
    bme: SensorOutcome<BmeMeasurement>,
    sht: SensorOutcome<ShtMeasurement>,
    mhz: SensorOutcome<MhzMeasurement>,
    sps: SensorOutcome<SpsMeasurement>,
    publish: &mut Channel,
    busses: &mut BussErrTracker,
) -> (r: Result<(), UnrecoverableError>)
    requires
        old(publish).wf(),
        old(busses).wf(),
    ensures
        final(publish).wf(),
        final(publish).keys() == after_publish(
            after_publish(
                after_publish(after_publish(old(publish).keys(), bme_items(bme)), sht_items(sht)),
                mhz_items(mhz),
            ),
            sps_items(sps),
        ),
        final(busses).wf(),
        final(busses).faulted(BussErrId::Bme) == !measured(bme),
        final(busses).faulted(BussErrId::Sht) == !measured(sht),
        final(busses).faulted(BussErrId::Max) == old(busses).faulted(BussErrId::Max),
        r is Ok <==> !final(busses).all_faulted(),
        r is Err ==> r == Err::<(), UnrecoverableError>(UnrecoverableError::AllBussesFaulted),
{
    let bme_ok = match bme {
        SensorOutcome::Measured(_) => true,
        _ => false,
    };
    let sht_ok = match sht {
        SensorOutcome::Measured(_) => true,
        _ => false,
    };
    publish_bme_result(bme, publish);
    publish_sht_result(sht, publish);
    publish_mhz_result(mhz, publish);
    publish_sps_result(sps, publish);
    busses.record(BussErrId::Bme, bme_ok);
    let lost = busses.record(BussErrId::Sht, sht_ok);
    if lost {
        Err(UnrecoverableError::AllBussesFaulted)
    } else {
        Ok(())
    }
}

} // verus!
