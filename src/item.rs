//! What the sensing node publishes: readings, fault events and critical
//! events, each with an urgency level, and the integer key under which an item
//! travels through the priority channel.
use vstd::prelude::*;

verus! {

/// The physical buttons a press event can come from.
#[derive(Clone, Copy, Debug, PartialEq, Eq, Structural)]
pub enum ButtonId {
    TopLeft,
    TopRight,
    MiddleInner,
    MiddleCenter,
    MiddleOuter,
    LowerInner,
    LowerCenter,
    LowerOuter,
}

/// What a reading measures. Values are carried in thousandths of the
/// quantity's unit (lux, degrees Celsius, percent, hectopascal, ohm, microgram per
/// cubic metre, count per cubic centimetre, micrometre); a CO2 reading is in
/// ppm and a button press in milliseconds.
#[derive(Clone, Copy, Debug, PartialEq, Eq, Structural)]
pub enum ReadingKind {
    Brightness,
    Temperature,
    Humidity,
    Pressure,
    GasResistance,
    Co2,
    MassPm0p5,
    MassPm1p0,
    MassPm2p5,
    MassPm4p0,
    MassPm10,
    NumberPm1p0,
    NumberPm2p5,
    NumberPm4p0,
    NumberPm10,
    TypicalParticleSize,
    ButtonPress(ButtonId),
}

/// One decoded measurement.
#[derive(Clone, Copy, Debug, PartialEq, Eq, Structural)]
pub struct Reading {
    pub kind: ReadingKind,
    pub value: i64,
}

/// The sensor devices of the node.
#[derive(Clone, Copy, Debug, PartialEq, Eq, Structural)]
pub enum Device {
    Bme680,
    Max44,
    Sht31,
    Mhz14,
    Sps30,
}

/// How a device failed.
#[derive(Clone, Copy, Debug, PartialEq, Eq, Structural)]
pub enum FaultClass {
    SetupTimeout,
    SetupFailure,
    RunningFault,
    ReadTimeout,
}

/// A fault of one device; `cause` is the driver's error code (0 where the
/// fault has none, as for a timeout).
#[derive(Clone, Copy, Debug, PartialEq, Eq, Structural)]
pub struct ErrorEvent {
    pub device: Device,
    pub class: FaultClass,
    pub cause: u16,
}

/// An error that ends the measurement pipeline.
#[derive(Clone, Copy, Debug, PartialEq, Eq, Structural)]
pub enum UnrecoverableError {
    SetupTimedOut(Device),
    SetupFailed(Device, u16),
    AllBussesFaulted,
}

/// What an item carries.
#[derive(Clone, Copy, Debug, PartialEq, Eq, Structural)]
pub enum Payload {
    Reading(Reading),
    Fault(ErrorEvent),
    Critical(UnrecoverableError),
}

/// A payload with its urgency: 0 is the most urgent.
#[derive(Clone, Copy, Debug, PartialEq, Eq, Structural)]
pub struct PriorityItem {
    pub priority: u8,
    pub payload: Payload,
}

/// Urgency of faults, critical events and slow-sensor readings.
pub const PRIORITY_URGENT: u8 = 0;

/// Urgency of a periodic brightness report.
pub const PRIORITY_ROUTINE: u8 = 1;

/// Urgency of a brightness change or a button press.
pub const PRIORITY_EVENT: u8 = 2;

/// Items at or above this value are low priority: the publisher coalesces them.
pub const LOW_PRIORITY_FROM: u8 = 2;

impl PriorityItem {
    pub open spec fn spec_is_low(&self) -> bool {
        self.priority >= LOW_PRIORITY_FROM
    }

    /// Whether the publisher may hold this item back to batch it with others.
    pub fn is_low(&self) -> (r: bool)
        ensures
            r == self.spec_is_low(),
    {
        self.priority >= LOW_PRIORITY_FROM
    }

    pub fn reading(priority: u8, kind: ReadingKind, value: i64) -> (r: Self)
        ensures
            r == (PriorityItem { priority, payload: Payload::Reading(Reading { kind, value }) }),
    {
        PriorityItem { priority, payload: Payload::Reading(Reading { kind, value }) }
    }

    pub open spec fn spec_fault(device: Device, class: FaultClass, cause: u16) -> Self {
        PriorityItem {
            priority: PRIORITY_URGENT,
            payload: Payload::Fault(ErrorEvent { device, class, cause }),
        }
    }

    /// A fault event, at the most urgent level.
    pub fn fault(device: Device, class: FaultClass, cause: u16) -> (r: Self)
        ensures
            r == Self::spec_fault(device, class, cause),
    {
        PriorityItem {
            priority: PRIORITY_URGENT,
            payload: Payload::Fault(ErrorEvent { device, class, cause }),
        }
    }

    pub open spec fn spec_critical(err: UnrecoverableError) -> Self {
        PriorityItem { priority: PRIORITY_URGENT, payload: Payload::Critical(err) }
    }

    /// A critical event, at the most urgent level.
    pub fn critical(err: UnrecoverableError) -> (r: Self)
        ensures
            r == Self::spec_critical(err),
    {
        PriorityItem { priority: PRIORITY_URGENT, payload: Payload::Critical(err) }
    }
}

/// The key an item travels under: urgency, variant, two sub-codes and a value.
/// Keys order by urgency first, so a queue ordered by key serves the most
/// urgent item first.
pub type ItemKey = (u8, u8, u8, u8, i64);

pub open spec fn button_code(b: ButtonId) -> u8 {
    match b {
        ButtonId::TopLeft => 0,
        ButtonId::TopRight => 1,
        ButtonId::MiddleInner => 2,
        ButtonId::MiddleCenter => 3,
        ButtonId::MiddleOuter => 4,
        ButtonId::LowerInner => 5,
        ButtonId::LowerCenter => 6,
        ButtonId::LowerOuter => 7,
    }
}

pub open spec fn button_of(c: u8) -> Option<ButtonId> {
    match c {
        0 => Some(ButtonId::TopLeft),
        1 => Some(ButtonId::TopRight),
        2 => Some(ButtonId::MiddleInner),
        3 => Some(ButtonId::MiddleCenter),
        4 => Some(ButtonId::MiddleOuter),
        5 => Some(ButtonId::LowerInner),
        6 => Some(ButtonId::LowerCenter),
        7 => Some(ButtonId::LowerOuter),
        _ => None,
    }
}

/// Kind code and sub-code of a reading kind.
pub open spec fn kind_code(k: ReadingKind) -> (u8, u8) {
    match k {
        ReadingKind::Brightness => (0, 0),
        ReadingKind::Temperature => (1, 0),
        ReadingKind::Humidity => (2, 0),
        ReadingKind::Pressure => (3, 0),
        ReadingKind::GasResistance => (4, 0),
        ReadingKind::Co2 => (5, 0),
        ReadingKind::MassPm0p5 => (6, 0),
        ReadingKind::MassPm1p0 => (7, 0),
        ReadingKind::MassPm2p5 => (8, 0),
        ReadingKind::MassPm4p0 => (9, 0),
        ReadingKind::MassPm10 => (10, 0),
        ReadingKind::NumberPm1p0 => (11, 0),
        ReadingKind::NumberPm2p5 => (12, 0),
        ReadingKind::NumberPm4p0 => (13, 0),
        ReadingKind::NumberPm10 => (14, 0),
        ReadingKind::TypicalParticleSize => (15, 0),
        ReadingKind::ButtonPress(b) => (16, button_code(b)),
    }
}

pub open spec fn kind_of(a: u8, b: u8) -> Option<ReadingKind> {
    match a {
        0 => if b == 0 { Some(ReadingKind::Brightness) } else { None },
        1 => if b == 0 { Some(ReadingKind::Temperature) } else { None },
        2 => if b == 0 { Some(ReadingKind::Humidity) } else { None },
        3 => if b == 0 { Some(ReadingKind::Pressure) } else { None },
        4 => if b == 0 { Some(ReadingKind::GasResistance) } else { None },
        5 => if b == 0 { Some(ReadingKind::Co2) } else { None },
        6 => if b == 0 { Some(ReadingKind::MassPm0p5) } else { None },
        7 => if b == 0 { Some(ReadingKind::MassPm1p0) } else { None },
        8 => if b == 0 { Some(ReadingKind::MassPm2p5) } else { None },
        9 => if b == 0 { Some(ReadingKind::MassPm4p0) } else { None },
        10 => if b == 0 { Some(ReadingKind::MassPm10) } else { None },
        11 => if b == 0 { Some(ReadingKind::NumberPm1p0) } else { None },
        12 => if b == 0 { Some(ReadingKind::NumberPm2p5) } else { None },
        13 => if b == 0 { Some(ReadingKind::NumberPm4p0) } else { None },
        14 => if b == 0 { Some(ReadingKind::NumberPm10) } else { None },
        15 => if b == 0 { Some(ReadingKind::TypicalParticleSize) } else { None },
        16 => match button_of(b) {
            Some(btn) => Some(ReadingKind::ButtonPress(btn)),
            None => None,
        },
        _ => None,
    }
}

pub open spec fn device_code(d: Device) -> u8 {
    match d {
        Device::Bme680 => 0,
        Device::Max44 => 1,
        Device::Sht31 => 2,
        Device::Mhz14 => 3,
        Device::Sps30 => 4,
    }
}

pub open spec fn device_of(c: u8) -> Option<Device> {
    match c {
        0 => Some(Device::Bme680),
        1 => Some(Device::Max44),
        2 => Some(Device::Sht31),
        3 => Some(Device::Mhz14),
        4 => Some(Device::Sps30),
        _ => None,
    }
}

pub open spec fn class_code(c: FaultClass) -> u8 {
    match c {
        FaultClass::SetupTimeout => 0,
        FaultClass::SetupFailure => 1,
        FaultClass::RunningFault => 2,
        FaultClass::ReadTimeout => 3,
    }
}

pub open spec fn class_of(c: u8) -> Option<FaultClass> {
    match c {
        0 => Some(FaultClass::SetupTimeout),
        1 => Some(FaultClass::SetupFailure),
        2 => Some(FaultClass::RunningFault),
        3 => Some(FaultClass::ReadTimeout),
        _ => None,
    }
}

/// Sub-codes and value of an unrecoverable error.
pub open spec fn critical_code(e: UnrecoverableError) -> (u8, u8, i64) {
    match e {
        UnrecoverableError::SetupTimedOut(d) => (0, device_code(d), 0),
        UnrecoverableError::SetupFailed(d, cause) => (1, device_code(d), cause as i64),
        UnrecoverableError::AllBussesFaulted => (2, 0, 0),
    }
}

pub open spec fn critical_of(a: u8, b: u8, v: i64) -> Option<UnrecoverableError> {
    if a == 0 && v == 0 {
        match device_of(b) {
            Some(d) => Some(UnrecoverableError::SetupTimedOut(d)),
            None => None,
        }
    } else if a == 1 && 0 <= v <= u16::MAX {
        match device_of(b) {
            Some(d) => Some(UnrecoverableError::SetupFailed(d, v as u16)),
            None => None,
        }
    } else if a == 2 && b == 0 && v == 0 {
        Some(UnrecoverableError::AllBussesFaulted)
    } else {
        None
    }
}

/// The key of an item.
pub open spec fn key_of(i: PriorityItem) -> ItemKey {
    match i.payload {
        Payload::Reading(r) => (i.priority, 0, kind_code(r.kind).0, kind_code(r.kind).1, r.value),
        Payload::Fault(e) => (
            i.priority,
            1,
            device_code(e.device),
            class_code(e.class),
            e.cause as i64,
        ),
        Payload::Critical(e) => (
            i.priority,
            2,
            critical_code(e).0,
            critical_code(e).1,
            critical_code(e).2,
        ),
    }
}

/// The item a key stands for, if it stands for one.
pub open spec fn item_of(k: ItemKey) -> Option<PriorityItem> {
    let (p, tag, a, b, v) = k;
    if tag == 0 {
        match kind_of(a, b) {
            Some(kind) => Some(
                PriorityItem { priority: p, payload: Payload::Reading(Reading { kind, value: v }) },
            ),
            None => None,
        }
    } else if tag == 1 {
        match (device_of(a), class_of(b)) {
            (Some(device), Some(class)) => if 0 <= v <= u16::MAX {
                Some(
                    PriorityItem {
                        priority: p,
                        payload: Payload::Fault(ErrorEvent { device, class, cause: v as u16 }),
                    },
                )
            } else {
                None
            },
            _ => None,
        }
    } else if tag == 2 {
        match critical_of(a, b, v) {
            Some(e) => Some(PriorityItem { priority: p, payload: Payload::Critical(e) }),
            None => None,
        }
    } else {
        None
    }
}

/// Every item has a key, and the key gives the item back.
pub proof fn lemma_key_round_trip(i: PriorityItem)
    ensures
        item_of(key_of(i)) == Some(i),
        key_of(i).0 == i.priority,
{
    match i.payload {
        Payload::Reading(r) => {
            match r.kind {
                ReadingKind::ButtonPress(b) => {},
                _ => {},
            }
        },
        Payload::Fault(e) => {},
        Payload::Critical(e) => {},
    }
}

/// Each key that stands for an item is that item's key.
pub proof fn lemma_key_unique(k: ItemKey)
    requires
        item_of(k) is Some,
    ensures
        key_of(item_of(k)->Some_0) == k,
{
}

fn button_code_exec(b: ButtonId) -> (r: u8)
    ensures
        r == button_code(b),
{
    match b {
        ButtonId::TopLeft => 0,
        ButtonId::TopRight => 1,
        ButtonId::MiddleInner => 2,
        ButtonId::MiddleCenter => 3,
        ButtonId::MiddleOuter => 4,
        ButtonId::LowerInner => 5,
        ButtonId::LowerCenter => 6,
        ButtonId::LowerOuter => 7,
    }
}

fn button_of_exec(c: u8) -> (r: Option<ButtonId>)
    ensures
        r == button_of(c),
{
    match c {
        0 => Some(ButtonId::TopLeft),
        1 => Some(ButtonId::TopRight),
        2 => Some(ButtonId::MiddleInner),
        3 => Some(ButtonId::MiddleCenter),
        4 => Some(ButtonId::MiddleOuter),
        5 => Some(ButtonId::LowerInner),
        6 => Some(ButtonId::LowerCenter),
        7 => Some(ButtonId::LowerOuter),
        _ => None,
    }
}

fn kind_code_exec(k: ReadingKind) -> (r: (u8, u8))
    ensures
        r == kind_code(k),
{
    match k {
        ReadingKind::Brightness => (0, 0),
        ReadingKind::Temperature => (1, 0),
        ReadingKind::Humidity => (2, 0),
        ReadingKind::Pressure => (3, 0),
        ReadingKind::GasResistance => (4, 0),
        ReadingKind::Co2 => (5, 0),
        ReadingKind::MassPm0p5 => (6, 0),
        ReadingKind::MassPm1p0 => (7, 0),
        ReadingKind::MassPm2p5 => (8, 0),
        ReadingKind::MassPm4p0 => (9, 0),
        ReadingKind::MassPm10 => (10, 0),
        ReadingKind::NumberPm1p0 => (11, 0),
        ReadingKind::NumberPm2p5 => (12, 0),
        ReadingKind::NumberPm4p0 => (13, 0),
        ReadingKind::NumberPm10 => (14, 0),
        ReadingKind::TypicalParticleSize => (15, 0),
        ReadingKind::ButtonPress(b) => (16, button_code_exec(b)),
    }
}

fn kind_of_exec(a: u8, b: u8) -> (r: Option<ReadingKind>)
    ensures
        r == kind_of(a, b),
{
    if a == 16 {
        match button_of_exec(b) {
            Some(btn) => Some(ReadingKind::ButtonPress(btn)),
            None => None,
        }
    } else if b != 0 {
        None
    } else {
        match a {
            0 => Some(ReadingKind::Brightness),
            1 => Some(ReadingKind::Temperature),
            2 => Some(ReadingKind::Humidity),
            3 => Some(ReadingKind::Pressure),
            4 => Some(ReadingKind::GasResistance),
            5 => Some(ReadingKind::Co2),
            6 => Some(ReadingKind::MassPm0p5),
            7 => Some(ReadingKind::MassPm1p0),
            8 => Some(ReadingKind::MassPm2p5),
            9 => Some(ReadingKind::MassPm4p0),
            10 => Some(ReadingKind::MassPm10),
            11 => Some(ReadingKind::NumberPm1p0),
            12 => Some(ReadingKind::NumberPm2p5),
            13 => Some(ReadingKind::NumberPm4p0),
            14 => Some(ReadingKind::NumberPm10),
            15 => Some(ReadingKind::TypicalParticleSize),
            _ => None,
        }
    }
}

fn device_code_exec(d: Device) -> (r: u8)
    ensures
        r == device_code(d),
{
    match d {
        Device::Bme680 => 0,
        Device::Max44 => 1,
        Device::Sht31 => 2,
        Device::Mhz14 => 3,
        Device::Sps30 => 4,
    }
}

fn device_of_exec(c: u8) -> (r: Option<Device>)
    ensures
        r == device_of(c),
{
    match c {
        0 => Some(Device::Bme680),
        1 => Some(Device::Max44),
        2 => Some(Device::Sht31),
        3 => Some(Device::Mhz14),
        4 => Some(Device::Sps30),
        _ => None,
    }
}

fn class_code_exec(c: FaultClass) -> (r: u8)
    ensures
        r == class_code(c),
{
    match c {
        FaultClass::SetupTimeout => 0,
        FaultClass::SetupFailure => 1,
        FaultClass::RunningFault => 2,
        FaultClass::ReadTimeout => 3,
    }
}

fn class_of_exec(c: u8) -> (r: Option<FaultClass>)
    ensures
        r == class_of(c),
{
    match c {
        0 => Some(FaultClass::SetupTimeout),
        1 => Some(FaultClass::SetupFailure),
        2 => Some(FaultClass::RunningFault),
        3 => Some(FaultClass::ReadTimeout),
        _ => None,
    }
}

impl PriorityItem {
    /// The key this item travels under.
    pub fn key(&self) -> (r: ItemKey)
        ensures
            r == key_of(*self),
    {
        match self.payload {
            Payload::Reading(r) => {
                let (a, b) = kind_code_exec(r.kind);
                (self.priority, 0, a, b, r.value)
            },
            Payload::Fault(e) => (
                self.priority,
                1,
                device_code_exec(e.device),
                class_code_exec(e.class),
                e.cause as i64,
            ),
            Payload::Critical(UnrecoverableError::SetupTimedOut(d)) => (
                self.priority,
                2,
                0,
                device_code_exec(d),
                0,
            ),
            Payload::Critical(UnrecoverableError::SetupFailed(d, cause)) => (
                self.priority,
                2,
                1,
                device_code_exec(d),
                cause as i64,
            ),
            Payload::Critical(UnrecoverableError::AllBussesFaulted) => (self.priority, 2, 2, 0, 0),
        }
    }

    /// The item a key stands for, or `None` for a key that stands for none.
    pub fn from_key(k: ItemKey) -> (r: Option<Self>)
        ensures
            r == item_of(k),
    {
        let (p, tag, a, b, v) = k;
        if tag == 0 {
            match kind_of_exec(a, b) {
                Some(kind) => Some(
                    PriorityItem {
                        priority: p,
                        payload: Payload::Reading(Reading { kind, value: v }),
                    },
                ),
                None => None,
            }
        } else if tag == 1 {
            match (device_of_exec(a), class_of_exec(b)) {
                (Some(device), Some(class)) => if 0 <= v && v <= 0xffff {
                    Some(
                        PriorityItem {
                            priority: p,
                            payload: Payload::Fault(ErrorEvent { device, class, cause: v as u16 }),
                        },
                    )
                } else {
                    None
                },
                _ => None,
            }
        } else if tag == 2 {
            let e = if a == 0 && v == 0 {
                match device_of_exec(b) {
                    Some(d) => Some(UnrecoverableError::SetupTimedOut(d)),
                    None => None,
                }
            } else if a == 1 && 0 <= v && v <= 0xffff {
                match device_of_exec(b) {
                    Some(d) => Some(UnrecoverableError::SetupFailed(d, v as u16)),
                    None => None,
                }
            } else if a == 2 && b == 0 && v == 0 {
                Some(UnrecoverableError::AllBussesFaulted)
            } else {
                None
            };
            match e {
                Some(e) => Some(PriorityItem { priority: p, payload: Payload::Critical(e) }),
                None => None,
            }
        } else {
            None
        }
    }
}

} // verus!
