use large_bedroom::channel::{Channel, CAPACITY};
use large_bedroom::item::{
    Device, FaultClass, Payload, PriorityItem, ReadingKind, UnrecoverableError, PRIORITY_EVENT,
    PRIORITY_ROUTINE, PRIORITY_URGENT,
};

fn brightness(priority: u8, value: i64) -> PriorityItem {
    PriorityItem::reading(priority, ReadingKind::Brightness, value)
}

#[test]
fn more_urgent_received_first_whatever_the_arrival_order() {
    let mut ch = Channel::new();
    let low = brightness(PRIORITY_EVENT, 10);
    let high = PriorityItem::fault(Device::Sht31, FaultClass::RunningFault, 3);
    assert!(ch.try_publish(low));
    assert!(ch.try_publish(high));
    assert_eq!(ch.try_receive(), Some(high));
    assert_eq!(ch.try_receive(), Some(low));
    assert_eq!(ch.try_receive(), None);

    let mut ch = Channel::new();
    assert!(ch.try_publish(high));
    assert!(ch.try_publish(low));
    assert_eq!(ch.try_receive(), Some(high));
    assert_eq!(ch.try_receive(), Some(low));
}

#[test]
fn three_levels_come_out_by_urgency() {
    let mut ch = Channel::new();
    let a = brightness(PRIORITY_EVENT, 1);
    let b = brightness(PRIORITY_ROUTINE, 2);
    let c = brightness(PRIORITY_URGENT, 3);
    assert!(ch.try_publish(a));
    assert!(ch.try_publish(b));
    assert!(ch.try_publish(c));
    assert_eq!(ch.len(), 3);
    assert_eq!(ch.try_receive(), Some(c));
    assert_eq!(ch.try_receive(), Some(b));
    assert_eq!(ch.try_receive(), Some(a));
    assert_eq!(ch.len(), 0);
}

#[test]
fn full_channel_drops_the_newest() {
    let mut ch = Channel::new();
    for i in 0..CAPACITY {
        assert!(ch.try_publish(brightness(PRIORITY_EVENT, i as i64)));
    }
    assert_eq!(ch.len(), CAPACITY);
    let critical = PriorityItem::critical(UnrecoverableError::AllBussesFaulted);
    assert!(!ch.try_publish(critical));
    assert_eq!(ch.len(), CAPACITY);
    let mut seen = 0;
    while let Some(item) = ch.try_receive() {
        assert_ne!(item, critical);
        seen += 1;
    }
    assert_eq!(seen, CAPACITY);
}

#[test]
fn publish_all_accepts_a_prefix() {
    let mut ch = Channel::new();
    for i in 0..(CAPACITY - 2) {
        assert!(ch.try_publish(brightness(PRIORITY_EVENT, i as i64)));
    }
    let items = vec![
        brightness(PRIORITY_URGENT, 100),
        brightness(PRIORITY_URGENT, 101),
        brightness(PRIORITY_URGENT, 102),
    ];
    assert_eq!(ch.publish_all(&items), 2);
    assert_eq!(ch.try_receive().map(|i| i.priority), Some(PRIORITY_URGENT));
    assert_eq!(ch.try_receive().map(|i| i.priority), Some(PRIORITY_URGENT));
    assert_eq!(ch.try_receive().map(|i| i.priority), Some(PRIORITY_EVENT));
}

#[test]
fn every_payload_survives_the_channel() {
    let items = vec![
        PriorityItem::reading(PRIORITY_ROUTINE, ReadingKind::Temperature, -12_345),
        PriorityItem::reading(
            PRIORITY_EVENT,
            ReadingKind::ButtonPress(large_bedroom::item::ButtonId::LowerOuter),
            65_535,
        ),
        PriorityItem::fault(Device::Sps30, FaultClass::ReadTimeout, 0),
        PriorityItem::critical(UnrecoverableError::SetupFailed(Device::Bme680, 7)),
        PriorityItem::critical(UnrecoverableError::SetupTimedOut(Device::Max44)),
    ];
    for item in items {
        let mut ch = Channel::new();
        assert!(ch.try_publish(item));
        assert_eq!(ch.try_receive(), Some(item));
        assert_eq!(PriorityItem::from_key(item.key()), Some(item));
    }
}

#[test]
fn keys_that_stand_for_nothing_are_refused() {
    assert_eq!(PriorityItem::from_key((0, 3, 0, 0, 0)), None);
    assert_eq!(PriorityItem::from_key((0, 0, 17, 0, 0)), None);
    assert_eq!(PriorityItem::from_key((0, 1, 5, 0, 0)), None);
    assert_eq!(PriorityItem::from_key((0, 1, 0, 0, 70_000)), None);
    let k = PriorityItem::reading(1, ReadingKind::Co2, 415).key();
    assert_eq!(k, (1, 0, 5, 0, 415));
    match PriorityItem::from_key(k).map(|i| i.payload) {
        Some(Payload::Reading(r)) => assert_eq!(r.value, 415),
        other => panic!("unexpected {:?}", other),
    }
}
