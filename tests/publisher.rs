use large_bedroom::batch::{BatchStep, Batcher, WINDOW_US};
use large_bedroom::item::{Device, FaultClass, PriorityItem, ReadingKind, PRIORITY_EVENT};
use large_bedroom::link::{Link, LinkAction, LinkEvent, BACKOFF_MS};

fn low(v: i64) -> PriorityItem {
    PriorityItem::reading(PRIORITY_EVENT, ReadingKind::Brightness, v)
}

fn urgent(c: u16) -> PriorityItem {
    PriorityItem::fault(Device::Mhz14, FaultClass::RunningFault, c)
}

#[test]
fn urgent_item_closes_the_window_early() {
    let mut b = Batcher::new();
    assert!(matches!(b.first_step(), BatchStep::Receive));
    let s = b.on_item(low(1), 1_000);
    assert!(matches!(s, BatchStep::ReceiveWithin(t) if t == WINDOW_US));
    match b.on_item(urgent(9), 51_000) {
        BatchStep::Flush(batch) => assert_eq!(batch, vec![low(1).payload, urgent(9).payload]),
        other => panic!("unexpected {:?}", other),
    }
    assert!(matches!(b.on_nothing(), BatchStep::Receive));
}

#[test]
fn low_burst_flushes_at_the_window_end() {
    let mut b = Batcher::new();
    assert!(matches!(b.on_item(low(1), 10_000), BatchStep::ReceiveWithin(200_000)));
    assert!(matches!(b.on_item(low(2), 60_000), BatchStep::ReceiveWithin(150_000)));
    assert!(matches!(b.on_item(low(3), 200_000), BatchStep::ReceiveWithin(10_000)));
    match b.on_nothing() {
        BatchStep::Flush(batch) => {
            assert_eq!(batch, vec![low(1).payload, low(2).payload, low(3).payload])
        }
        other => panic!("unexpected {:?}", other),
    }
}

#[test]
fn low_item_at_the_deadline_ends_the_window() {
    let mut b = Batcher::new();
    b.on_item(low(1), 0);
    match b.on_item(low(2), WINDOW_US) {
        BatchStep::Flush(batch) => assert_eq!(batch.len(), 2),
        other => panic!("unexpected {:?}", other),
    }
}

#[test]
fn batch_stops_at_capacity() {
    let mut b = Batcher::new();
    for i in 0..5 {
        assert!(matches!(b.on_item(low(i), 1_000 + i as u64), BatchStep::ReceiveWithin(_)));
    }
    match b.on_item(low(5), 2_000) {
        BatchStep::Flush(batch) => assert_eq!(batch.len(), 6),
        other => panic!("unexpected {:?}", other),
    }
}

#[test]
fn single_urgent_item_goes_out_alone_without_waiting() {
    let mut b = Batcher::new();
    assert!(matches!(b.on_item(urgent(1), 5), BatchStep::TryReceive));
    match b.on_nothing() {
        BatchStep::Flush(batch) => assert_eq!(batch, vec![urgent(1).payload]),
        other => panic!("unexpected {:?}", other),
    }
}

#[test]
fn urgent_batch_drains_what_is_queued() {
    let mut b = Batcher::new();
    assert!(matches!(b.on_item(urgent(1), 5), BatchStep::TryReceive));
    assert!(matches!(b.on_item(low(2), 6), BatchStep::TryReceive));
    match b.on_nothing() {
        BatchStep::Flush(batch) => assert_eq!(batch, vec![urgent(1).payload, low(2).payload]),
        other => panic!("unexpected {:?}", other),
    }
}

#[test]
fn reconnect_retries_after_each_failure() {
    let mut link = Link::new();
    assert_eq!(link.action(), LinkAction::Connect);
    for _ in 0..50 {
        assert_eq!(link.step(LinkEvent::ConnectFailed), LinkAction::Wait(BACKOFF_MS));
        assert_eq!(link.step(LinkEvent::BackoffElapsed), LinkAction::Connect);
    }
    assert_eq!(link.step(LinkEvent::Connected), LinkAction::Serve);
    assert_eq!(link.step(LinkEvent::Sent), LinkAction::Serve);
}

#[test]
fn failed_write_resets_the_connection() {
    let mut link = Link::new();
    link.step(LinkEvent::Connected);
    assert_eq!(link.step(LinkEvent::SendFailed), LinkAction::Reset);
    assert_eq!(link.step(LinkEvent::ConnectFailed), LinkAction::Wait(1_000));
    assert_eq!(link.step(LinkEvent::BackoffElapsed), LinkAction::Connect);
    assert_eq!(link.step(LinkEvent::Connected), LinkAction::Serve);
    assert_eq!(link.step(LinkEvent::Closed), LinkAction::Connect);
    assert_eq!(link.step(LinkEvent::Sent), LinkAction::Connect);
}
