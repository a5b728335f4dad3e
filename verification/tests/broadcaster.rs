use source_mirror::{Broadcaster, Event};
use tokio::sync::broadcast::error::TryRecvError;
use tokio::sync::broadcast::channel;

#[test]
fn publishing_to_nobody_loses_the_event() {
    let (tx, rx) = channel::<Event>(4);
    let handle = tx.clone();
    drop(rx);
    let mut broadcaster = Broadcaster::new(tx);
    assert_eq!(broadcaster.publish(Event::RemoveOutput(1)), 0);

    // A consumer that subscribes afterwards sees what follows, not what was.
    let mut late = handle.subscribe();
    assert_eq!(late.try_recv(), Err(TryRecvError::Empty));
    assert_eq!(broadcaster.publish(Event::RemoveOutput(2)), 1);
    assert_eq!(late.try_recv(), Ok(Event::RemoveOutput(2)));
}

#[test]
fn every_consumer_gets_every_event_in_order() {
    let (tx, mut first) = channel::<Event>(4);
    let mut second = tx.subscribe();
    let mut broadcaster = Broadcaster::new(tx);
    assert_eq!(broadcaster.publish(Event::RemoveOutput(1)), 2);
    assert_eq!(broadcaster.publish(Event::RemoveSource(String::from("mic"))), 2);
    for rx in [&mut first, &mut second] {
        assert_eq!(rx.try_recv(), Ok(Event::RemoveOutput(1)));
        assert_eq!(rx.try_recv(), Ok(Event::RemoveSource(String::from("mic"))));
        assert_eq!(rx.try_recv(), Err(TryRecvError::Empty));
    }
}

#[test]
fn a_consumer_that_falls_behind_misses_events() {
    let (tx, mut slow) = channel::<Event>(2);
    let mut broadcaster = Broadcaster::new(tx);
    for index in 0..5 {
        assert_eq!(broadcaster.publish(Event::RemoveOutput(index)), 1);
    }
    assert_eq!(slow.try_recv(), Err(TryRecvError::Lagged(3)));
    assert_eq!(slow.try_recv(), Ok(Event::RemoveOutput(3)));
    assert_eq!(slow.try_recv(), Ok(Event::RemoveOutput(4)));
    assert_eq!(slow.try_recv(), Err(TryRecvError::Empty));
}

#[test]
fn an_event_is_its_own_copy() {
    let event = Event::RemoveSource(String::from("mic"));
    let copy = event.clone();
    assert_eq!(copy, event);
    assert_ne!(copy, Event::RemoveSource(String::from("line-in")));
    assert_ne!(copy, Event::RemoveOutput(0));
}
