use darkfi_net::dispatch::{Delivery, MessageSubscription, MessageSubsystem, Publisher};
use darkfi_net::error::Error;

fn drain(subsystem: &mut MessageSubsystem, sub: MessageSubscription) -> Vec<Vec<u8>> {
    let mut got = Vec::new();
    loop {
        match subsystem.receive(sub) {
            Some(Delivery::Message(payload)) => got.push(payload),
            Some(Delivery::Failure(e)) => panic!("{:?}", e),
            None => return got,
        }
    }
}

#[test]
fn notify_without_dispatcher_is_missing_dispatcher() {
    let mut subsystem = MessageSubsystem::new();
    assert_eq!(subsystem.notify("ping", &[1]), Err(Error::MissingDispatcher));
    assert!(matches!(subsystem.subscribe("ping"), Err(Error::MissingDispatcher)));
    assert!(!subsystem.is_registered("ping"));
    subsystem.add_dispatch("ping");
    assert!(subsystem.is_registered("ping"));
    assert_eq!(subsystem.find("ping"), Some(0));
    assert_eq!(subsystem.notify("ping", &[1]), Ok(()));
    assert_eq!(subsystem.notify("pong", &[1]), Err(Error::MissingDispatcher));
}

#[test]
fn add_dispatch_twice_keeps_subscribers() {
    let mut subsystem = MessageSubsystem::new();
    subsystem.add_dispatch("ping");
    let sub = subsystem.subscribe("ping").unwrap();
    subsystem.add_dispatch("ping");
    subsystem.add_dispatch("pong");
    assert_eq!(subsystem.find("ping"), Some(0));
    assert_eq!(subsystem.find("pong"), Some(1));
    subsystem.notify("ping", &[7]).unwrap();
    assert_eq!(drain(&mut subsystem, sub), vec![vec![7]]);
}

#[test]
fn every_subscriber_gets_every_message_once_in_order() {
    let mut subsystem = MessageSubsystem::new();
    subsystem.add_dispatch("ping");
    subsystem.add_dispatch("pong");
    let early = subsystem.subscribe("ping").unwrap();
    subsystem.notify("ping", &[0]).unwrap();
    let subs: Vec<MessageSubscription> =
        (0..5).map(|_| subsystem.subscribe("ping").unwrap()).collect();
    let other = subsystem.subscribe("pong").unwrap();
    let messages: Vec<Vec<u8>> = (1..=20u8).map(|i| vec![i, i.wrapping_mul(3)]).collect();
    for m in &messages {
        subsystem.notify("ping", m).unwrap();
    }
    // taken in another order than they were registered in
    for sub in subs.iter().rev() {
        assert_eq!(drain(&mut subsystem, *sub), messages);
        assert!(subsystem.receive(*sub).is_none());
    }
    let mut with_first = vec![vec![0u8]];
    with_first.extend(messages.iter().cloned());
    assert_eq!(drain(&mut subsystem, early), with_first);
    assert!(drain(&mut subsystem, other).is_empty());
}

#[test]
fn unsubscribed_receives_nothing_more() {
    let mut subsystem = MessageSubsystem::new();
    subsystem.add_dispatch("ping");
    let a = subsystem.subscribe("ping").unwrap();
    let b = subsystem.subscribe("ping").unwrap();
    subsystem.notify("ping", &[1]).unwrap();
    subsystem.unsubscribe(a);
    subsystem.notify("ping", &[2]).unwrap();
    assert_eq!(drain(&mut subsystem, a), vec![vec![1]]);
    assert_eq!(drain(&mut subsystem, b), vec![vec![1], vec![2]]);
    // a handle that names nobody
    subsystem.unsubscribe(MessageSubscription { dispatcher: 9, slot: 9 });
    assert!(subsystem.receive(MessageSubscription { dispatcher: 0, slot: 9 }).is_none());
    assert!(subsystem.receive(MessageSubscription { dispatcher: 9, slot: 0 }).is_none());
}

#[test]
fn trigger_error_reaches_every_subscriber() {
    let mut subsystem = MessageSubsystem::new();
    subsystem.add_dispatch("ping");
    subsystem.add_dispatch("pong");
    let a = subsystem.subscribe("ping").unwrap();
    let b = subsystem.subscribe("pong").unwrap();
    subsystem.notify("ping", &[1]).unwrap();
    subsystem.trigger_error(Error::ChannelStopped);
    assert!(matches!(subsystem.receive(a), Some(Delivery::Message(m)) if m == vec![1]));
    assert!(matches!(subsystem.receive(a), Some(Delivery::Failure(Error::ChannelStopped))));
    assert!(subsystem.receive(a).is_none());
    assert!(matches!(subsystem.receive(b), Some(Delivery::Failure(Error::ChannelStopped))));
}

#[test]
fn publisher_alone() {
    let mut publisher = Publisher::new();
    assert_eq!(publisher.len(), 0);
    let a = publisher.subscribe();
    let b = publisher.subscribe();
    assert_eq!((a, b), (0, 1));
    publisher.publish_message(&[4, 5]);
    publisher.unsubscribe(b);
    publisher.publish_failure(Error::MalformedPacket);
    assert!(matches!(publisher.take(a), Some(Delivery::Message(m)) if m == vec![4, 5]));
    assert!(matches!(publisher.take(a), Some(Delivery::Failure(Error::MalformedPacket))));
    assert!(publisher.take(a).is_none());
    assert!(matches!(publisher.take(b), Some(Delivery::Message(m)) if m == vec![4, 5]));
    assert!(publisher.take(b).is_none());
}
