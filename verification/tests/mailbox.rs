use display_core::mailbox::{deliver, Mailbox};

#[test]
fn polling_an_empty_mailbox_never_invokes_the_callback() {
    let mailbox: Mailbox<u32> = Mailbox::new();
    let mut invocations = 0;
    for _ in 0..10 {
        mailbox.if_new(|_| invocations += 1).unwrap();
    }
    assert_eq!(invocations, 0);
}

#[test]
fn put_then_poll_delivers_exactly_once() {
    let mailbox = Mailbox::new();
    mailbox.put(7u32).unwrap();

    let mut seen = Vec::new();
    mailbox.if_new(|v| seen.push(v)).unwrap();
    assert_eq!(seen, vec![7]);

    // The slot was left empty: a second poll delivers nothing.
    mailbox.if_new(|v| seen.push(v)).unwrap();
    assert_eq!(seen, vec![7]);
}

#[test]
fn a_write_replaces_any_unread_value() {
    let mailbox = Mailbox::new();
    mailbox.put(1u32).unwrap();
    mailbox.put(2u32).unwrap();

    let mut seen = Vec::new();
    mailbox.if_new(|v| seen.push(v)).unwrap();
    mailbox.if_new(|v| seen.push(v)).unwrap();
    // Only the latest value is ever observed, and only once.
    assert_eq!(seen, vec![2]);
}

#[test]
fn cloned_handles_share_one_slot() {
    let consumer: Mailbox<&'static str> = Mailbox::new();
    let producer = consumer.clone();
    producer.put("reading").unwrap();

    let mut seen = Vec::new();
    consumer.if_new(|v| seen.push(v)).unwrap();
    assert_eq!(seen, vec!["reading"]);
}

#[test]
fn many_writes_between_polls_observe_only_latest() {
    let consumer: Mailbox<u64> = Mailbox::new();
    let producer = consumer.clone();
    for value in 0..100u64 {
        producer.put(value).unwrap();
    }

    let mut seen = Vec::new();
    consumer.if_new(|v| seen.push(v)).unwrap();
    assert_eq!(seen, vec![99]);
}

#[test]
fn deliver_invokes_exactly_when_a_value_is_pending() {
    let mut seen = Vec::new();
    let invoked = deliver(Some(5u8), |v| seen.push(v));
    assert!(invoked);
    assert_eq!(seen, vec![5]);

    let invoked = deliver(None, |v| seen.push(v));
    assert!(!invoked);
    assert_eq!(seen, vec![5]);
}

#[test]
fn put_reports_success_on_a_healthy_mailbox() {
    let mailbox = Mailbox::new();
    assert!(mailbox.put(0u8).is_ok());
    assert!(mailbox.if_new(|_| ()).is_ok());
}
