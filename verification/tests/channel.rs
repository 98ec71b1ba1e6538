use textring::with_capacity;

#[test]
fn basic() {
    let (tx, mut rx) = with_capacity(10);
    let tx2 = tx.fork(&mut rx);
    tx.write(&mut rx, "hello");
    tx.write(&mut rx, "world");
    tx2.write(&mut rx, "have lots");
    tx2.write(&mut rx, "of fun");
    tx.close(&mut rx);
    tx2.close(&mut rx);
    let mut written = Vec::new();
    while let Ok(read) = rx.read() {
        println!("read: {:?}", read);
        written.push(read);
    }
    println!("channel closed!");
    assert!(written.iter().any(|s| s == "hello"));
    assert!(written.iter().any(|s| s == "world"));

    assert!(written.iter().any(|s| s == "have lots"));
    assert!(written.iter().any(|s| s == "of fun"));
}

#[test]
fn two_producers_drain_exactly_once_in_publish_order() {
    let (tx, mut rx) = with_capacity(10);
    let tx2 = tx.fork(&mut rx);
    tx.write(&mut rx, "hello");
    tx2.write(&mut rx, "have lots");
    tx.write(&mut rx, "world");
    tx2.write(&mut rx, "of fun");
    tx.close(&mut rx);
    tx2.close(&mut rx);
    let mut written = Vec::new();
    while let Ok(read) = rx.read() {
        written.push(read);
    }
    assert_eq!(written, vec!["hello", "have lots", "world", "of fun"]);
    assert!(rx.read().is_err());
    assert!(!rx.lapped());
}

#[test]
fn overwrite_policy_drops_oldest_unread_on_lapping() {
    let (tx, mut rx) = with_capacity(2);
    tx.write(&mut rx, "first");
    tx.write(&mut rx, "second");
    assert!(!rx.lapped());
    tx.write(&mut rx, "third");
    assert!(rx.lapped());
    // the third write reused the first entry's slot: the first read yields
    // the third payload, not the first
    let first_read = rx.try_read().unwrap().unwrap();
    assert_eq!(first_read, "third");
    tx.close(&mut rx);
}

#[test]
fn exactly_capacity_writes_do_not_lap() {
    let (tx, mut rx) = with_capacity(4);
    tx.write(&mut rx, "a");
    tx.write(&mut rx, "b");
    tx.write(&mut rx, "c");
    tx.write(&mut rx, "d");
    assert!(!rx.lapped());
    tx.close(&mut rx);
    let mut written = Vec::new();
    while let Ok(read) = rx.read() {
        written.push(read);
    }
    assert_eq!(written, vec!["a", "b", "c", "d"]);
    assert!(!rx.lapped());
}

#[test]
fn closed_on_first_read_when_no_write_happened() {
    let (tx, mut rx) = with_capacity(8);
    tx.close(&mut rx);
    assert!(rx.read().is_err());
}

#[test]
fn closed_is_permanent() {
    let (tx, mut rx) = with_capacity(3);
    tx.write(&mut rx, "only");
    tx.close(&mut rx);
    assert_eq!(rx.read().unwrap(), "only");
    assert!(rx.read().is_err());
    assert!(rx.read().is_err());
    assert!(rx.try_read().is_err());
    assert!(rx.try_read().is_err());
}

#[test]
fn entry_published_right_before_close_is_still_delivered() {
    let (tx, mut rx) = with_capacity(2);
    let tx2 = tx.fork(&mut rx);
    tx.close(&mut rx);
    tx2.write(&mut rx, "parting word");
    tx2.close(&mut rx);
    assert_eq!(rx.read().unwrap(), "parting word");
    assert!(rx.read().is_err());
}

#[test]
fn try_read_covers_all_three_outcomes() {
    let (tx, mut rx) = with_capacity(2);
    // no data yet, a producer is live
    assert!(matches!(rx.try_read(), Ok(None)));
    tx.write(&mut rx, "data");
    // data available
    assert_eq!(rx.try_read().unwrap().unwrap(), "data");
    tx.close(&mut rx);
    // terminal
    assert!(rx.try_read().is_err());
}

#[test]
fn channel_stays_open_while_any_producer_is_live() {
    let (tx, mut rx) = with_capacity(2);
    let tx2 = tx.fork(&mut rx);
    tx.close(&mut rx);
    // tx2 is still live: empty means "no data yet", not closed
    assert!(matches!(rx.try_read(), Ok(None)));
    tx2.write(&mut rx, "late");
    tx2.close(&mut rx);
    assert_eq!(rx.read().unwrap(), "late");
    assert!(rx.read().is_err());
}

#[test]
fn slot_reuse_replaces_previous_content() {
    let (tx, mut rx) = with_capacity(1);
    tx.write(&mut rx, "long payload in the slot");
    assert_eq!(rx.read().unwrap(), "long payload in the slot");
    tx.write(&mut rx, "short");
    assert_eq!(rx.read().unwrap(), "short");
    tx.close(&mut rx);
    assert!(rx.read().is_err());
}
