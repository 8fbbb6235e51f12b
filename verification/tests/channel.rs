use mpsc_channel::channel;

#[test]
fn send_then_recv_returns_the_value() {
    let (mut tx, mut rx) = channel::<i32>();
    tx.send(42);
    assert_eq!(rx.recv(), 42);
}

#[test]
fn round_trip_keeps_the_value_intact() {
    let (mut tx, mut rx) = channel::<String>();
    tx.send(String::from("hello channel"));
    assert_eq!(rx.recv(), String::from("hello channel"));
}

#[test]
fn values_come_out_in_send_order() {
    let (mut tx, mut rx) = channel::<u64>();
    for i in 0..100u64 {
        tx.send(i * i);
    }
    for i in 0..100u64 {
        assert_eq!(rx.recv(), i * i);
    }
}

#[test]
fn clones_feed_the_same_queue_in_send_order() {
    let (mut tx, mut rx) = channel::<i32>();
    let mut tx2 = tx.clone();
    let mut tx3 = tx2.clone();
    tx.send(1);
    tx2.send(2);
    tx3.send(3);
    tx.send(4);
    assert_eq!(rx.recv(), 1);
    assert_eq!(rx.recv(), 2);
    assert_eq!(rx.recv(), 3);
    assert_eq!(rx.recv(), 4);
}

#[test]
fn exactly_k_sends_are_drained_by_k_recvs() {
    let (mut tx, mut rx) = channel::<usize>();
    let mut tx2 = tx.clone();
    let k: usize = 50;
    for i in 0..k {
        if i % 2 == 0 {
            tx.send(i);
        } else {
            tx2.send(i);
        }
    }
    let mut seen: Vec<usize> = Vec::new();
    for _ in 0..k {
        seen.push(rx.recv());
    }
    let mut expected: Vec<usize> = (0..k).collect();
    seen.sort();
    expected.sort();
    assert_eq!(seen, expected);
    // One more receive would block forever: nothing is pending any more.
    assert_eq!(rx.try_recv(), None);
}

#[test]
fn try_recv_on_an_empty_channel_is_none() {
    let (_tx, mut rx) = channel::<u8>();
    assert_eq!(rx.try_recv(), None);
}

#[test]
fn try_recv_pops_the_front_value() {
    let (mut tx, mut rx) = channel::<u8>();
    tx.send(7);
    tx.send(9);
    assert_eq!(rx.try_recv(), Some(7));
    assert_eq!(rx.try_recv(), Some(9));
    assert_eq!(rx.try_recv(), None);
}

#[test]
fn sending_after_a_drain_still_works() {
    let (mut tx, mut rx) = channel::<i64>();
    tx.send(-5);
    assert_eq!(rx.recv(), -5);
    tx.send(17);
    tx.send(18);
    assert_eq!(rx.recv(), 17);
    assert_eq!(rx.recv(), 18);
}

#[test]
fn each_value_is_delivered_exactly_once() {
    let (mut tx, mut rx) = channel::<u32>();
    let mut senders = Vec::new();
    for _ in 0..5 {
        senders.push(tx.clone());
    }
    for (i, s) in senders.iter_mut().enumerate() {
        s.send(i as u32);
        s.send(100 + i as u32);
    }
    let mut got = Vec::new();
    for _ in 0..10 {
        got.push(rx.recv());
    }
    got.sort();
    assert_eq!(got, vec![0, 1, 2, 3, 4, 100, 101, 102, 103, 104]);
    assert_eq!(rx.try_recv(), None);
    // The unused original sender still feeds the same channel.
    tx.send(999);
    assert_eq!(rx.recv(), 999);
}
