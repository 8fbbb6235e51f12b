use mpsc_channel::queue::Fifo;

#[test]
fn a_new_queue_is_empty() {
    let q = Fifo::<i32>::new();
    assert!(q.is_empty());
    assert_eq!(q.len(), 0);
}

#[test]
fn push_grows_and_pop_shrinks() {
    let mut q = Fifo::new();
    q.push(10);
    q.push(20);
    assert!(!q.is_empty());
    assert_eq!(q.len(), 2);
    assert_eq!(q.pop(), Some(10));
    assert_eq!(q.len(), 1);
    assert_eq!(q.pop(), Some(20));
    assert!(q.is_empty());
    assert_eq!(q.pop(), None);
}

#[test]
fn pop_returns_the_oldest_value_first() {
    let mut q = Fifo::new();
    for i in 0..10u8 {
        q.push(i);
    }
    for i in 0..10u8 {
        assert_eq!(q.pop(), Some(i));
    }
    assert_eq!(q.pop(), None);
}

#[test]
fn pop_on_empty_leaves_the_queue_usable() {
    let mut q = Fifo::new();
    assert_eq!(q.pop(), None);
    q.push(String::from("a"));
    assert_eq!(q.pop(), Some(String::from("a")));
    assert_eq!(q.pop(), None);
    assert_eq!(q.len(), 0);
}
