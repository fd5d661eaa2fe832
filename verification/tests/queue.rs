use wreq_tls::queue::StepQueue;

#[test]
fn calls_come_in_the_order_they_were_queued() {
    let mut queue = StepQueue::new(vec!["a", "b"]);
    assert_eq!(queue.next(), Some(&"a"));
    assert_eq!(queue.next(), Some(&"a"));
    queue.succeed(vec![]);
    assert_eq!(queue.next(), Some(&"b"));
    assert!(!queue.is_complete());
    queue.succeed(vec![]);
    assert_eq!(queue.next(), None);
    assert!(queue.is_complete());
}

#[test]
fn calls_that_a_call_asks_for_come_next() {
    let mut queue = StepQueue::new(vec!["a", "d"]);
    queue.succeed(vec!["b", "c"]);
    let mut made = Vec::new();
    while let Some(step) = queue.next() {
        made.push(*step);
        queue.succeed(vec![]);
    }
    assert_eq!(made, vec!["b", "c", "d"]);
}

#[test]
fn nothing_comes_after_a_failure() {
    let mut queue = StepQueue::new(vec!["a", "b"]);
    queue.fail();
    assert_eq!(queue.next(), None);
    assert!(!queue.is_complete());
}

#[test]
fn empty_queue_is_complete() {
    assert!(StepQueue::<u8>::new(vec![]).is_complete());
}
