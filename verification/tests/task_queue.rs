use wosim::task_queue::TaskQueue;

#[test]
fn task_queue_first_fit_and_growth() {
    let mut q = TaskQueue::new();
    assert_eq!(q.block_count(), 1);
    for i in 0..64 {
        let (b, s) = q.reserve();
        assert_eq!((b, s), (0, i));
        assert!(!q.record_push(b, s, false));
    }
    let (b, s) = q.reserve();
    assert_eq!((b, s), (1, 0));
    q.record_push(b, s, false);
    assert_eq!(q.block_count(), 2);
    q.complete(0, 5);
    assert_eq!(q.reserve(), (0, 5));
    assert!(!q.is_occupied(0, 5));
    assert!(q.is_occupied(0, 6));
}

#[test]
fn task_queue_ready_task_frees_its_slot() {
    let mut q = TaskQueue::new();
    let (b, s) = q.reserve();
    assert!(q.record_push(b, s, true));
    assert_eq!(q.reserve(), (0, 0));
    assert!(q.finish_poll());
}

#[test]
fn task_queue_woken_slots_in_order() {
    let mut q = TaskQueue::new();
    for _ in 0..10 {
        let (b, s) = q.reserve();
        q.record_push(b, s, false);
    }
    q.wake(0, 7);
    q.wake(0, 2);
    q.wake(0, 9);
    q.wake(3, 1);
    let mut w = q.take_woken(0);
    assert_eq!(w.pop_first(), Some(2));
    assert_eq!(w.pop_first(), Some(7));
    assert_eq!(w.pop_first(), Some(9));
    assert_eq!(w.pop_first(), None);
    let mut again = q.take_woken(0);
    assert_eq!(again.pop_first(), None);
}

#[test]
fn task_queue_finish_trims_empty_blocks() {
    let mut q = TaskQueue::new();
    for _ in 0..130 {
        let (b, s) = q.reserve();
        q.record_push(b, s, false);
    }
    assert_eq!(q.block_count(), 3);
    for s in 0..2 {
        q.complete(2, s);
    }
    assert!(!q.finish_poll());
    assert_eq!(q.block_count(), 2);
    for b in 0..2 {
        for s in 0..64 {
            q.complete(b, s);
        }
    }
    assert!(q.finish_poll());
    assert_eq!(q.block_count(), 1);
}

#[test]
fn task_queue_poll_round_polls_woken_pending_slots_once() {
    let mut q = TaskQueue::new();
    for _ in 0..10 {
        let (b, s) = q.reserve();
        q.record_push(b, s, false);
    }
    q.complete(0, 4);
    q.wake(0, 8);
    q.wake(0, 4);
    q.wake(0, 1);
    q.wake(0, 8);
    let order = q.poll_order(0);
    assert_eq!(order, vec![1, 8]);
    q.finish_slots(0, &order, &vec![true, false]);
    assert!(!q.is_occupied(0, 1));
    assert!(q.is_occupied(0, 8));
    assert!(q.is_occupied(0, 2));
    assert_eq!(q.poll_order(0), Vec::<usize>::new());
}
