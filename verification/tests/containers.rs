use containers::array::Array;
use containers::queue::Queue;

use std::cell::RefCell;
use std::rc::Rc;

/// An element whose cleanup records its id, to observe destruction
/// count and order.
struct Tracker {
    id: u32,
    log: Rc<RefCell<Vec<u32>>>,
}

impl Drop for Tracker {
    fn drop(&mut self) {
        self.log.borrow_mut().push(self.id);
    }
}

#[test]
fn lifo_order() {
    let mut a: Array<u64> = Array::new();
    for v in 1..=5u64 {
        a.push(v);
    }
    for expected in (1..=5u64).rev() {
        assert_eq!(a.pop(), Some(expected));
    }
    assert_eq!(a.pop(), None);
}

#[test]
fn fifo_order() {
    let mut q: Queue<u64> = Queue::new();
    for v in 1..=5u64 {
        q.enqueue(v);
    }
    for expected in 1..=5u64 {
        assert_eq!(q.dequeue(), Some(expected));
    }
    assert_eq!(q.dequeue(), None);
}

#[test]
fn growth_preserves_array_elements() {
    let mut a: Array<u64> = Array::new();
    for v in 0..100u64 {
        a.push(v);
    }
    for expected in (0..100u64).rev() {
        assert_eq!(a.pop(), Some(expected));
    }
    assert_eq!(a.pop(), None);
}

#[test]
fn growth_preserves_queue_elements() {
    let mut q: Queue<u64> = Queue::new();
    for v in 0..100u64 {
        q.enqueue(v);
    }
    for expected in 0..100u64 {
        assert_eq!(q.dequeue(), Some(expected));
    }
    assert_eq!(q.dequeue(), None);
}

#[test]
fn array_length_tracks_net_insertions() {
    let mut a: Array<u64> = Array::new();
    assert_eq!(a.len(), 0);
    a.push(1);
    a.push(2);
    assert_eq!(a.len(), 2);
    a.pop();
    assert_eq!(a.len(), 1);
    a.push(3);
    a.push(4);
    assert_eq!(a.len(), 3);
    a.pop();
    a.pop();
    a.pop();
    assert_eq!(a.len(), 0);
    // A pop that finds nothing is not a removal.
    assert_eq!(a.pop(), None);
    assert_eq!(a.len(), 0);
}

#[test]
fn queue_length_tracks_net_insertions() {
    let mut q: Queue<u64> = Queue::new();
    assert_eq!(q.len(), 0);
    q.enqueue(1);
    q.enqueue(2);
    q.enqueue(3);
    assert_eq!(q.len(), 3);
    q.dequeue();
    assert_eq!(q.len(), 2);
    q.enqueue(4);
    assert_eq!(q.len(), 3);
    q.dequeue();
    q.dequeue();
    q.dequeue();
    assert_eq!(q.len(), 0);
    assert_eq!(q.dequeue(), None);
    assert_eq!(q.len(), 0);
}

#[test]
fn array_drop_runs_cleanup_front_to_back() {
    let log: Rc<RefCell<Vec<u32>>> = Rc::new(RefCell::new(Vec::new()));
    {
        let mut a: Array<Tracker> = Array::new();
        for id in 1..=3u32 {
            a.push(Tracker { id, log: Rc::clone(&log) });
        }
        assert_eq!(log.borrow().len(), 0);
    }
    assert_eq!(*log.borrow(), vec![1, 2, 3]);
}

#[test]
fn queue_drop_runs_cleanup_front_to_back() {
    let log: Rc<RefCell<Vec<u32>>> = Rc::new(RefCell::new(Vec::new()));
    {
        let mut q: Queue<Tracker> = Queue::new();
        for id in 1..=4u32 {
            q.enqueue(Tracker { id, log: Rc::clone(&log) });
        }
        // The first element is dequeued and dropped by the caller; the
        // remaining live elements are cleaned up when the queue goes.
        let first = q.dequeue();
        assert_eq!(log.borrow().len(), 0);
        drop(first);
        assert_eq!(*log.borrow(), vec![1]);
    }
    assert_eq!(*log.borrow(), vec![1, 2, 3, 4]);
}

#[test]
fn empty_containers_drop_quietly() {
    let a: Array<u64> = Array::new();
    let q: Queue<u64> = Queue::new();
    drop(a);
    drop(q);
}

#[test]
fn array_debug_rendering() {
    let mut a: Array<u64> = Array::from_values(vec![1, 2, 3, 4, 5]);
    assert_eq!(a.debug_string(), "[1,2,3,4,5]");
    assert_eq!(a.pop(), Some(5));
    assert_eq!(a.debug_string(), "[1,2,3,4]");
}

#[test]
fn queue_debug_rendering() {
    let mut q: Queue<u64> = Queue::new();
    for v in 1..=4u64 {
        q.enqueue(v);
    }
    assert_eq!(q.debug_string(), "Queue [1,2,3,4]");
    assert_eq!(q.dequeue(), Some(1));
    assert_eq!(q.debug_string(), "Queue [2,3,4]");
}

#[test]
fn builder_then_pop() {
    let mut a: Array<u64> = Array::from_values(vec![1, 2, 3, 4, 5]);
    assert_eq!(a.pop(), Some(5));
    assert_eq!(a.debug_string(), "[1,2,3,4]");
}

#[test]
fn builder_matches_manual_construction() {
    let built: Array<u64> = Array::from_values(vec![7, 8, 9]);
    let mut manual: Array<u64> = Array::new();
    manual.push(7);
    manual.push(8);
    manual.push(9);
    assert_eq!(built.debug_string(), manual.debug_string());

    let q: Queue<u64> = Queue::from_values(vec![7, 8, 9]);
    let mut manual_q: Queue<u64> = Queue::new();
    manual_q.enqueue(7);
    manual_q.enqueue(8);
    manual_q.enqueue(9);
    assert_eq!(q.debug_string(), manual_q.debug_string());
}

#[test]
fn empty_renderings() {
    let a: Array<u64> = Array::new();
    assert_eq!(a.debug_string(), "[]");
    let q: Queue<u64> = Queue::new();
    assert_eq!(q.debug_string(), "Queue []");
}

#[test]
fn single_element_rendering_has_no_comma() {
    let a: Array<u64> = Array::from_values(vec![7]);
    assert_eq!(a.debug_string(), "[7]");
    let q: Queue<u64> = Queue::from_values(vec![7]);
    assert_eq!(q.debug_string(), "Queue [7]");
}

#[test]
fn multi_digit_rendering() {
    let a: Array<u64> = Array::from_values(vec![0, 10, 123, 18446744073709551615]);
    assert_eq!(a.debug_string(), "[0,10,123,18446744073709551615]");
}

#[test]
fn peek_reads_without_removing() {
    let mut a: Array<u64> = Array::new();
    assert_eq!(a.peek(), None);
    a.push(1);
    a.push(2);
    assert_eq!(a.peek(), Some(&2));
    assert_eq!(a.len(), 2);
    assert_eq!(a.debug_string(), "[1,2]");
    assert_eq!(a.pop(), Some(2));
    assert_eq!(a.peek(), Some(&1));
}

#[test]
fn dequeued_slots_are_not_reused() {
    // The queue never compacts: after interleaved enqueues and
    // dequeues, order and contents are still exact.
    let mut q: Queue<u64> = Queue::new();
    q.enqueue(1);
    q.enqueue(2);
    assert_eq!(q.dequeue(), Some(1));
    q.enqueue(3);
    q.enqueue(4);
    assert_eq!(q.dequeue(), Some(2));
    assert_eq!(q.debug_string(), "Queue [3,4]");
    assert_eq!(q.dequeue(), Some(3));
    assert_eq!(q.dequeue(), Some(4));
    assert_eq!(q.dequeue(), None);
    assert_eq!(q.debug_string(), "Queue []");
}
