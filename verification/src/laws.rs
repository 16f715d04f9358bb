//! Order and counting laws of the two containers, stated over the same
//! views and effects that the operations' own contracts use: `push` and
//! `enqueue` extend the live elements by one at the end, `pop` yields
//! the last live element and drops it, and `dequeue` yields the first
//! and drops it.

use vstd::prelude::*;

verus! {

/// The values yielded by `n` successive pops from an array whose live
/// elements are `s`: each pop yields the last live element and removes
/// it, and a pop on an empty array yields nothing, exactly as
/// `Array::pop`'s contract states.
pub open spec fn popped_values<T>(s: Seq<T>, n: nat) -> Seq<T>
    decreases n,
{
    if n == 0 || s.len() == 0 {
        Seq::empty()
    } else {
        seq![s.last()] + popped_values(s.drop_last(), (n - 1) as nat)
    }
}

/// The values yielded by `n` successive dequeues from a queue whose
/// live elements are `s`: each dequeue yields the first live element
/// and removes it, and a dequeue on an empty queue yields nothing,
/// exactly as `Queue::dequeue`'s contract states.
pub open spec fn dequeued_values<T>(s: Seq<T>, n: nat) -> Seq<T>
    decreases n,
{
    if n == 0 || s.len() == 0 {
        Seq::empty()
    } else {
        seq![s.first()] + dequeued_values(s.drop_first(), (n - 1) as nat)
    }
}

/// LIFO order: pushing `vs` in order onto an empty array leaves live
/// elements `vs` (each push appends at the end), and the following
/// `vs.len()` pops then yield exactly `vs` reversed — and this holds
/// however many internal reallocations the pushes caused, since the
/// push contract is the same either way.
pub proof fn lemma_lifo_order<T>(vs: Seq<T>)
    ensures
        popped_values(vs, vs.len()) == vs.reverse(),
    decreases vs.len(),
{
    if vs.len() == 0 {
        assert(vs.reverse() =~= Seq::<T>::empty());
    } else {
        lemma_lifo_order(vs.drop_last());
        assert(vs.reverse() =~= seq![vs.last()] + vs.drop_last().reverse());
    }
}

/// FIFO order: enqueueing `vs` in order onto an empty queue leaves live
/// elements `vs` (each enqueue appends at the end), and the following
/// `vs.len()` dequeues then yield exactly `vs` in the same order —
/// again independent of internal reallocations.
pub proof fn lemma_fifo_order<T>(vs: Seq<T>)
    ensures
        dequeued_values(vs, vs.len()) == vs,
    decreases vs.len(),
{
    if vs.len() != 0 {
        lemma_fifo_order(vs.drop_first());
        assert(dequeued_values(vs, vs.len()) =~= vs);
    }
}

/// One array operation, for stating laws over arbitrary interleavings.
pub enum ArrayOp<T> {
    Push(T),
    Pop,
}

/// One queue operation, for stating laws over arbitrary interleavings.
pub enum QueueOp<T> {
    Enqueue(T),
    Dequeue,
}

/// The effect of one array operation on the live elements, exactly as
/// the contracts of `Array::push` and `Array::pop` state it.
pub open spec fn array_step<T>(s: Seq<T>, op: ArrayOp<T>) -> Seq<T> {
    match op {
        ArrayOp::Push(v) => s.push(v),
        ArrayOp::Pop => if s.len() > 0 {
            s.drop_last()
        } else {
            s
        },
    }
}

/// The live elements after running `ops` in order from state `s`.
pub open spec fn array_run<T>(s: Seq<T>, ops: Seq<ArrayOp<T>>) -> Seq<T>
    decreases ops.len(),
{
    if ops.len() == 0 {
        s
    } else {
        array_run(array_step(s, ops.first()), ops.drop_first())
    }
}

/// The number of insertions among `ops`.
pub open spec fn array_insertions<T>(ops: Seq<ArrayOp<T>>) -> int
    decreases ops.len(),
{
    if ops.len() == 0 {
        0
    } else {
        (if ops.first() is Push {
            1int
        } else {
            0int
        }) + array_insertions(ops.drop_first())
    }
}

/// The number of removals among `ops` run from state `s`: the pops that
/// found a live element (a pop on an empty array removes nothing).
pub open spec fn array_removals<T>(s: Seq<T>, ops: Seq<ArrayOp<T>>) -> int
    decreases ops.len(),
{
    if ops.len() == 0 {
        0
    } else {
        (if ops.first() is Pop && s.len() > 0 {
            1int
        } else {
            0int
        }) + array_removals(array_step(s, ops.first()), ops.drop_first())
    }
}

/// The effect of one queue operation on the live elements, exactly as
/// the contracts of `Queue::enqueue` and `Queue::dequeue` state it.
pub open spec fn queue_step<T>(s: Seq<T>, op: QueueOp<T>) -> Seq<T> {
    match op {
        QueueOp::Enqueue(v) => s.push(v),
        QueueOp::Dequeue => if s.len() > 0 {
            s.drop_first()
        } else {
            s
        },
    }
}

/// The live elements after running `ops` in order from state `s`.
pub open spec fn queue_run<T>(s: Seq<T>, ops: Seq<QueueOp<T>>) -> Seq<T>
    decreases ops.len(),
{
    if ops.len() == 0 {
        s
    } else {
        queue_run(queue_step(s, ops.first()), ops.drop_first())
    }
}

/// The number of insertions among `ops`.
pub open spec fn queue_insertions<T>(ops: Seq<QueueOp<T>>) -> int
    decreases ops.len(),
{
    if ops.len() == 0 {
        0
    } else {
        (if ops.first() is Enqueue {
            1int
        } else {
            0int
        }) + queue_insertions(ops.drop_first())
    }
}

/// The number of removals among `ops` run from state `s`: the dequeues
/// that found a live element.
pub open spec fn queue_removals<T>(s: Seq<T>, ops: Seq<QueueOp<T>>) -> int
    decreases ops.len(),
{
    if ops.len() == 0 {
        0
    } else {
        (if ops.first() is Dequeue && s.len() > 0 {
            1int
        } else {
            0int
        }) + queue_removals(queue_step(s, ops.first()), ops.drop_first())
    }
}

/// For any interleaving of pushes and pops, the number of live elements
/// — the array's `length` — is the starting count plus the insertions
/// minus the removals.
pub proof fn lemma_array_length<T>(s: Seq<T>, ops: Seq<ArrayOp<T>>)
    ensures
        array_run(s, ops).len() == s.len() + array_insertions(ops) - array_removals(s, ops),
    decreases ops.len(),
{
    if ops.len() != 0 {
        lemma_array_length(array_step(s, ops.first()), ops.drop_first());
    }
}

/// For any interleaving of enqueues and dequeues, the number of live
/// elements — the queue's `length - head` — is the starting count plus
/// the insertions minus the removals.
pub proof fn lemma_queue_length<T>(s: Seq<T>, ops: Seq<QueueOp<T>>)
    ensures
        queue_run(s, ops).len() == s.len() + queue_insertions(ops) - queue_removals(s, ops),
    decreases ops.len(),
{
    if ops.len() != 0 {
        lemma_queue_length(queue_step(s, ops.first()), ops.drop_first());
    }
}

} // verus!
