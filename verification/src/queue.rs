//! A FIFO queue over the same slab-style buffer as the array: elements
//! are appended at a tail watermark and removed at an advancing head
//! index. Slots the head has passed are never reclaimed; capacity they
//! occupy stays consumed until the whole queue is dropped.

use crate::array::grown_capacity;
use crate::render::lemma_rendered_items_push;
use crate::render::Render;
use crate::render::rendered_items;
use crate::render::rendered_queue;
use vstd::prelude::*;

verus! {

/// A FIFO queue. The buffer is a slab of `capacity` slots; the live
/// elements occupy slots `[head, watermark)` in insertion order, and
/// every other slot — already dequeued or never written — is vacant.
pub struct Queue<T> {
    head: usize,
    len: usize,
    buf: Vec<Option<T>>,
}

impl<T> View for Queue<T> {
    type V = Seq<T>;

    /// The live elements, oldest first.
    closed spec fn view(&self) -> Seq<T> {
        Seq::new((self.len - self.head) as nat, |i: int| self.buf@[self.head + i]->0)
    }
}

impl<T> Queue<T> {
    /// Total element slots currently backed by allocated storage.
    pub closed spec fn capacity(&self) -> nat {
        self.buf@.len()
    }

    /// Index of the oldest live element.
    pub closed spec fn head_index(&self) -> nat {
        self.head as nat
    }

    /// The tail watermark: the exclusive upper bound of ever-written
    /// slots. Both it and the head only ever move forward.
    pub closed spec fn watermark(&self) -> nat {
        self.len as nat
    }

    /// Well-formedness: `head <= watermark <= capacity`, live elements
    /// fill exactly the slots `[head, watermark)`, and every other slot
    /// is vacant.
    pub closed spec fn wf(&self) -> bool {
        &&& self.head <= self.len <= self.buf@.len()
        &&& forall|i: int| self.head <= i < self.len ==> self.buf@[i] is Some
        &&& forall|i: int| 0 <= i < self.head ==> self.buf@[i] is None
        &&& forall|i: int| self.len <= i < self.buf@.len() ==> self.buf@[i] is None
    }

    /// Creates an empty queue with no allocation. Zero-sized element
    /// types are rejected: the slab layout arithmetic is not defined for
    /// them, so constructing such a queue is a contract violation.
    pub fn new() -> (r: Self)
        requires
            vstd::layout::size_of::<T>() != 0,
        ensures
            r.wf(),
            r@ == Seq::<T>::empty(),
            r.capacity() == 0,
            r.head_index() == 0,
            r.watermark() == 0,
    {
        let r = Queue { head: 0, len: 0, buf: Vec::new() };
        proof {
            assert(r@ =~= Seq::<T>::empty());
        }
        r
    }

    /// Grows the buffer by one doubling step, moving every slot into the
    /// new storage. Head and watermark are untouched, so the live
    /// elements and their order are preserved; already-consumed slots
    /// stay where they were.
    fn grow(&mut self)
        requires
            old(self).wf(),
            old(self).capacity() < usize::MAX / 2,
        ensures
            final(self).wf(),
            final(self)@ == old(self)@,
            final(self).head_index() == old(self).head_index(),
            final(self).watermark() == old(self).watermark(),
            final(self).capacity() == grown_capacity(old(self).capacity()),
    {
        let old_cap = self.buf.len();
        let new_cap: usize = if old_cap == 0 {
            1
        } else {
            old_cap * 2
        };
        let mut new_buf: Vec<Option<T>> = Vec::with_capacity(new_cap);
        let mut i: usize = 0;
        while i < self.buf.len()
            invariant
                i <= self.buf@.len(),
                self.head == old(self).head,
                self.len == old(self).len,
                self.buf@.len() == old(self).buf@.len(),
                new_buf@.len() == i,
                forall|j: int| 0 <= j < i ==> new_buf@[j] == old(self).buf@[j],
                forall|j: int| i <= j < self.buf@.len() ==> self.buf@[j] == old(self).buf@[j],
            decreases self.buf@.len() - i,
        {
            let mut slot: Option<T> = None;
            self.buf.set_and_swap(i, &mut slot);
            new_buf.push(slot);
            i = i + 1;
        }
        while new_buf.len() < new_cap
            invariant
                old(self).buf@.len() <= new_buf@.len() <= new_cap,
                forall|j: int| 0 <= j < old(self).buf@.len() ==> new_buf@[j] == old(self).buf@[j],
                forall|j: int| old(self).buf@.len() <= j < new_buf@.len() ==> new_buf@[j] is None,
            decreases new_cap - new_buf@.len(),
        {
            new_buf.push(None);
        }
        self.buf = new_buf;
        proof {
            assert(self@ =~= old(self)@);
        }
    }

    /// Appends `value` at the tail watermark, growing first when the
    /// watermark has reached capacity. The live elements gain `value` at
    /// the end; nothing else moves, whether or not an internal
    /// reallocation took place.
    pub fn enqueue(&mut self, value: T)
        requires
            old(self).wf(),
            old(self).capacity() < usize::MAX / 2,
        ensures
            final(self).wf(),
            final(self)@ == old(self)@.push(value),
            final(self).head_index() == old(self).head_index(),
            final(self).watermark() == old(self).watermark() + 1,
            final(self).capacity() == if old(self).watermark() < old(self).capacity() {
                old(self).capacity()
            } else {
                grown_capacity(old(self).capacity())
            },
    {
        if self.len == self.buf.len() {
            self.grow();
        }
        self.buf.set(self.len, Some(value));
        self.len = self.len + 1;
        proof {
            assert(self@ =~= old(self)@.push(value));
        }
    }

    /// Removes and returns the oldest live element, advancing the head
    /// past its slot, or returns nothing when the queue is empty. The
    /// freed slot is never reused; capacity and watermark are unchanged
    /// either way.
    pub fn dequeue(&mut self) -> (r: Option<T>)
        requires
            old(self).wf(),
        ensures
            final(self).wf(),
            final(self).capacity() == old(self).capacity(),
            final(self).watermark() == old(self).watermark(),
            match r {
                Some(v) => old(self)@.len() > 0 && v == old(self)@.first()
                    && final(self)@ == old(self)@.drop_first()
                    && final(self).head_index() == old(self).head_index() + 1,
                None => old(self)@.len() == 0 && final(self)@ == old(self)@
                    && final(self).head_index() == old(self).head_index(),
            },
    {
        if self.head == self.len {
            None
        } else {
            let mut slot: Option<T> = None;
            self.buf.set_and_swap(self.head, &mut slot);
            self.head = self.head + 1;
            proof {
                assert(self@ =~= old(self)@.drop_first());
            }
            slot
        }
    }

    /// The number of live elements, `watermark - head`: exactly the
    /// count of enqueues minus the count of successful dequeues so far.
    pub fn len(&self) -> (n: usize)
        requires
            self.wf(),
        ensures
            n == self@.len(),
    {
        self.len - self.head
    }

    /// Builds a queue directly from an ordered list of initial values,
    /// equivalent to constructing empty and enqueueing each value in
    /// order.
    pub fn from_values(values: Vec<T>) -> (r: Self)
        requires
            vstd::layout::size_of::<T>() != 0,
            values@.len() <= usize::MAX / 4,
        ensures
            r.wf(),
            r@ == values@,
            r.head_index() == 0,
    {
        let ghost all = values@;
        let mut values = values;
        let mut r = Queue::new();
        while values.len() > 0
            invariant
                vstd::layout::size_of::<T>() != 0,
                all.len() <= usize::MAX / 4,
                r.wf(),
                r@ + values@ == all,
                r.head_index() == 0,
                r.capacity() <= 2 * r@.len() + 1,
                r.watermark() == r@.len(),
            decreases values@.len(),
        {
            let v = values.remove(0);
            let ghost taken = r@;
            let ghost rest = values@;
            r.enqueue(v);
            proof {
                assert(taken.push(v) + rest =~= taken + (seq![v] + rest));
                assert(r@ + values@ =~= all);
            }
        }
        proof {
            assert(r@ =~= all);
        }
        r
    }
}

impl<T: Render> Queue<T> {
    /// Renders the live elements, oldest first, as `Queue [e0,e1,...]`,
    /// with no leading or trailing comma inside the brackets. Read-only:
    /// no element is removed or changed by rendering.
    pub fn debug_string(&self) -> (r: String)
        requires
            self.wf(),
        ensures
            r@ == rendered_queue(self@),
    {
        let mut out = String::new();
        out.append("Queue [");
        proof {
            reveal_strlit("Queue [");
            assert(out@ =~= seq!['Q', 'u', 'e', 'u', 'e', ' ', '[']
                + rendered_items(self@.take(0)));
        }
        let mut i: usize = 0;
        let count = self.len - self.head;
        while i < count
            invariant
                self.wf(),
                count == self@.len(),
                i <= count,
                out@ == seq!['Q', 'u', 'e', 'u', 'e', ' ', '[']
                    + rendered_items(self@.take(i as int)),
            decreases count - i,
        {
            if i > 0 {
                out.append(",");
            }
            let elem: &T = match &self.buf[self.head + i] {
                Some(v) => v,
                None => unreached(),
            };
            elem.render_into(&mut out);
            proof {
                reveal_strlit(",");
                lemma_rendered_items_push(self@.take(i as int), self@[i as int]);
                assert(self@.take(i + 1) =~= self@.take(i as int).push(self@[i as int]));
                assert(out@ =~= seq!['Q', 'u', 'e', 'u', 'e', ' ', '[']
                    + rendered_items(self@.take(i + 1)));
            }
            i = i + 1;
        }
        out.append("]");
        proof {
            reveal_strlit("]");
            assert(self@.take(count as int) =~= self@);
            assert(out@ =~= rendered_queue(self@));
        }
        out
    }
}

} // verus!
